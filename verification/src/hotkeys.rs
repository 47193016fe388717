//! Global hotkeys: reading a binding, checking one that a user chose, and what a press does
//! while the window is in the background.
use vstd::prelude::*;
use crate::text::{
    chars_of, eq_ignore_ascii_case, parse_unsigned, push_decimal, push_signed_decimal, same_text, split, string_of,
    to_ascii_lowercase, to_ascii_uppercase, trim,
};
use crate::text::{
    all_digits, decimal, decimal_notation_round_trips, digits_value, is_white_space, lower_char, lower_text,
    signed_decimal, split_on, split_on_has_a_piece, texts, trimmed, trimmed_end, trimmed_start, unsigned_value,
    upper_char, upper_text,
};

verus! {

pub const HK_TOGGLE: i32 = 1;
pub const HK_QUIT: i32 = 2;
pub const HK_PANEL: i32 = 3;
pub const HK_GUI_TOPMOST: i32 = 4;

/// Modifier bits as the system takes them.
pub const MOD_ALT: u32 = 0x0001;
pub const MOD_CONTROL: u32 = 0x0002;
pub const MOD_SHIFT: u32 = 0x0004;
pub const MOD_WIN: u32 = 0x0008;
pub const MOD_NOREPEAT: u32 = 0x4000;

/// Virtual-key codes.
pub const VK_F1: u32 = 0x70;
pub const VK_SPACE: u32 = 0x20;
pub const VK_RETURN: u32 = 0x0d;
pub const VK_HOME: u32 = 0x24;
pub const VK_END: u32 = 0x23;
pub const VK_INSERT: u32 = 0x2d;
pub const VK_DELETE: u32 = 0x2e;
pub const VK_PRIOR: u32 = 0x21;
pub const VK_NEXT: u32 = 0x22;
pub const VK_UP: u32 = 0x26;
pub const VK_DOWN: u32 = 0x28;
pub const VK_LEFT: u32 = 0x25;
pub const VK_RIGHT: u32 = 0x27;

/// Why a binding is not accepted.
#[derive(Debug, PartialEq, Eq)]
pub enum HotkeyValidationError {
    KeyCount,
    MissingModifier,
    MissingPrimary,
    MultiplePrimary,
    DuplicateKey,
    UnsupportedKey(String),
    WinModifier,
    Reserved,
}

/// A fault as a mathematical value: the key's text in place of a string.
pub enum Fault {
    KeyCount,
    MissingModifier,
    MissingPrimary,
    MultiplePrimary,
    DuplicateKey,
    UnsupportedKey(Seq<char>),
    WinModifier,
    Reserved,
}

impl View for HotkeyValidationError {
    type V = Fault;

    open spec fn view(&self) -> Fault {
        match *self {
            HotkeyValidationError::KeyCount => Fault::KeyCount,
            HotkeyValidationError::MissingModifier => Fault::MissingModifier,
            HotkeyValidationError::MissingPrimary => Fault::MissingPrimary,
            HotkeyValidationError::MultiplePrimary => Fault::MultiplePrimary,
            HotkeyValidationError::DuplicateKey => Fault::DuplicateKey,
            HotkeyValidationError::UnsupportedKey(key) => Fault::UnsupportedKey(key@),
            HotkeyValidationError::WinModifier => Fault::WinModifier,
            HotkeyValidationError::Reserved => Fault::Reserved,
        }
    }
}

impl Clone for HotkeyValidationError {
    fn clone(&self) -> (r: Self)
        ensures
            r == *self,
    {
        match self {
            HotkeyValidationError::KeyCount => HotkeyValidationError::KeyCount,
            HotkeyValidationError::MissingModifier => HotkeyValidationError::MissingModifier,
            HotkeyValidationError::MissingPrimary => HotkeyValidationError::MissingPrimary,
            HotkeyValidationError::MultiplePrimary => HotkeyValidationError::MultiplePrimary,
            HotkeyValidationError::DuplicateKey => HotkeyValidationError::DuplicateKey,
            HotkeyValidationError::UnsupportedKey(key) => HotkeyValidationError::UnsupportedKey(key.clone()),
            HotkeyValidationError::WinModifier => HotkeyValidationError::WinModifier,
            HotkeyValidationError::Reserved => HotkeyValidationError::Reserved,
        }
    }
}

// ---------------------------------------------------------------------------------------
// Reading a binding

/// A key that is no modifier: its code and its canonical name.
pub struct Primary {
    pub vk: u32,
    pub name: Seq<char>,
}

/// The key with this upper-case name.
pub open spec fn named_key(upper: Seq<char>) -> Option<Primary> {
    if upper == "SPACE"@ {
        Some(Primary { vk: VK_SPACE, name: "Space"@ })
    } else if upper == "ENTER"@ {
        Some(Primary { vk: VK_RETURN, name: "Enter"@ })
    } else if upper == "HOME"@ {
        Some(Primary { vk: VK_HOME, name: "Home"@ })
    } else if upper == "END"@ {
        Some(Primary { vk: VK_END, name: "End"@ })
    } else if upper == "INSERT"@ {
        Some(Primary { vk: VK_INSERT, name: "Insert"@ })
    } else if upper == "DELETE"@ {
        Some(Primary { vk: VK_DELETE, name: "Delete"@ })
    } else if upper == "PAGEUP"@ {
        Some(Primary { vk: VK_PRIOR, name: "PageUp"@ })
    } else if upper == "PAGEDOWN"@ {
        Some(Primary { vk: VK_NEXT, name: "PageDown"@ })
    } else if upper == "UP"@ {
        Some(Primary { vk: VK_UP, name: "Up"@ })
    } else if upper == "DOWN"@ {
        Some(Primary { vk: VK_DOWN, name: "Down"@ })
    } else if upper == "LEFT"@ {
        Some(Primary { vk: VK_LEFT, name: "Left"@ })
    } else if upper == "RIGHT"@ {
        Some(Primary { vk: VK_RIGHT, name: "Right"@ })
    } else {
        None
    }
}

pub open spec fn is_ascii_alphanumeric(c: char) -> bool {
    ('0' <= c <= '9') || ('A' <= c <= 'Z') || ('a' <= c <= 'z')
}

/// The number of a function key with this upper-case name.
pub open spec fn function_key(upper: Seq<char>) -> Option<nat> {
    if upper.len() > 0 && upper[0] == 'F' {
        match unsigned_value(upper.skip(1), u32::MAX as nat) {
            Some(n) => if 1 <= n <= 24 {
                Some(n)
            } else {
                None
            },
            None => None,
        }
    } else {
        None
    }
}

/// The code and the canonical name of the key that a text names: a letter or digit, a
/// function key from F1 to F24, or one of the named keys.
pub open spec fn primary_of(part: Seq<char>) -> Option<Primary> {
    let upper = upper_text(trimmed(part));
    if upper.len() == 1 && is_ascii_alphanumeric(upper[0]) {
        Some(Primary { vk: upper[0] as u32, name: upper })
    } else {
        match function_key(upper) {
            Some(n) => Some(Primary { vk: (VK_F1 + n - 1) as u32, name: "F"@ + decimal(n) }),
            None => named_key(upper),
        }
    }
}

fn alphanumeric(c: char) -> (r: bool)
    ensures
        r == is_ascii_alphanumeric(c),
{
    ('0' <= c && c <= '9') || ('A' <= c && c <= 'Z') || ('a' <= c && c <= 'z')
}

/// The key that a text names.
pub fn primary_key(part: &str) -> (key: Option<(u32, String)>)
    ensures
        match key {
            Some((vk, name)) => primary_of(part@) == Some(Primary { vk, name: name@ }),
            None => primary_of(part@) is None,
        },
{
    let upper = to_ascii_uppercase(trim(part));
    let v = chars_of(upper.as_str());
    if v.len() == 1 {
        let c = v[0];
        if alphanumeric(c) {
            return Some((c as u32, upper));
        }
    }
    if v.len() > 0 && v[0] == 'F' {
        let rest = string_of(v.as_slice(), 1, v.len());
        assert(rest@ == upper@.skip(1));
        if let Some(n) = parse_unsigned(rest.as_str(), u32::MAX as u64) {
            if 1 <= n && n <= 24 {
                let mut name = String::from_str("F");
                push_decimal(&mut name, n);
                return Some((VK_F1 + n as u32 - 1, name));
            }
        }
    }
    assert(function_key(upper@) is None);
    let u = upper.as_str();
    if same_text(u, "SPACE") {
        Some((VK_SPACE, String::from_str("Space")))
    } else if same_text(u, "ENTER") {
        Some((VK_RETURN, String::from_str("Enter")))
    } else if same_text(u, "HOME") {
        Some((VK_HOME, String::from_str("Home")))
    } else if same_text(u, "END") {
        Some((VK_END, String::from_str("End")))
    } else if same_text(u, "INSERT") {
        Some((VK_INSERT, String::from_str("Insert")))
    } else if same_text(u, "DELETE") {
        Some((VK_DELETE, String::from_str("Delete")))
    } else if same_text(u, "PAGEUP") {
        Some((VK_PRIOR, String::from_str("PageUp")))
    } else if same_text(u, "PAGEDOWN") {
        Some((VK_NEXT, String::from_str("PageDown")))
    } else if same_text(u, "UP") {
        Some((VK_UP, String::from_str("Up")))
    } else if same_text(u, "DOWN") {
        Some((VK_DOWN, String::from_str("Down")))
    } else if same_text(u, "LEFT") {
        Some((VK_LEFT, String::from_str("Left")))
    } else if same_text(u, "RIGHT") {
        Some((VK_RIGHT, String::from_str("Right")))
    } else {
        None
    }
}

/// The keys of a binding: what stands between the plus signs, trimmed, without empty pieces.
pub open spec fn key_parts(pieces: Seq<Seq<char>>) -> Seq<Seq<char>>
    decreases pieces.len(),
{
    if pieces.len() == 0 {
        Seq::empty()
    } else {
        let part = trimmed(pieces.last());
        if part.len() == 0 {
            key_parts(pieces.drop_last())
        } else {
            key_parts(pieces.drop_last()).push(part)
        }
    }
}

/// What has been read of a binding.
pub struct Keys {
    pub ctrl: bool,
    pub alt: bool,
    pub shift: bool,
    pub win: bool,
    pub primary: Option<Primary>,
}

pub open spec fn no_keys() -> Keys {
    Keys { ctrl: false, alt: false, shift: false, win: false, primary: None }
}

/// Reads one key, given in lower case.
pub open spec fn read_key(keys: Keys, key: Seq<char>) -> Result<Keys, Fault> {
    if key == "ctrl"@ || key == "control"@ {
        if keys.ctrl {
            Err(Fault::DuplicateKey)
        } else {
            Ok(Keys { ctrl: true, ..keys })
        }
    } else if key == "alt"@ {
        if keys.alt {
            Err(Fault::DuplicateKey)
        } else {
            Ok(Keys { alt: true, ..keys })
        }
    } else if key == "shift"@ {
        if keys.shift {
            Err(Fault::DuplicateKey)
        } else {
            Ok(Keys { shift: true, ..keys })
        }
    } else if key == "win"@ {
        if keys.win {
            Err(Fault::DuplicateKey)
        } else {
            Ok(Keys { win: true, ..keys })
        }
    } else if keys.primary is Some {
        Err(Fault::MultiplePrimary)
    } else {
        match primary_of(key) {
            Some(primary) => Ok(Keys { primary: Some(primary), ..keys }),
            None => Err(Fault::UnsupportedKey(key)),
        }
    }
}

/// Reads the keys from left to right; the first fault decides.
pub open spec fn read_keys(parts: Seq<Seq<char>>) -> Result<Keys, Fault>
    decreases parts.len(),
{
    if parts.len() == 0 {
        Ok(no_keys())
    } else {
        match read_keys(parts.drop_last()) {
            Ok(keys) => read_key(keys, lower_text(trimmed(parts.last()))),
            Err(fault) => Err(fault),
        }
    }
}

pub open spec fn has_modifier(keys: Keys) -> bool {
    keys.ctrl || keys.alt || keys.shift || keys.win
}

/// The keys that a binding names: two or three, at least one modifier and exactly one other
/// key.
pub open spec fn binding_keys(s: Seq<char>) -> Result<Keys, Fault> {
    let parts = key_parts(split_on(s, '+'));
    if !(2 <= parts.len() <= 3) {
        Err(Fault::KeyCount)
    } else {
        match read_keys(parts) {
            Err(fault) => Err(fault),
            Ok(keys) => if !has_modifier(keys) {
                Err(Fault::MissingModifier)
            } else if keys.primary is None {
                Err(Fault::MissingPrimary)
            } else {
                Ok(keys)
            },
        }
    }
}

/// The modifier bits for the system.
pub open spec fn modifier_bits(keys: Keys) -> u32 {
    (MOD_NOREPEAT + (if keys.ctrl {
        MOD_CONTROL as int
    } else {
        0
    }) + (if keys.alt {
        MOD_ALT as int
    } else {
        0
    }) + (if keys.shift {
        MOD_SHIFT as int
    } else {
        0
    }) + (if keys.win {
        MOD_WIN as int
    } else {
        0
    })) as u32
}

pub open spec fn named_if(present: bool, name: Seq<char>) -> Seq<char> {
    if present {
        name
    } else {
        Seq::empty()
    }
}

/// The canonical spelling of a binding: modifiers in a fixed order, then the other key.
pub open spec fn canonical_binding(keys: Keys) -> Seq<char> {
    named_if(keys.ctrl, "Ctrl+"@) + named_if(keys.alt, "Alt+"@) + named_if(keys.shift, "Shift+"@) + named_if(
        keys.win,
        "Win+"@,
    ) + keys.primary->0.name
}

fn trimmed_parts(s: &str) -> (parts: Vec<String>)
    ensures
        texts(parts@) == key_parts(split_on(s@, '+')),
{
    let pieces = split(s, '+');
    let mut parts: Vec<String> = Vec::new();
    let mut i: usize = 0;
    assert(texts(parts@) =~= key_parts(texts(pieces@).take(0)));
    while i < pieces.len()
        invariant
            i <= pieces@.len(),
            texts(parts@) == key_parts(texts(pieces@).take(i as int)),
        decreases pieces@.len() - i,
    {
        assert(texts(pieces@).take(i + 1).drop_last() =~= texts(pieces@).take(i as int));
        let part = trim(pieces[i].as_str());
        let ghost before = texts(parts@);
        if !part.is_empty() {
            parts.push(part.to_owned());
            assert(texts(parts@) =~= before.push(part@));
        }
        i += 1;
    }
    assert(texts(pieces@).take(i as int) =~= texts(pieces@));
    parts
}

/// Reads a binding such as `Ctrl+Alt+Z` into modifier bits, key code and canonical spelling.
pub fn parse_hotkey_checked(s: &str) -> (r: Result<(u32, u32, String), HotkeyValidationError>)
    ensures
        match r {
            Ok((mods, vk, canonical)) => binding_keys(s@) is Ok && mods == modifier_bits(
                binding_keys(s@)->Ok_0,
            ) && vk == binding_keys(s@)->Ok_0.primary->0.vk && canonical@ == canonical_binding(
                binding_keys(s@)->Ok_0,
            ),
            Err(e) => binding_keys(s@) is Err && binding_keys(s@)->Err_0 == e@,
        },
{
    let parts = trimmed_parts(s);
    let ghost all = texts(parts@);
    if parts.len() < 2 || parts.len() > 3 {
        return Err(HotkeyValidationError::KeyCount);
    }
    let mut ctrl = false;
    let mut alt = false;
    let mut shift = false;
    let mut win = false;
    let mut primary: Option<(u32, String)> = None;
    let mut i: usize = 0;
    let ghost mut keys = no_keys();
    assert(all.take(0) =~= Seq::<Seq<char>>::empty());
    while i < parts.len()
        invariant
            all == texts(parts@),
            i <= parts@.len(),
            2 <= parts@.len() <= 3,
            all == key_parts(split_on(s@, '+')),
            read_keys(all.take(i as int)) == Ok::<Keys, Fault>(keys),
            keys.ctrl == ctrl,
            keys.alt == alt,
            keys.shift == shift,
            keys.win == win,
            primary is Some <==> keys.primary is Some,
            primary matches Some((vk, name)) ==> keys.primary == Some(Primary { vk, name: name@ }),
        decreases parts@.len() - i,
    {
        let key = to_ascii_lowercase(trim(parts[i].as_str()));
        assert(all.take(i + 1).drop_last() =~= all.take(i as int));
        assert(all[i as int] == parts@[i as int]@);
        proof {
            lemma_fault_is_final(all, i + 1);
        }
        if same_text(key.as_str(), "ctrl") || same_text(key.as_str(), "control") {
            if ctrl {
                return Err(HotkeyValidationError::DuplicateKey);
            }
            ctrl = true;
            proof {
                keys = Keys { ctrl: true, ..keys };
            }
        } else if same_text(key.as_str(), "alt") {
            if alt {
                return Err(HotkeyValidationError::DuplicateKey);
            }
            alt = true;
            proof {
                keys = Keys { alt: true, ..keys };
            }
        } else if same_text(key.as_str(), "shift") {
            if shift {
                return Err(HotkeyValidationError::DuplicateKey);
            }
            shift = true;
            proof {
                keys = Keys { shift: true, ..keys };
            }
        } else if same_text(key.as_str(), "win") {
            if win {
                return Err(HotkeyValidationError::DuplicateKey);
            }
            win = true;
            proof {
                keys = Keys { win: true, ..keys };
            }
        } else {
            if primary.is_some() {
                return Err(HotkeyValidationError::MultiplePrimary);
            }
            match primary_key(key.as_str()) {
                Some(found) => {
                    proof {
                        keys = Keys { primary: Some(Primary { vk: found.0, name: found.1@ }), ..keys };
                    }
                    primary = Some(found);
                },
                None => return Err(HotkeyValidationError::UnsupportedKey(key)),
            }
        }
        i += 1;
    }
    assert(all.take(i as int) =~= all);
    if !ctrl && !alt && !shift && !win {
        return Err(HotkeyValidationError::MissingModifier);
    }
    let (vk, name) = match primary {
        Some(found) => found,
        None => return Err(HotkeyValidationError::MissingPrimary),
    };
    let mut mods: u32 = MOD_NOREPEAT;
    let mut canonical = String::new();
    if ctrl {
        mods = mods + MOD_CONTROL;
        canonical.append("Ctrl+");
    }
    if alt {
        mods = mods + MOD_ALT;
        canonical.append("Alt+");
    }
    if shift {
        mods = mods + MOD_SHIFT;
        canonical.append("Shift+");
    }
    if win {
        mods = mods + MOD_WIN;
        canonical.append("Win+");
    }
    canonical.append(name.as_str());
    assert(canonical@ =~= canonical_binding(keys));
    Ok((mods, vk, canonical))
}

/// A fault in the first keys is the fault of the whole binding.
proof fn lemma_fault_is_final(parts: Seq<Seq<char>>, n: int)
    requires
        0 <= n <= parts.len(),
    ensures
        read_keys(parts.take(n)) is Err ==> read_keys(parts) == read_keys(parts.take(n)),
    decreases parts.len() - n,
{
    if n < parts.len() {
        lemma_fault_is_final(parts, n + 1);
        assert(parts.take(n + 1).drop_last() =~= parts.take(n));
    } else {
        assert(parts.take(n) =~= parts);
    }
}

/// The modifier bits and the key code of a binding, or `None` if it cannot be read.
pub fn parse_hotkey(s: &str) -> (r: Option<(u32, u32)>)
    ensures
        r == (match binding_keys(s@) {
            Ok(keys) => Some((modifier_bits(keys), keys.primary->0.vk)),
            Err(_) => None,
        }),
{
    match parse_hotkey_checked(s) {
        Ok((mods, vk, _)) => Some((mods, vk)),
        Err(_) => None,
    }
}

/// The bindings that stay with the program or the system.
pub open spec fn is_reserved(canonical: Seq<char>) -> bool {
    ||| canonical == "Ctrl+Alt+Q"@
    ||| canonical == "Ctrl+Alt+P"@
    ||| canonical == "Alt+F4"@
    ||| lower_text(canonical) == lower_text("Ctrl+Alt+Delete"@)
}

/// The binding that a user may choose, in its canonical spelling.
pub open spec fn user_binding(s: Seq<char>) -> Result<Seq<char>, Fault> {
    match binding_keys(s) {
        Err(fault) => Err(fault),
        Ok(keys) => if keys.win {
            Err(Fault::WinModifier)
        } else if is_reserved(canonical_binding(keys)) {
            Err(Fault::Reserved)
        } else {
            Ok(canonical_binding(keys))
        },
    }
}

/// Checks a binding that a user chose and gives its canonical spelling.
pub fn validate_user_hotkey(s: &str) -> (r: Result<String, HotkeyValidationError>)
    ensures
        match r {
            Ok(canonical) => user_binding(s@) == Ok::<Seq<char>, Fault>(canonical@),
            Err(e) => user_binding(s@) == Err::<Seq<char>, Fault>(e@),
        },
{
    let (mods, canonical) = match parse_hotkey_checked(s) {
        Ok((mods, _, canonical)) => (mods, canonical),
        Err(e) => return Err(e),
    };
    if mods >= MOD_NOREPEAT + MOD_WIN {
        return Err(HotkeyValidationError::WinModifier);
    }
    let c = canonical.as_str();
    if same_text(c, "Ctrl+Alt+Q") || same_text(c, "Ctrl+Alt+P") || same_text(c, "Alt+F4") || eq_ignore_ascii_case(
        c,
        "Ctrl+Alt+Delete",
    ) {
        return Err(HotkeyValidationError::Reserved);
    }
    Ok(canonical)
}

/// Whether a binding is free, given whether the system accepted it when it was tried.
pub fn hotkey_is_available(s: &str, system_accepts: bool) -> (r: bool)
    ensures
        r == (binding_keys(s@) is Ok && system_accepts),
{
    parse_hotkey(s).is_some() && system_accepts
}


// ---------------------------------------------------------------------------------------
// Laws of bindings

/// The number of keys that have been read.
pub open spec fn key_count(keys: Keys) -> int {
    (if keys.ctrl {
        1int
    } else {
        0
    }) + (if keys.alt {
        1int
    } else {
        0
    }) + (if keys.shift {
        1int
    } else {
        0
    }) + (if keys.win {
        1int
    } else {
        0
    }) + (if keys.primary is Some {
        1int
    } else {
        0
    })
}

proof fn lemma_each_part_is_a_key(parts: Seq<Seq<char>>)
    ensures
        read_keys(parts) matches Ok(keys) ==> key_count(keys) == parts.len(),
    decreases parts.len(),
{
    if parts.len() > 0 {
        lemma_each_part_is_a_key(parts.drop_last());
    }
}

/// An accepted binding has two or three keys, of which exactly one is no modifier.
pub proof fn accepted_bindings_have_two_or_three_keys(s: Seq<char>)
    ensures
        binding_keys(s) matches Ok(keys) ==> 2 <= key_count(keys) <= 3 && keys.primary is Some && has_modifier(
            keys,
        ),
{
    lemma_each_part_is_a_key(key_parts(split_on(s, '+')));
}

/// A binding that a user may choose has no Windows key and is none of the reserved ones.
pub proof fn user_bindings_are_never_reserved(s: Seq<char>)
    ensures
        user_binding(s) matches Ok(canonical) ==> !is_reserved(canonical) && binding_keys(s) is Ok
            && !binding_keys(s)->Ok_0.win && canonical == canonical_binding(binding_keys(s)->Ok_0),
{
}

/// A name that stands for its key in a canonical spelling.
spec fn is_key_name(p: Primary) -> bool {
    &&& p.name.len() > 0
    &&& trimmed(p.name) == p.name
    &&& !p.name.contains('+')
    &&& primary_of(lower_text(p.name)) == Some(p)
    &&& lower_text(p.name) != "ctrl"@
    &&& lower_text(p.name) != "control"@
    &&& lower_text(p.name) != "alt"@
    &&& lower_text(p.name) != "shift"@
    &&& lower_text(p.name) != "win"@
}

proof fn lemma_no_outer_white_space(s: Seq<char>)
    requires
        s.len() > 0,
        !is_white_space(s[0]),
        !is_white_space(s.last()),
    ensures
        trimmed(s) == s,
{
}

proof fn lemma_lower_keeps_digits(c: char)
    ensures
        '0' <= c <= '9' ==> lower_char(c) == c && upper_char(c) == c,
        upper_char(upper_char(c)) == upper_char(c),
        is_ascii_alphanumeric(upper_char(c)) ==> upper_char(lower_char(upper_char(c))) == upper_char(c)
            && is_ascii_alphanumeric(lower_char(upper_char(c))) && !is_white_space(upper_char(c))
            && !is_white_space(lower_char(upper_char(c))) && upper_char(c) != '+',
{
}

proof fn lemma_single_key_name(c: char)
    requires
        is_ascii_alphanumeric(upper_char(c)),
    ensures
        is_key_name(Primary { vk: upper_char(c) as u32, name: seq![upper_char(c)] }),
{
    reveal_strlit("ctrl");
    reveal_strlit("control");
    reveal_strlit("alt");
    reveal_strlit("shift");
    reveal_strlit("win");
    lemma_lower_keeps_digits(c);
    let u = upper_char(c);
    let name = seq![u];
    lemma_no_outer_white_space(name);
    let low = lower_text(name);
    assert(low =~= seq![lower_char(u)]);
    lemma_no_outer_white_space(low);
    assert(upper_text(low) =~= name);
}

proof fn lemma_function_key_name(n: nat)
    requires
        1 <= n <= 24,
    ensures
        is_key_name(Primary { vk: (VK_F1 + n - 1) as u32, name: "F"@ + decimal(n) }),
{
    reveal_strlit("F");
    reveal_strlit("ctrl");
    reveal_strlit("control");
    reveal_strlit("alt");
    reveal_strlit("shift");
    reveal_strlit("win");
    reveal_with_fuel(decimal, 2);
    decimal_notation_round_trips(n, u32::MAX as nat);
    let d = decimal(n);
    let name = "F"@ + d;
    assert(all_digits(d)) by {
        assert(d[0] != '+');
    }
    assert(name[0] == 'F');
    assert(name.skip(1) =~= d);
    assert forall|i: int| 0 <= i < d.len() implies lower_char(d[i]) == d[i] && upper_char(d[i]) == d[i] && d[i]
        != '+' && !is_white_space(d[i]) by {
        lemma_lower_keeps_digits(d[i]);
    }
    assert(name.last() == d.last());
    lemma_no_outer_white_space(name);
    let low = lower_text(name);
    assert(low =~= seq!['f'] + d);
    assert(low.last() == d.last());
    lemma_no_outer_white_space(low);
    assert(upper_text(low) =~= name);
    assert(!name.contains('+')) by {
        assert forall|i: int| 0 <= i < name.len() implies name[i] != '+' by {
            if i > 0 {
                assert(name[i] == d[i - 1]);
            }
        }
    }
    assert(low[0] == 'f');
}

proof fn lemma_word_key_name(p: Primary, upper: Seq<char>)
    requires
        named_key(upper) == Some(p),
    ensures
        is_key_name(p),
{
    reveal_strlit("ctrl");
    reveal_strlit("control");
    reveal_strlit("alt");
    reveal_strlit("shift");
    reveal_strlit("win");
    reveal_strlit("SPACE");
    reveal_strlit("Space");
    reveal_strlit("ENTER");
    reveal_strlit("Enter");
    reveal_strlit("HOME");
    reveal_strlit("Home");
    reveal_strlit("END");
    reveal_strlit("End");
    reveal_strlit("INSERT");
    reveal_strlit("Insert");
    reveal_strlit("DELETE");
    reveal_strlit("Delete");
    reveal_strlit("PAGEUP");
    reveal_strlit("PageUp");
    reveal_strlit("PAGEDOWN");
    reveal_strlit("PageDown");
    reveal_strlit("UP");
    reveal_strlit("Up");
    reveal_strlit("DOWN");
    reveal_strlit("Down");
    reveal_strlit("LEFT");
    reveal_strlit("Left");
    reveal_strlit("RIGHT");
    reveal_strlit("Right");
    let low = lower_text(p.name);
    lemma_no_outer_white_space(p.name);
    lemma_no_outer_white_space(low);
    assert(upper_text(low) =~= upper);
    assert(low.len() == p.name.len());
    assert(low[0] == lower_char(p.name[0]));
    assert(low[1] == lower_char(p.name[1]));
}

/// The canonical name of a key names that key.
proof fn lemma_primary_names_itself(part: Seq<char>)
    ensures
        primary_of(part) matches Some(p) ==> is_key_name(p),
{
    let upper = upper_text(trimmed(part));
    if upper.len() == 1 && is_ascii_alphanumeric(upper[0]) {
        let c = trimmed(part)[0];
        assert(upper =~= seq![upper_char(c)]);
        lemma_single_key_name(c);
    } else if function_key(upper) is Some {
        lemma_function_key_name(function_key(upper)->0);
    } else if named_key(upper) is Some {
        lemma_word_key_name(named_key(upper)->0, upper);
    }
}

proof fn lemma_read_primary(parts: Seq<Seq<char>>)
    ensures
        read_keys(parts) matches Ok(keys) ==> (keys.primary matches Some(p) ==> is_key_name(p)),
    decreases parts.len(),
{
    if parts.len() > 0 {
        lemma_read_primary(parts.drop_last());
        lemma_primary_names_itself(lower_text(trimmed(parts.last())));
    }
}

proof fn lemma_split_without(s: Seq<char>, sep: char)
    requires
        !s.contains(sep),
    ensures
        split_on(s, sep) == seq![s],
    decreases s.len(),
{
    if s.len() > 0 {
        assert(!s.drop_last().contains(sep)) by {
            if s.drop_last().contains(sep) {
                let k = choose|k: int| 0 <= k < s.drop_last().len() && s.drop_last()[k] == sep;
                assert(s[k] == sep);
            }
        }
        lemma_split_without(s.drop_last(), sep);
        assert(s.contains(s.last()));
        assert(s.drop_last().push(s.last()) =~= s);
        assert(split_on(s, sep) =~= seq![s]);
    } else {
        assert(s =~= Seq::<char>::empty());
    }
}

proof fn lemma_split_front(a: Seq<char>, b: Seq<char>, sep: char)
    requires
        !a.contains(sep),
    ensures
        split_on(a.push(sep) + b, sep) == seq![a] + split_on(b, sep),
    decreases b.len(),
{
    split_on_has_a_piece(b, sep);
    if b.len() == 0 {
        assert(a.push(sep) + b =~= a.push(sep));
        assert(a.push(sep).drop_last() =~= a);
        lemma_split_without(a, sep);
        assert(split_on(a.push(sep), sep) =~= seq![a].push(Seq::<char>::empty()));
        assert(seq![a] + split_on(b, sep) =~= seq![a].push(Seq::<char>::empty()));
    } else {
        lemma_split_front(a, b.drop_last(), sep);
        split_on_has_a_piece(b.drop_last(), sep);
        let whole = a.push(sep) + b;
        assert(whole.drop_last() =~= a.push(sep) + b.drop_last());
        assert(whole.last() == b.last());
        assert(split_on(whole, sep) =~= seq![a] + split_on(b, sep));
    }
}

proof fn lemma_parts_front(first: Seq<char>, rest: Seq<Seq<char>>)
    requires
        first.len() > 0,
        trimmed(first) == first,
    ensures
        key_parts(seq![first] + rest) == seq![first] + key_parts(rest),
    decreases rest.len(),
{
    let all = seq![first] + rest;
    if rest.len() == 0 {
        assert(all.drop_last() =~= Seq::<Seq<char>>::empty());
        assert(all.last() == first);
        assert(key_parts(all) =~= seq![first] + key_parts(rest)) by {
            reveal_with_fuel(key_parts, 2);
        }
    } else {
        lemma_parts_front(first, rest.drop_last());
        assert(all.drop_last() =~= seq![first] + rest.drop_last());
        assert(all.last() == rest.last());
        assert(key_parts(all) =~= seq![first] + key_parts(rest));
    }
}

/// A word, a plus sign and a rest have the word as their first part.
proof fn lemma_word_in_front(word: Seq<char>, prefix: Seq<char>, present: bool, rest: Seq<char>)
    requires
        word.len() > 0,
        !word.contains('+'),
        trimmed(word) == word,
        prefix == word.push('+'),
    ensures
        key_parts(split_on(named_if(present, prefix) + rest, '+')) == (if present {
            seq![word]
        } else {
            Seq::empty()
        }) + key_parts(split_on(rest, '+')),
{
    if present {
        lemma_split_front(word, rest, '+');
        lemma_parts_front(word, split_on(rest, '+'));
    } else {
        assert(named_if(present, prefix) + rest =~= rest);
        assert(Seq::<Seq<char>>::empty() + key_parts(split_on(rest, '+')) =~= key_parts(split_on(rest, '+')));
    }
}

spec fn word_if(present: bool, word: Seq<char>) -> Seq<Seq<char>> {
    if present {
        seq![word]
    } else {
        Seq::empty()
    }
}

proof fn lemma_read_one_more(before: Seq<Seq<char>>, present: bool, word: Seq<char>, keys: Keys)
    requires
        read_keys(before) == Ok::<Keys, Fault>(keys),
        trimmed(word) == word,
    ensures
        read_keys(before + word_if(present, word)) == (if present {
            read_key(keys, lower_text(word))
        } else {
            Ok(keys)
        }),
{
    let after = before + word_if(present, word);
    if present {
        assert(after.drop_last() =~= before);
        assert(after.last() == word);
    } else {
        assert(after =~= before);
    }
}

/// The canonical spelling of an accepted binding is accepted again and names the same keys.
pub proof fn canonical_spelling_reads_back(s: Seq<char>)
    ensures
        binding_keys(s) matches Ok(keys) ==> binding_keys(canonical_binding(keys)) == Ok::<Keys, Fault>(keys),
{
    if binding_keys(s) is Ok {
        let keys = binding_keys(s)->Ok_0;
        let parts = key_parts(split_on(s, '+'));
        lemma_each_part_is_a_key(parts);
        lemma_read_primary(parts);
        let p = keys.primary->0;
        assert(is_key_name(p));
        reveal_strlit("Ctrl");
        reveal_strlit("Alt");
        reveal_strlit("Shift");
        reveal_strlit("Win");
        reveal_strlit("Ctrl+");
        reveal_strlit("Alt+");
        reveal_strlit("Shift+");
        reveal_strlit("Win+");
        reveal_strlit("ctrl");
        reveal_strlit("control");
        reveal_strlit("alt");
        reveal_strlit("shift");
        reveal_strlit("win");
        assert("Ctrl+"@ =~= "Ctrl"@.push('+'));
        assert("Alt+"@ =~= "Alt"@.push('+'));
        assert("Shift+"@ =~= "Shift"@.push('+'));
        assert("Win+"@ =~= "Win"@.push('+'));
        lemma_no_outer_white_space("Ctrl"@);
        lemma_no_outer_white_space("Alt"@);
        lemma_no_outer_white_space("Shift"@);
        lemma_no_outer_white_space("Win"@);
        assert(lower_text("Ctrl"@) =~= "ctrl"@);
        assert(lower_text("Alt"@) =~= "alt"@);
        assert(lower_text("Shift"@) =~= "shift"@);
        assert(lower_text("Win"@) =~= "win"@);
        let s4 = p.name;
        let s3 = named_if(keys.win, "Win+"@) + s4;
        let s2 = named_if(keys.shift, "Shift+"@) + s3;
        let s1 = named_if(keys.alt, "Alt+"@) + s2;
        let s0 = named_if(keys.ctrl, "Ctrl+"@) + s1;
        assert(s0 =~= canonical_binding(keys));
        lemma_split_without(s4, '+');
        assert(key_parts(split_on(s4, '+')) =~= seq![s4]) by {
            reveal_with_fuel(key_parts, 2);
            assert(seq![s4].drop_last() =~= Seq::<Seq<char>>::empty());
        }
        lemma_word_in_front("Win"@, "Win+"@, keys.win, s4);
        lemma_word_in_front("Shift"@, "Shift+"@, keys.shift, s3);
        lemma_word_in_front("Alt"@, "Alt+"@, keys.alt, s2);
        lemma_word_in_front("Ctrl"@, "Ctrl+"@, keys.ctrl, s1);
        let k0 = no_keys();
        let w0 = Seq::<Seq<char>>::empty();
        let w1 = w0 + word_if(keys.ctrl, "Ctrl"@);
        let k1 = Keys { ctrl: keys.ctrl, ..k0 };
        lemma_read_one_more(w0, keys.ctrl, "Ctrl"@, k0);
        let w2 = w1 + word_if(keys.alt, "Alt"@);
        let k2 = Keys { alt: keys.alt, ..k1 };
        assert("alt"@ != "ctrl"@ && "alt"@ != "control"@);
        lemma_read_one_more(w1, keys.alt, "Alt"@, k1);
        let w3 = w2 + word_if(keys.shift, "Shift"@);
        let k3 = Keys { shift: keys.shift, ..k2 };
        assert("shift"@ != "ctrl"@ && "shift"@ != "control"@ && "shift"@ != "alt"@) by {
            assert("shift"@.len() != "control"@.len());
        }
        lemma_read_one_more(w2, keys.shift, "Shift"@, k2);
        let w4 = w3 + word_if(keys.win, "Win"@);
        let k4 = Keys { win: keys.win, ..k3 };
        assert("win"@[0] != "alt"@[0]);
        assert("win"@ != "ctrl"@ && "win"@ != "control"@ && "win"@ != "alt"@ && "win"@ != "shift"@);
        lemma_read_one_more(w3, keys.win, "Win"@, k3);
        let w5 = w4 + word_if(true, p.name);
        lemma_read_one_more(w4, true, p.name, k4);
        assert(w5 =~= key_parts(split_on(s0, '+')));
        assert(read_keys(w5) == Ok::<Keys, Fault>(keys));
        assert(w5.len() == key_count(keys));
    }
}

/// Checking the canonical spelling of a user's binding gives it back unchanged.
pub proof fn user_binding_is_idempotent(s: Seq<char>)
    ensures
        user_binding(s) matches Ok(canonical) ==> user_binding(canonical) == Ok::<Seq<char>, Fault>(canonical),
{
    canonical_spelling_reads_back(s);
}

// ---------------------------------------------------------------------------------------
// What reading a binding is for

/// The flags that the system gets name the modifiers: each has its bit exactly where the modifier
/// is part of the binding, beside the bit against repeats, so that bindings with other modifiers
/// have other flags.
pub proof fn every_modifier_has_its_flag(keys: Keys)
    ensures
        modifier_bits(keys) & 0x1 != 0 <==> keys.alt,
        modifier_bits(keys) & 0x2 != 0 <==> keys.ctrl,
        modifier_bits(keys) & 0x4 != 0 <==> keys.shift,
        modifier_bits(keys) & 0x8 != 0 <==> keys.win,
        modifier_bits(keys) & 0x4000 != 0,
        modifier_bits(keys) <= 0x400f,
{
    let bits = modifier_bits(keys);
    assert((bits & 0x1 != 0) == (bits % 2 == 1) && (bits & 0x2 != 0) == ((bits / 2) % 2 == 1) && (bits & 0x4 != 0) == ((
    bits / 4) % 2 == 1) && (bits & 0x8 != 0) == ((bits / 8) % 2 == 1) && (bits & 0x4000 != 0) == ((bits / 0x4000) % 2
        == 1)) by (bit_vector);
}

/// Bindings with different modifiers have different flags.
pub proof fn flags_tell_the_modifiers_apart(a: Keys, b: Keys)
    requires
        modifier_bits(a) == modifier_bits(b),
    ensures
        a.ctrl == b.ctrl && a.alt == b.alt && a.shift == b.shift && a.win == b.win,
{
    every_modifier_has_its_flag(a);
    every_modifier_has_its_flag(b);
}

/// One of the pieces between the plus signs is the word, whatever the case of its letters and the
/// blanks around it.
pub open spec fn names_key(s: Seq<char>, word: Seq<char>) -> bool {
    exists|i: int| 0 <= i < split_on(s, '+').len() && lower_text(trimmed(#[trigger] split_on(s, '+')[i])) == word
}

/// An accepted binding has a modifier exactly where one of its pieces names it, and its key is
/// that of the piece that names no modifier.
pub proof fn a_binding_has_the_keys_that_it_names(s: Seq<char>)
    requires
        binding_keys(s) is Ok,
    ensures
        binding_keys(s)->Ok_0.ctrl <==> names_key(s, "ctrl"@) || names_key(s, "control"@),
        binding_keys(s)->Ok_0.alt <==> names_key(s, "alt"@),
        binding_keys(s)->Ok_0.shift <==> names_key(s, "shift"@),
        binding_keys(s)->Ok_0.win <==> names_key(s, "win"@),
        exists|i: int|
            0 <= i < split_on(s, '+').len() && binding_keys(s)->Ok_0.primary is Some && primary_of(
                lower_text(trimmed(#[trigger] split_on(s, '+')[i])),
            ) == binding_keys(s)->Ok_0.primary,
{
    let pieces = split_on(s, '+');
    let parts = key_parts(pieces);
    lemma_parts_are_pieces(pieces);
    lemma_words_read(parts);
    reveal_strlit("ctrl");
    reveal_strlit("control");
    reveal_strlit("alt");
    reveal_strlit("shift");
    reveal_strlit("win");
    lemma_named(s, "ctrl"@);
    lemma_named(s, "control"@);
    lemma_named(s, "alt"@);
    lemma_named(s, "shift"@);
    lemma_named(s, "win"@);
    let k = choose|k: int|
        0 <= k < parts.len() && primary_of(lower_text(trimmed(#[trigger] parts[k]))) == binding_keys(s)->Ok_0.primary;
    let i = choose|i: int| 0 <= i < pieces.len() && trimmed(#[trigger] pieces[i]) == parts[k];
    lemma_trimmed_once(pieces[i]);
}

proof fn lemma_trimmed_once(s: Seq<char>)
    ensures
        trimmed(trimmed(s)) == trimmed(s),
{
    crate::text::trimming_is_idempotent(s);
}

/// One of the parts is the word.
spec fn has_word(parts: Seq<Seq<char>>, word: Seq<char>) -> bool {
    exists|k: int| 0 <= k < parts.len() && lower_text(trimmed(#[trigger] parts[k])) == word
}

proof fn lemma_named(s: Seq<char>, word: Seq<char>)
    requires
        word.len() > 0,
    ensures
        names_key(s, word) <==> has_word(key_parts(split_on(s, '+')), word),
{
    let pieces = split_on(s, '+');
    let parts = key_parts(pieces);
    lemma_parts_are_pieces(pieces);
    if names_key(s, word) {
        let i = choose|i: int| 0 <= i < pieces.len() && lower_text(trimmed(#[trigger] pieces[i])) == word;
        assert(trimmed(pieces[i]).len() > 0);
        let k = choose|k: int| 0 <= k < parts.len() && #[trigger] parts[k] == trimmed(pieces[i]);
        lemma_trimmed_once(pieces[i]);
        assert(lower_text(trimmed(parts[k])) == word);
    }
    if has_word(parts, word) {
        let k = choose|k: int| 0 <= k < parts.len() && lower_text(trimmed(#[trigger] parts[k])) == word;
        let i = choose|i: int| 0 <= i < pieces.len() && trimmed(#[trigger] pieces[i]) == parts[k];
        lemma_trimmed_once(pieces[i]);
        assert(lower_text(trimmed(pieces[i])) == word);
    }
}

proof fn lemma_parts_are_pieces(pieces: Seq<Seq<char>>)
    ensures
        forall|k: int|
            0 <= k < key_parts(pieces).len() ==> exists|i: int|
                0 <= i < pieces.len() && trimmed(#[trigger] pieces[i]) == #[trigger] key_parts(pieces)[k],
        forall|i: int|
            0 <= i < pieces.len() && trimmed(#[trigger] pieces[i]).len() > 0 ==> exists|k: int|
                0 <= k < key_parts(pieces).len() && #[trigger] key_parts(pieces)[k] == trimmed(pieces[i]),
    decreases pieces.len(),
{
    if pieces.len() > 0 {
        let rest = pieces.drop_last();
        lemma_parts_are_pieces(rest);
        let before = key_parts(rest);
        let parts = key_parts(pieces);
        let last = pieces.len() - 1;
        assert forall|k: int| 0 <= k < parts.len() implies exists|i: int|
            0 <= i < pieces.len() && trimmed(#[trigger] pieces[i]) == #[trigger] parts[k] by {
            if k < before.len() {
                assert(parts[k] == before[k]);
                let i = choose|i: int| 0 <= i < rest.len() && trimmed(#[trigger] rest[i]) == before[k];
                assert(pieces[i] == rest[i]);
            } else {
                assert(trimmed(pieces[last]) == parts[k]);
            }
        }
        assert forall|i: int| 0 <= i < pieces.len() && trimmed(#[trigger] pieces[i]).len() > 0 implies exists|k: int|
            0 <= k < parts.len() && #[trigger] parts[k] == trimmed(pieces[i]) by {
            if i < last {
                assert(rest[i] == pieces[i]);
                let k = choose|k: int| 0 <= k < before.len() && #[trigger] before[k] == trimmed(rest[i]);
                assert(parts[k] == before[k]);
            } else {
                assert(parts[parts.len() - 1] == trimmed(pieces[i]));
            }
        }
    }
}

proof fn lemma_words_read(parts: Seq<Seq<char>>)
    ensures
        read_keys(parts) matches Ok(keys) ==> {
            &&& keys.ctrl <==> has_word(parts, "ctrl"@) || has_word(parts, "control"@)
            &&& keys.alt <==> has_word(parts, "alt"@)
            &&& keys.shift <==> has_word(parts, "shift"@)
            &&& keys.win <==> has_word(parts, "win"@)
            &&& keys.primary is Some ==> exists|k: int|
                0 <= k < parts.len() && primary_of(lower_text(trimmed(#[trigger] parts[k]))) == keys.primary
        },
    decreases parts.len(),
{
    reveal_strlit("ctrl");
    reveal_strlit("control");
    reveal_strlit("alt");
    reveal_strlit("shift");
    reveal_strlit("win");
    if parts.len() > 0 && read_keys(parts) is Ok {
        let rest = parts.drop_last();
        lemma_words_read(rest);
        let key = lower_text(trimmed(parts.last()));
        lemma_word_behind(parts, "ctrl"@);
        lemma_word_behind(parts, "control"@);
        lemma_word_behind(parts, "alt"@);
        lemma_word_behind(parts, "shift"@);
        lemma_word_behind(parts, "win"@);
        let before = read_keys(rest)->Ok_0;
        let keys = read_keys(parts)->Ok_0;
        assert("ctrl"@[0] == 'c' && "control"@[0] == 'c' && "alt"@[0] == 'a' && "shift"@[0] == 's' && "win"@[0]
            == 'w');
        if keys.primary is Some {
            if before.primary is Some {
                let k = choose|k: int|
                    0 <= k < rest.len() && primary_of(lower_text(trimmed(#[trigger] rest[k]))) == before.primary;
                assert(parts[k] == rest[k]);
            } else {
                assert(parts[parts.len() - 1] == parts.last());
                assert(primary_of(key) == keys.primary);
            }
        }
    }
}

proof fn lemma_word_behind(parts: Seq<Seq<char>>, word: Seq<char>)
    requires
        parts.len() > 0,
    ensures
        has_word(parts, word) <==> has_word(parts.drop_last(), word) || lower_text(trimmed(parts.last())) == word,
{
    let rest = parts.drop_last();
    if has_word(rest, word) {
        let k = choose|k: int| 0 <= k < rest.len() && lower_text(trimmed(#[trigger] rest[k])) == word;
        assert(parts[k] == rest[k]);
    }
    assert(parts[parts.len() - 1] == parts.last());
    if has_word(parts, word) {
        let k = choose|k: int| 0 <= k < parts.len() && lower_text(trimmed(#[trigger] parts[k])) == word;
        if k < rest.len() {
            assert(rest[k] == parts[k]);
        }
    }
}

/// A letter or digit is its own key: the code is that of the capital letter or the digit, however
/// it is written.
pub proof fn letters_and_digits_are_keys(c: char)
    ensures
        'A' <= c <= 'Z' ==> (primary_of(seq![c]) matches Some(p) && p.vk == c as u32 && p.name == seq![c]),
        'a' <= c <= 'z' ==> (primary_of(seq![c]) matches Some(p) && p.vk == c as u32 - 32 && p.name.len() == 1
            && p.name[0] as u32 == c as u32 - 32),
        '0' <= c <= '9' ==> (primary_of(seq![c]) matches Some(p) && p.vk == c as u32 && p.name == seq![c]),
{
    let s = seq![c];
    if ('A' <= c <= 'Z') || ('a' <= c <= 'z') || ('0' <= c <= '9') {
        lemma_no_outer_white_space(s);
        assert(upper_text(s) =~= seq![upper_char(c)]);
    }
}

/// A function key is named by its number, from one to twenty-four, and its codes follow one
/// another.
pub proof fn function_keys_are_numbered(n: nat)
    requires
        n <= u32::MAX,
    ensures
        1 <= n <= 24 ==> (primary_of("F"@ + decimal(n)) matches Some(p) && p.vk == 0x6f + n && p.name == "F"@
            + decimal(n)),
        !(1 <= n <= 24) ==> primary_of("F"@ + decimal(n)) is None,
{
    reveal_strlit("F");
    reveal_strlit("SPACE");
    reveal_strlit("ENTER");
    reveal_strlit("HOME");
    reveal_strlit("END");
    reveal_strlit("INSERT");
    reveal_strlit("DELETE");
    reveal_strlit("PAGEUP");
    reveal_strlit("PAGEDOWN");
    reveal_strlit("UP");
    reveal_strlit("DOWN");
    reveal_strlit("LEFT");
    reveal_strlit("RIGHT");
    decimal_notation_round_trips(n, u32::MAX as nat);
    let d = decimal(n);
    let name = "F"@ + d;
    assert(all_digits(d)) by {
        assert(d[0] != '+') by {
            lemma_decimal_starts_with_a_digit(n);
        }
    }
    assert(d.len() > 0);
    assert forall|i: int| 0 <= i < d.len() implies upper_char(d[i]) == d[i] && !is_white_space(d[i]) by {
        lemma_lower_keeps_digits(d[i]);
    }
    assert(name.last() == d.last());
    assert(name[0] == 'F');
    lemma_no_outer_white_space(name);
    assert(upper_text(name) =~= name);
    assert(name.skip(1) =~= d);
    assert(name.len() >= 2);
}

proof fn lemma_decimal_starts_with_a_digit(n: nat)
    ensures
        decimal(n).len() > 0,
        '0' <= decimal(n)[0] <= '9',
    decreases n,
{
    if n >= 10 {
        lemma_decimal_starts_with_a_digit(n / 10);
    }
}

/// The keys with a name of their own, and the codes that the system knows them by.
pub proof fn named_keys_have_their_codes()
    ensures
        named_key("SPACE"@) matches Some(p) && p.vk == 0x20 && p.name == "Space"@,
        named_key("ENTER"@) matches Some(p) && p.vk == 0x0d && p.name == "Enter"@,
        named_key("HOME"@) matches Some(p) && p.vk == 0x24 && p.name == "Home"@,
        named_key("END"@) matches Some(p) && p.vk == 0x23 && p.name == "End"@,
        named_key("INSERT"@) matches Some(p) && p.vk == 0x2d && p.name == "Insert"@,
        named_key("DELETE"@) matches Some(p) && p.vk == 0x2e && p.name == "Delete"@,
        named_key("PAGEUP"@) matches Some(p) && p.vk == 0x21 && p.name == "PageUp"@,
        named_key("PAGEDOWN"@) matches Some(p) && p.vk == 0x22 && p.name == "PageDown"@,
        named_key("UP"@) matches Some(p) && p.vk == 0x26 && p.name == "Up"@,
        named_key("DOWN"@) matches Some(p) && p.vk == 0x28 && p.name == "Down"@,
        named_key("LEFT"@) matches Some(p) && p.vk == 0x25 && p.name == "Left"@,
        named_key("RIGHT"@) matches Some(p) && p.vk == 0x27 && p.name == "Right"@,
{
    reveal_strlit("SPACE");
    reveal_strlit("ENTER");
    reveal_strlit("HOME");
    reveal_strlit("END");
    reveal_strlit("INSERT");
    reveal_strlit("DELETE");
    reveal_strlit("PAGEUP");
    reveal_strlit("PAGEDOWN");
    reveal_strlit("UP");
    reveal_strlit("DOWN");
    reveal_strlit("LEFT");
    reveal_strlit("RIGHT");
    assert("SPACE"@[0] == 'S' && "ENTER"@[1] == 'N' && "ENTER"@[2] == 'T' && "HOME"@[0] == 'H' && "END"@[0] == 'E');
    assert("INSERT"@[0] == 'I' && "DELETE"@[0] == 'D' && "PAGEUP"@[0] == 'P' && "PAGEDOWN"@[0] == 'P');
    assert("UP"@[0] == 'U' && "DOWN"@[0] == 'D' && "LEFT"@[0] == 'L' && "RIGHT"@[0] == 'R');
    assert("PAGEUP"@.len() == 6 && "PAGEDOWN"@.len() == 8);
    assert("DELETE"@.len() == 6 && "DOWN"@.len() == 4);
    assert("HOME"@.len() == 4);
}

/// The two bindings of the program itself and the two of the system are refused to the user,
/// however they are spelled, and so is every binding with the Windows key; any other that is
/// accepted at all is accepted from the user, under its canonical name.
pub proof fn reserved_bindings_are_refused(s: Seq<char>)
    requires
        binding_keys(s) is Ok,
    ensures
        ({
            let keys = binding_keys(s)->Ok_0;
            let name = keys.primary->0.name;
            let ctrl_alt = keys.ctrl && keys.alt && !keys.shift && !keys.win;
            &&& keys.win ==> user_binding(s) == Err::<Seq<char>, Fault>(Fault::WinModifier)
            &&& ctrl_alt && (name == "Q"@ || name == "P"@ || name == "Delete"@) ==> user_binding(s) == Err::<
                Seq<char>,
                Fault,
            >(Fault::Reserved)
            &&& keys.alt && !keys.ctrl && !keys.shift && !keys.win && name == "F4"@ ==> user_binding(s) == Err::<
                Seq<char>,
                Fault,
            >(Fault::Reserved)
            &&& user_binding(s) is Err ==> keys.win || (keys.alt && !keys.shift)
        }),
{
    reveal_strlit("Ctrl+");
    reveal_strlit("Alt+");
    reveal_strlit("Shift+");
    reveal_strlit("Win+");
    reveal_strlit("Q");
    reveal_strlit("P");
    reveal_strlit("F4");
    reveal_strlit("Delete");
    reveal_strlit("Ctrl+Alt+Q");
    reveal_strlit("Ctrl+Alt+P");
    reveal_strlit("Alt+F4");
    reveal_strlit("Ctrl+Alt+Delete");
    let keys = binding_keys(s)->Ok_0;
    let name = keys.primary->0.name;
    let canonical = canonical_binding(keys);
    lemma_each_part_is_a_key(key_parts(split_on(s, '+')));
    lemma_read_primary(key_parts(split_on(s, '+')));
    assert(is_key_name(keys.primary->0));
    if !keys.win && keys.ctrl && keys.alt && !keys.shift {
        assert(canonical =~= "Ctrl+"@ + "Alt+"@ + name);
        if name == "Q"@ {
            assert(canonical =~= "Ctrl+Alt+Q"@);
        }
        if name == "P"@ {
            assert(canonical =~= "Ctrl+Alt+P"@);
        }
        if name == "Delete"@ {
            assert(canonical =~= "Ctrl+Alt+Delete"@);
        }
    }
    if !keys.win && keys.alt && !keys.ctrl && !keys.shift {
        assert(canonical =~= "Alt+"@ + name);
        if name == "F4"@ {
            assert(canonical =~= "Alt+F4"@);
        }
    }
    if !keys.win && is_reserved(canonical) {
        lemma_reserved_shape(keys);
    }
}

proof fn lemma_reserved_shape(keys: Keys)
    requires
        keys.primary is Some,
        is_key_name(keys.primary->0),
        has_modifier(keys),
        !keys.win,
        is_reserved(canonical_binding(keys)),
    ensures
        keys.alt && !keys.shift,
{
    reveal_strlit("Ctrl+");
    reveal_strlit("Alt+");
    reveal_strlit("Shift+");
    reveal_strlit("Ctrl+Alt+Q");
    reveal_strlit("Ctrl+Alt+P");
    reveal_strlit("Alt+F4");
    reveal_strlit("Ctrl+Alt+Delete");
    let name = keys.primary->0.name;
    let canonical = canonical_binding(keys);
    let low = lower_text(canonical);
    let wanted = lower_text("Ctrl+Alt+Delete"@);
    assert(wanted[0] == 'c' && wanted[5] == 'a' && wanted[8] == '+' && wanted[9] == 'd');
    assert("Ctrl+Alt+Q"@[8] == '+' && "Ctrl+Alt+P"@[8] == '+');
    assert("Alt+F4"@[0] == 'A' && "Alt+F4"@[4] == 'F');
    assert("Ctrl+Alt+Delete"@.len() == 15);
    assert(wanted.len() == 15);
    assert(low.len() == canonical.len());
    if keys.shift {
        if keys.ctrl && keys.alt {
            assert(canonical =~= "Ctrl+"@ + "Alt+"@ + "Shift+"@ + name);
            assert(canonical[0] == 'C' && canonical[9] == 'S');
            assert(low[9] == 's');
            assert(canonical.len() > 10);
            assert(false);
        } else if keys.ctrl {
            assert(canonical =~= "Ctrl+"@ + "Shift+"@ + name);
            assert(canonical[0] == 'C' && canonical[5] == 'S');
            assert(low[5] == 's');
            assert("Ctrl+Alt+Q"@[5] == 'A' && "Ctrl+Alt+P"@[5] == 'A');
            assert(false);
        } else if keys.alt {
            assert(canonical =~= "Alt+"@ + "Shift+"@ + name);
            assert(canonical[0] == 'A' && canonical[4] == 'S');
            assert(low[0] == 'a');
            assert("Ctrl+Alt+Q"@[0] == 'C' && "Ctrl+Alt+P"@[0] == 'C');
            assert(false);
        } else {
            assert(canonical =~= "Shift+"@ + name);
            assert(canonical[0] == 'S');
            assert(low[0] == 's');
            assert("Ctrl+Alt+Q"@[0] == 'C' && "Ctrl+Alt+P"@[0] == 'C');
            assert(false);
        }
    } else if !keys.alt {
        assert(canonical =~= "Ctrl+"@ + name);
        assert(canonical[0] == 'C');
        assert(canonical.len() > 8);
        assert(name[3] == canonical[8]);
        assert(low[8] == lower_char(canonical[8]));
        assert(name.contains(name[3]));
        assert(false);
    }
}

/// A binding of any other number of keys than two or three is refused for that, and one of that
/// number never.
pub proof fn the_number_of_keys_is_looked_at_first(s: Seq<char>)
    ensures
        key_parts(split_on(s, '+')).len() < 2 || key_parts(split_on(s, '+')).len() > 3 <==> binding_keys(s) == Err::<
            Keys,
            Fault,
        >(Fault::KeyCount),
{
    lemma_no_part_counts(key_parts(split_on(s, '+')));
}

proof fn lemma_no_part_counts(parts: Seq<Seq<char>>)
    ensures
        read_keys(parts) != Err::<Keys, Fault>(Fault::KeyCount),
    decreases parts.len(),
{
    if parts.len() > 0 {
        lemma_no_part_counts(parts.drop_last());
    }
}

/// A binding is read key by key, and the first fault is the one that is told: a key that is there
/// already, a second key that is no modifier, and one that is not known.
pub proof fn the_first_fault_is_told(parts: Seq<Seq<char>>, part: Seq<char>)
    ensures
        ({
            let word = lower_text(trimmed(part));
            let after = read_keys(parts.push(part));
            &&& read_keys(parts) matches Err(fault) ==> after == Err::<Keys, Fault>(fault)
            &&& read_keys(parts) matches Ok(keys) ==> {
                let modifier = word == "ctrl"@ || word == "control"@ || word == "alt"@ || word == "shift"@ || word == "win"@;
                &&& (word == "ctrl"@ || word == "control"@) && keys.ctrl ==> after == Err::<Keys, Fault>(
                    Fault::DuplicateKey,
                )
                &&& word == "alt"@ && keys.alt ==> after == Err::<Keys, Fault>(Fault::DuplicateKey)
                &&& word == "shift"@ && keys.shift ==> after == Err::<Keys, Fault>(Fault::DuplicateKey)
                &&& word == "win"@ && keys.win ==> after == Err::<Keys, Fault>(Fault::DuplicateKey)
                &&& !modifier && keys.primary is Some ==> after == Err::<Keys, Fault>(Fault::MultiplePrimary)
                &&& !modifier && keys.primary is None && primary_of(word) is None ==> after == Err::<Keys, Fault>(
                    Fault::UnsupportedKey(word),
                )
                &&& !modifier && keys.primary is None && primary_of(word) is Some ==> after == Ok::<Keys, Fault>(
                    Keys { primary: primary_of(word), ..keys },
                )
            }
        }),
{
    reveal_strlit("ctrl");
    reveal_strlit("control");
    reveal_strlit("alt");
    reveal_strlit("shift");
    reveal_strlit("win");
    assert(parts.push(part).drop_last() =~= parts);
    assert("ctrl"@[0] == 'c' && "control"@[0] == 'c' && "alt"@[0] == 'a' && "shift"@[0] == 's' && "win"@[0] == 'w');
}

/// Keys that can be read make a binding where there is a modifier among them and a key that is none.
pub proof fn a_binding_needs_a_modifier_and_a_key(s: Seq<char>)
    ensures
        ({
            let parts = key_parts(split_on(s, '+'));
            2 <= parts.len() <= 3 ==> match read_keys(parts) {
                Err(fault) => binding_keys(s) == Err::<Keys, Fault>(fault),
                Ok(keys) => {
                    let modifier = keys.ctrl || keys.alt || keys.shift || keys.win;
                    &&& !modifier ==> binding_keys(s) == Err::<Keys, Fault>(Fault::MissingModifier)
                    &&& modifier && keys.primary is None ==> binding_keys(s) == Err::<Keys, Fault>(Fault::MissingPrimary)
                    &&& modifier && keys.primary is Some ==> binding_keys(s) == Ok::<Keys, Fault>(keys)
                },
            }
        }),
{
}

} // verus!
