//! Editing the hotkey that starts and stops: reading the pressed keys, checking the binding,
//! and taking it into use.
use vstd::prelude::*;
use crate::hotkeys::{HK_GUI_TOPMOST, HK_PANEL, HK_QUIT, HK_TOGGLE, HotkeyValidationError, user_binding, validate_user_hotkey};
use crate::language::phrase_fits;
use crate::language::{Phrase, hotkey_error_phrase};
use crate::text::{same_text, split, split_on, texts};

verus! {

// ---------------------------------------------------------------------------------------
// Reading keys

/// A key as the window system tells it.
#[derive(Debug)]
pub enum KeyName {
    ArrowUp,
    ArrowDown,
    ArrowLeft,
    ArrowRight,
    Escape,
    Named(String),
}

/// A press or release of a key, with the modifiers that are held.
#[derive(Debug)]
pub struct KeyEvent {
    pub key: KeyName,
    /// The number by which the key is found again.
    pub code: u32,
    pub pressed: bool,
    pub repeat: bool,
    pub ctrl: bool,
    pub alt: bool,
    pub shift: bool,
}

pub open spec fn key_text(key: KeyName) -> Seq<char> {
    match key {
        KeyName::ArrowUp => "Up"@,
        KeyName::ArrowDown => "Down"@,
        KeyName::ArrowLeft => "Left"@,
        KeyName::ArrowRight => "Right"@,
        KeyName::Escape => "Escape"@,
        KeyName::Named(name) => name@,
    }
}

/// The name of a key in a binding.
pub fn egui_hotkey_name(key: &KeyName) -> (name: String)
    ensures
        name@ == key_text(*key),
{
    match key {
        KeyName::ArrowUp => String::from_str("Up"),
        KeyName::ArrowDown => String::from_str("Down"),
        KeyName::ArrowLeft => String::from_str("Left"),
        KeyName::ArrowRight => String::from_str("Right"),
        KeyName::Escape => String::from_str("Escape"),
        KeyName::Named(name) => name.clone(),
    }
}

pub open spec fn modifier_text(ctrl: bool, alt: bool, shift: bool) -> Seq<Seq<char>> {
    (if ctrl {
        seq!["Ctrl"@]
    } else {
        seq![]
    }) + (if alt {
        seq!["Alt"@]
    } else {
        seq![]
    }) + (if shift {
        seq!["Shift"@]
    } else {
        seq![]
    })
}

/// The parts with a plus sign between them.
pub open spec fn joined(parts: Seq<Seq<char>>) -> Seq<char>
    decreases parts.len(),
{
    if parts.len() == 0 {
        Seq::empty()
    } else if parts.len() == 1 {
        parts[0]
    } else {
        joined(parts.drop_last()) + "+"@ + parts.last()
    }
}

fn join(parts: &Vec<String>) -> (text: String)
    ensures
        text@ == joined(texts(parts@)),
{
    let mut text = String::new();
    let mut i: usize = 0;
    proof {
        assert(texts(parts@).take(0) =~= Seq::empty());
    }
    while i < parts.len()
        invariant
            i <= parts@.len(),
            text@ == joined(texts(parts@).take(i as int)),
        decreases parts@.len() - i,
    {
        let ghost before = texts(parts@).take(i as int);
        proof {
            assert(texts(parts@).take(i + 1).drop_last() =~= before);
            assert(texts(parts@).take(i + 1).last() == parts@[i as int]@);
        }
        if i > 0 {
            text.append("+");
        }
        text.append(parts[i].as_str());
        proof {
            if i == 0 {
                assert(text@ =~= parts@[0]@);
            }
        }
        i += 1;
    }
    proof {
        assert(texts(parts@).take(parts@.len() as int) =~= texts(parts@));
    }
    text
}

fn modifiers(ctrl: bool, alt: bool, shift: bool) -> (parts: Vec<String>)
    ensures
        texts(parts@) == modifier_text(ctrl, alt, shift),
{
    let mut parts: Vec<String> = Vec::new();
    if ctrl {
        parts.push(String::from_str("Ctrl"));
    }
    if alt {
        parts.push(String::from_str("Alt"));
    }
    if shift {
        parts.push(String::from_str("Shift"));
    }
    proof {
        assert(texts(parts@) =~= modifier_text(ctrl, alt, shift));
    }
    parts
}

/// The modifiers that are held, as the editor shows them.
pub fn held_hotkey_modifiers(ctrl: bool, alt: bool, shift: bool) -> (text: String)
    ensures
        text@ == joined(modifier_text(ctrl, alt, shift)),
{
    join(&modifiers(ctrl, alt, shift))
}

/// The event asks for a binding: a fresh press of any key but the one that closes the editor.
pub open spec fn is_candidate(event: KeyEvent) -> bool {
    event.pressed && !event.repeat && !(event.key is Escape)
}

pub open spec fn candidate_text(event: KeyEvent) -> Seq<char> {
    joined(modifier_text(event.ctrl, event.alt, event.shift).push(key_text(event.key)))
}

/// The last event that asks for a binding.
pub open spec fn candidate_index(events: Seq<KeyEvent>) -> Option<int>
    decreases events.len(),
{
    if events.len() == 0 {
        None
    } else if is_candidate(events.last()) {
        Some(events.len() - 1)
    } else {
        candidate_index(events.drop_last())
    }
}

/// A binding that was pressed.
#[derive(Debug)]
pub struct PendingHotkey {
    pub text: String,
    pub code: u32,
}

fn text_of(event: &KeyEvent) -> (text: String)
    ensures
        text@ == candidate_text(*event),
{
    let mut parts = modifiers(event.ctrl, event.alt, event.shift);
    let ghost held = texts(parts@);
    parts.push(egui_hotkey_name(&event.key));
    proof {
        assert(texts(parts@) =~= held.push(key_text(event.key)));
    }
    join(&parts)
}

/// The binding that the newest of the events asks for.
pub fn capture_hotkey_candidate(events: &[KeyEvent]) -> (r: Option<PendingHotkey>)
    ensures
        match (r, candidate_index(events@)) {
            (Some(p), Some(i)) => 0 <= i < events@.len() && p.text@ == candidate_text(events@[i]) && p.code
                == events@[i].code,
            (None, None) => true,
            _ => false,
        },
{
    let mut i: usize = events.len();
    proof {
        assert(events@.take(events@.len() as int) =~= events@);
    }
    while i > 0
        invariant
            i <= events@.len(),
            candidate_index(events@) == candidate_index(events@.take(i as int)),
        decreases i,
    {
        let event = &events[i - 1];
        proof {
            assert(events@.take(i as int).last() == events@[i - 1]);
            assert(events@.take(i as int).drop_last() =~= events@.take(i - 1));
        }
        let escape = match event.key {
            KeyName::Escape => true,
            _ => false,
        };
        if event.pressed && !event.repeat && !escape {
            return Some(PendingHotkey { text: text_of(event), code: event.code });
        }
        i -= 1;
    }
    None
}

pub open spec fn nonempty(pieces: Seq<Seq<char>>) -> Seq<Seq<char>>
    decreases pieces.len(),
{
    if pieces.len() == 0 {
        pieces
    } else if pieces.last().len() == 0 {
        nonempty(pieces.drop_last())
    } else {
        nonempty(pieces.drop_last()).push(pieces.last())
    }
}

/// The keys of a binding, one by one.
pub fn hotkey_chips(hotkey: &str) -> (chips: Vec<String>)
    ensures
        texts(chips@) == nonempty(split_on(hotkey@, '+')),
{
    let pieces = split(hotkey, '+');
    let mut chips: Vec<String> = Vec::new();
    let mut i: usize = 0;
    proof {
        assert(texts(pieces@).take(0) =~= Seq::empty());
        assert(texts(chips@) =~= Seq::empty());
    }
    while i < pieces.len()
        invariant
            i <= pieces@.len(),
            texts(chips@) == nonempty(texts(pieces@).take(i as int)),
        decreases pieces@.len() - i,
    {
        let ghost before = texts(chips@);
        proof {
            assert(texts(pieces@).take(i + 1).drop_last() =~= texts(pieces@).take(i as int));
            assert(texts(pieces@).take(i + 1).last() == pieces@[i as int]@);
        }
        if !pieces[i].as_str().is_empty() {
            chips.push(pieces[i].clone());
            proof {
                assert(texts(chips@) =~= before.push(pieces@[i as int]@));
            }
        }
        i += 1;
    }
    proof {
        assert(texts(pieces@).take(pieces@.len() as int) =~= texts(pieces@));
    }
    chips
}

// ---------------------------------------------------------------------------------------
// The editor

/// Why a binding is not taken.
#[derive(Debug)]
pub enum EditorError {
    Invalid(HotkeyValidationError),
    /// The system or another program has it.
    InUse,
    /// It was taken by somebody else in the last moment; the old one is back.
    LostInRegistration,
}

/// What the editor says of a binding that is not taken.
pub fn editor_error_phrase(error: &EditorError) -> (phrase: Phrase)
    ensures
        match error {
            EditorError::Invalid(e) => phrase_fits(phrase, *e),
            EditorError::InUse => phrase.ja@ == "この組み合わせはWindowsまたは別のアプリで使用されています。"@ && phrase.en@
                == "This shortcut is already used by Windows or another application."@,
            EditorError::LostInRegistration => phrase.ja@ == "登録中に競合が発生しました。以前のショートカットへ戻しました。"@
                && phrase.en@
                == "The shortcut became unavailable during registration. The previous shortcut was restored."@,
        },
{
    match error {
        EditorError::Invalid(e) => hotkey_error_phrase(e),
        EditorError::InUse => Phrase {
            ja: "この組み合わせはWindowsまたは別のアプリで使用されています。",
            en: "This shortcut is already used by Windows or another application.",
        },
        EditorError::LostInRegistration => Phrase {
            ja: "登録中に競合が発生しました。以前のショートカットへ戻しました。",
            en: "The shortcut became unavailable during registration. The previous shortcut was restored.",
        },
    }
}

/// The editor.
pub struct HotkeyEditor {
    pub open: bool,
    pub candidate: String,
    pub error: Option<EditorError>,
    pub pending: Option<PendingHotkey>,
}

/// The editor after keys were pressed.
pub open spec fn after_keys(editor: HotkeyEditor, captured: Option<PendingHotkey>) -> HotkeyEditor {
    match captured {
        Some(p) => HotkeyEditor { pending: Some(p), error: None, ..editor },
        None => editor,
    }
}

pub open spec fn displayed(editor: HotkeyEditor, captured_now: bool, held: Seq<char>) -> Seq<char> {
    match editor.pending {
        Some(p) => p.text@,
        None => if !captured_now && held.len() > 0 {
            held
        } else {
            editor.candidate@
        },
    }
}

/// The editor after the save button.
pub open spec fn after_save(editor: HotkeyEditor, outcome: Result<Option<String>, EditorError>) -> HotkeyEditor {
    match outcome {
        Ok(Some(taken)) => HotkeyEditor { open: false, candidate: taken, error: None, pending: None },
        Ok(None) => HotkeyEditor { open: false, error: None, pending: None, ..editor },
        Err(error) => HotkeyEditor { error: Some(error), ..editor },
    }
}

impl HotkeyEditor {
    /// Opens with the binding in use.
    pub fn open(&mut self, current: &str)
        ensures
            final(self).open,
            final(self).candidate@ == current@,
            final(self).error is None,
            final(self).pending is None,
    {
        self.candidate = current.to_owned();
        self.error = None;
        self.pending = None;
        self.open = true;
    }

    /// Keys were pressed: the newest binding replaces what was pressed before.
    pub fn pressed(&mut self, captured: Option<PendingHotkey>)
        ensures
            *final(self) == after_keys(*old(self), captured),
    {
        if let Some(p) = captured {
            self.pending = Some(p);
            self.error = None;
        }
    }

    /// Once all keys are up, the pressed one and the modifiers, what was pressed is checked, and
    /// becomes the candidate where it is one.
    pub fn released(&mut self, key_down: bool, modifiers_held: bool)
        ensures
            match old(self).pending {
                Some(p) if !key_down && !modifiers_held => final(self).pending is None && final(self).open == old(
                    self,
                ).open && match user_binding(p.text@) {
                    Ok(canonical) => final(self).candidate@ == canonical && final(self).error is None,
                    Err(fault) => final(self).candidate == old(self).candidate && (final(self).error matches Some(
                        EditorError::Invalid(e),
                    ) && e@ == fault),
                },
                _ => *final(self) == *old(self),
            },
    {
        if self.pending.is_none() || key_down || modifiers_held {
            return;
        }
        let taken = self.pending.take();
        if let Some(p) = taken {
            match validate_user_hotkey(p.text.as_str()) {
                Ok(canonical) => {
                    self.candidate = canonical;
                    self.error = None;
                },
                Err(e) => {
                    self.error = Some(EditorError::Invalid(e));
                },
            }
        }
    }

    /// What the editor shows: the keys that are down, else the modifiers that are held, else
    /// the candidate.
    pub fn display(&self, captured_now: bool, held: &str) -> (text: String)
        ensures
            text@ == displayed(*self, captured_now, held@),
    {
        match &self.pending {
            Some(p) => p.text.clone(),
            None => if !captured_now && !held.is_empty() {
                held.to_owned()
            } else {
                self.candidate.clone()
            },
        }
    }

    /// The save button was pressed: the editor closes where the binding was taken, and says why
    /// where it was not.
    pub fn saved(&mut self, outcome: Result<Option<String>, EditorError>)
        ensures
            *final(self) == after_save(*old(self), outcome),
    {
        match outcome {
            Ok(taken) => {
                self.open = false;
                self.error = None;
                self.pending = None;
                if let Some(binding) = taken {
                    self.candidate = binding;
                }
            },
            Err(error) => {
                self.error = Some(error);
            },
        }
    }

    /// The editor was closed: the binding in use is the candidate again.
    pub fn cancel(&mut self, current: &str)
        ensures
            !final(self).open,
            final(self).candidate@ == current@,
            final(self).error is None,
            final(self).pending is None,
    {
        self.open = false;
        self.candidate = current.to_owned();
        self.error = None;
        self.pending = None;
    }
}

// ---------------------------------------------------------------------------------------
// Taking a binding into use

/// What a binding needs before it is in use.
#[derive(Debug)]
pub enum HotkeyChange {
    /// It is in use already.
    Unchanged,
    /// Ask the system for it, then register it in place of the old one.
    Register(String),
}

/// Checks a binding against the one in use.
pub fn commit_toggle_hotkey(candidate: &str, current: &str) -> (r: Result<HotkeyChange, EditorError>)
    ensures
        match user_binding(candidate@) {
            Err(fault) => r matches Err(EditorError::Invalid(e)) && e@ == fault,
            Ok(canonical) => if canonical == current@ {
                r matches Ok(HotkeyChange::Unchanged)
            } else {
                r matches Ok(HotkeyChange::Register(binding)) && binding@ == canonical
            },
        },
{
    match validate_user_hotkey(candidate) {
        Err(e) => Err(EditorError::Invalid(e)),
        Ok(canonical) => if same_text(canonical.as_str(), current) {
            Ok(HotkeyChange::Unchanged)
        } else {
            Ok(HotkeyChange::Register(canonical))
        },
    }
}

/// The bindings that are registered: the user's own, and those that never change.
pub fn hotkey_bindings(toggle: &str) -> (bindings: Vec<(i32, String)>)
    ensures
        bindings@.len() == 4,
        bindings@[0].0 == HK_TOGGLE && bindings@[0].1@ == toggle@,
        bindings@[1].0 == HK_QUIT && bindings@[1].1@ == "Ctrl+Alt+Q"@,
        bindings@[2].0 == HK_PANEL && bindings@[2].1@ == "Ctrl+Alt+P"@,
        bindings@[3].0 == HK_GUI_TOPMOST && bindings@[3].1@ == "Ctrl+Alt+G"@,
{
    let mut bindings: Vec<(i32, String)> = Vec::new();
    bindings.push((HK_TOGGLE, toggle.to_owned()));
    bindings.push((HK_QUIT, String::from_str("Ctrl+Alt+Q")));
    bindings.push((HK_PANEL, String::from_str("Ctrl+Alt+P")));
    bindings.push((HK_GUI_TOPMOST, String::from_str("Ctrl+Alt+G")));
    bindings
}

pub open spec fn toggle_refused(failures: Seq<(i32, String)>) -> bool {
    exists|i: int| 0 <= i < failures.len() && (#[trigger] failures[i]).0 == HK_TOGGLE
}

/// How a change ends.
#[derive(Clone, Copy, Debug, PartialEq, Eq, Structural)]
pub enum HotkeyOutcome {
    /// Keep the old registration: the system would not give the binding away.
    KeepOld,
    /// Register the old binding again.
    RestoreOld,
    /// The new binding is in use and is saved.
    TakeNew,
}

pub open spec fn outcome_of(available: bool, failures: Seq<(i32, String)>) -> HotkeyOutcome {
    if !available {
        HotkeyOutcome::KeepOld
    } else if toggle_refused(failures) {
        HotkeyOutcome::RestoreOld
    } else {
        HotkeyOutcome::TakeNew
    }
}

/// What follows asking for a new binding and, where the system would give it, registering it:
/// it is in use unless the system refused it after all, and then the old one is registered
/// again. Other refusals do not matter.
pub fn registration_outcome(available: bool, failures: &[(i32, String)]) -> (outcome: HotkeyOutcome)
    ensures
        outcome == outcome_of(available, failures@),
{
    if !available {
        return HotkeyOutcome::KeepOld;
    }
    let mut i: usize = 0;
    while i < failures.len()
        invariant
            i <= failures@.len(),
            available,
            forall|j: int| 0 <= j < i ==> (#[trigger] failures@[j]).0 != HK_TOGGLE,
        decreases failures@.len() - i,
    {
        if failures[i].0 == HK_TOGGLE {
            return HotkeyOutcome::RestoreOld;
        }
        i += 1;
    }
    HotkeyOutcome::TakeNew
}

pub open spec fn told(change: HotkeyChange, outcome: HotkeyOutcome) -> Result<Option<String>, EditorError> {
    match change {
        HotkeyChange::Unchanged => Ok(None),
        HotkeyChange::Register(binding) => match outcome {
            HotkeyOutcome::KeepOld => Err(EditorError::InUse),
            HotkeyOutcome::RestoreOld => Err(EditorError::LostInRegistration),
            HotkeyOutcome::TakeNew => Ok(Some(binding)),
        },
    }
}

/// What the editor is told.
pub fn change_result(change: HotkeyChange, outcome: HotkeyOutcome) -> (r: Result<Option<String>, EditorError>)
    ensures
        r == told(change, outcome),
{
    match change {
        HotkeyChange::Unchanged => Ok(None),
        HotkeyChange::Register(binding) => match outcome {
            HotkeyOutcome::KeepOld => Err(EditorError::InUse),
            HotkeyOutcome::RestoreOld => Err(EditorError::LostInRegistration),
            HotkeyOutcome::TakeNew => Ok(Some(binding)),
        },
    }
}

/// The line that names the fixed bindings, in the words of the window's language.
pub fn shortcuts_line(title: &str, gui: &str, panel: &str, quit: &str) -> (line: String)
    ensures
        line@ == title@ + ": Ctrl+Alt+G "@ + gui@ + "\u{3000}Ctrl+Alt+P "@ + panel@ + "\u{3000}Ctrl+Alt+Q "@ + quit@,
{
    let mut line = title.to_owned();
    line.append(": Ctrl+Alt+G ");
    line.append(gui);
    line.append("\u{3000}Ctrl+Alt+P ");
    line.append(panel);
    line.append("\u{3000}Ctrl+Alt+Q ");
    line.append(quit);
    line
}

// ---------------------------------------------------------------------------------------
// What the editor is for

/// A key that is pressed is written with the modifiers that are held, in their order, and the plus
/// sign between them.
pub proof fn a_pressed_key_is_written_with_its_modifiers(event: KeyEvent)
    ensures
        candidate_text(event) == (if event.ctrl { "Ctrl+"@ } else { Seq::empty() }) + (if event.alt {
            "Alt+"@
        } else {
            Seq::empty()
        }) + (if event.shift { "Shift+"@ } else { Seq::empty() }) + key_text(event.key),
{
    reveal_strlit("Ctrl");
    reveal_strlit("Alt");
    reveal_strlit("Shift");
    reveal_strlit("+");
    reveal_strlit("Ctrl+");
    reveal_strlit("Alt+");
    reveal_strlit("Shift+");
    let key = key_text(event.key);
    let parts = modifier_text(event.ctrl, event.alt, event.shift).push(key);
    assert("Ctrl"@ + "+"@ =~= "Ctrl+"@);
    assert("Alt"@ + "+"@ =~= "Alt+"@);
    assert("Shift"@ + "+"@ =~= "Shift+"@);
    reveal_with_fuel(joined, 5);
    let p0 = parts.drop_last();
    let p1 = p0.drop_last();
    let p2 = p1.drop_last();
    if event.ctrl && event.alt && event.shift {
        assert(parts =~= seq!["Ctrl"@, "Alt"@, "Shift"@, key]);
        assert(p0 =~= seq!["Ctrl"@, "Alt"@, "Shift"@]);
        assert(p1 =~= seq!["Ctrl"@, "Alt"@]);
        assert(p2 =~= seq!["Ctrl"@]);
    } else if event.ctrl && event.alt {
        assert(parts =~= seq!["Ctrl"@, "Alt"@, key]);
        assert(p0 =~= seq!["Ctrl"@, "Alt"@]);
        assert(p1 =~= seq!["Ctrl"@]);
    } else if event.ctrl && event.shift {
        assert(parts =~= seq!["Ctrl"@, "Shift"@, key]);
        assert(p0 =~= seq!["Ctrl"@, "Shift"@]);
        assert(p1 =~= seq!["Ctrl"@]);
    } else if event.alt && event.shift {
        assert(parts =~= seq!["Alt"@, "Shift"@, key]);
        assert(p0 =~= seq!["Alt"@, "Shift"@]);
        assert(p1 =~= seq!["Alt"@]);
    } else if event.ctrl {
        assert(parts =~= seq!["Ctrl"@, key]);
        assert(p0 =~= seq!["Ctrl"@]);
    } else if event.alt {
        assert(parts =~= seq!["Alt"@, key]);
        assert(p0 =~= seq!["Alt"@]);
    } else if event.shift {
        assert(parts =~= seq!["Shift"@, key]);
        assert(p0 =~= seq!["Shift"@]);
    } else {
        assert(parts =~= seq![key]);
    }
    assert(candidate_text(event) =~= (if event.ctrl { "Ctrl+"@ } else { Seq::empty() }) + (if event.alt {
        "Alt+"@
    } else {
        Seq::empty()
    }) + (if event.shift { "Shift+"@ } else { Seq::empty() }) + key);
}

/// Of the keys of a frame the last that was newly pressed counts; letting go, repeating and the
/// escape key do not.
pub proof fn the_last_new_key_counts(events: Seq<KeyEvent>, next: KeyEvent)
    ensures
        next.pressed && !next.repeat && !(next.key is Escape) ==> candidate_index(events.push(next)) == Some(
            events.len() as int,
        ),
        !next.pressed || next.repeat || next.key is Escape ==> candidate_index(events.push(next)) == candidate_index(
            events,
        ),
        candidate_index(Seq::empty()) is None,
{
    assert(events.push(next).drop_last() =~= events);
}

/// The arrow keys are written by their direction, and any other key by its name.
pub proof fn keys_are_written_by_their_names(name: String)
    ensures
        key_text(KeyName::ArrowUp) == "Up"@,
        key_text(KeyName::ArrowDown) == "Down"@,
        key_text(KeyName::ArrowLeft) == "Left"@,
        key_text(KeyName::ArrowRight) == "Right"@,
        key_text(KeyName::Named(name)) == name@,
{
}

/// Empty pieces are left out, and the others keep their order.
pub proof fn empty_pieces_are_left_out(pieces: Seq<Seq<char>>, next: Seq<char>)
    ensures
        next.len() == 0 ==> nonempty(pieces.push(next)) == nonempty(pieces),
        next.len() > 0 ==> nonempty(pieces.push(next)) == nonempty(pieces).push(next),
        nonempty(Seq::empty()).len() == 0,
{
    assert(pieces.push(next).drop_last() =~= pieces);
}

/// A change is refused where the system refused the toggle key itself, whatever else it refused.
pub proof fn only_the_toggle_key_decides(failures: Seq<(i32, String)>, next: (i32, String))
    ensures
        toggle_refused(failures.push(next)) <==> toggle_refused(failures) || next.0 == 1,
        !toggle_refused(Seq::empty()),
{
    let more = failures.push(next);
    if toggle_refused(failures) {
        let i = choose|i: int| 0 <= i < failures.len() && (#[trigger] failures[i]).0 == HK_TOGGLE;
        assert(more[i].0 == HK_TOGGLE);
    }
    if next.0 == 1 {
        assert(more[failures.len() as int].0 == HK_TOGGLE);
    }
    if toggle_refused(more) {
        let i = choose|i: int| 0 <= i < more.len() && (#[trigger] more[i]).0 == HK_TOGGLE;
        if i < failures.len() {
            assert(failures[i].0 == HK_TOGGLE);
        }
    }
}

/// A binding that the system gives and does not take back is in use and closes the editor; one
/// that it refuses, before or while it is registered, leaves the editor open with the reason and
/// the keys as they were. A refusal of another key does not count.
pub proof fn a_refused_binding_keeps_the_editor_open(
    editor: HotkeyEditor,
    binding: String,
    available: bool,
    failures: Seq<(i32, String)>,
)
    ensures
        ({
            let refused = exists|i: int| 0 <= i < failures.len() && (#[trigger] failures[i]).0 == HK_TOGGLE;
            let next = after_save(editor, told(HotkeyChange::Register(binding), outcome_of(available, failures)));
            &&& available && !refused ==> !next.open && next.candidate == binding && next.error is None && next.pending
                is None
            &&& !available || refused ==> next.open == editor.open && next.candidate == editor.candidate && next.pending
                == editor.pending
            &&& !available ==> next.error == Some(EditorError::InUse)
            &&& available && refused ==> next.error == Some(EditorError::LostInRegistration)
        }),
        ({
            let same = after_save(editor, told(HotkeyChange::Unchanged, outcome_of(available, failures)));
            !same.open && same.candidate == editor.candidate && same.error is None && same.pending is None
        }),
{
}

/// The editor shows the keys that were pressed until they are let go, then the modifiers that are
/// held, and the candidate while nothing is; a press takes the last complaint away and changes
/// neither the candidate nor whether the editor is open.
pub proof fn pressed_keys_are_shown(editor: HotkeyEditor, keys: PendingHotkey, captured_now: bool, held: Seq<char>)
    ensures
        displayed(after_keys(editor, Some(keys)), captured_now, held) == keys.text@,
        after_keys(editor, Some(keys)).error is None,
        after_keys(editor, Some(keys)).candidate == editor.candidate,
        after_keys(editor, Some(keys)).open == editor.open,
        after_keys(editor, None) == editor,
        editor.pending is None ==> {
            &&& held.len() == 0 || captured_now ==> displayed(editor, captured_now, held) == editor.candidate@
            &&& held.len() > 0 && !captured_now ==> displayed(editor, captured_now, held) == held
        },
{
}

} // verus!
