//! Languages and scripts: which font family a text is drawn with, in which order fonts stand
//! in for each other, and the messages of the shortcut editor.
use vstd::prelude::*;
use crate::hotkeys::HotkeyValidationError;
use crate::text::{chars_of, same_text};
use crate::text::texts;

verus! {

/// The languages that are told apart when a font is chosen.
#[derive(Clone, Copy, Debug, PartialEq, Eq, Structural)]
pub enum UiLanguage {
    JaJp,
    EnUs,
    ZhCn,
    ZhTw,
    KoKr,
    /// Any other language.
    Other,
}

// ---------------------------------------------------------------------------------------
// Font families

/// The font family of a language.
pub open spec fn family_of(lang: UiLanguage) -> Seq<char> {
    match lang {
        UiLanguage::JaJp => "ui_ja"@,
        UiLanguage::ZhCn => "ui_zh_cn"@,
        UiLanguage::ZhTw => "ui_zh_tw"@,
        UiLanguage::KoKr => "ui_ko"@,
        _ => "ui_latin"@,
    }
}

pub fn locale_font_family(lang: UiLanguage) -> (family: &'static str)
    ensures
        family@ == family_of(lang),
{
    match lang {
        UiLanguage::JaJp => "ui_ja",
        UiLanguage::ZhCn => "ui_zh_cn",
        UiLanguage::ZhTw => "ui_zh_tw",
        UiLanguage::KoKr => "ui_ko",
        _ => "ui_latin",
    }
}

/// The scripts that a mixed text is searched for.
#[derive(Clone, Copy, Debug, PartialEq, Eq, Structural)]
pub enum Script {
    Indic,
    ThaiLao,
    Myanmar,
    Japanese,
    Hangul,
    Cjk,
}

/// Whether a character belongs to a script.
pub open spec fn in_script(c: char, script: Script) -> bool {
    let n = c as u32;
    match script {
        Script::Indic => 0x0900 <= n <= 0x0dff || 0x0f00 <= n <= 0x0fff,
        Script::ThaiLao => 0x0e00 <= n <= 0x0eff,
        Script::Myanmar => 0x1000 <= n <= 0x109f || 0xaa60 <= n <= 0xaa7f,
        Script::Japanese => 0x3040 <= n <= 0x30ff || 0x31f0 <= n <= 0x31ff,
        Script::Hangul => 0x1100 <= n <= 0x11ff || 0x3130 <= n <= 0x318f || 0xac00 <= n <= 0xd7af,
        Script::Cjk => 0x3400 <= n <= 0x4dbf || 0x4e00 <= n <= 0x9fff,
    }
}

/// Whether a text holds a character of a script.
pub open spec fn has_script(s: Seq<char>, script: Script) -> bool {
    exists|i: int| 0 <= i < s.len() && in_script(#[trigger] s[i], script)
}

fn belongs(c: char, script: Script) -> (r: bool)
    ensures
        r == in_script(c, script),
{
    let n: u32 = c as u32;
    match script {
        Script::Indic => (0x0900 <= n && n <= 0x0dff) || (0x0f00 <= n && n <= 0x0fff),
        Script::ThaiLao => 0x0e00 <= n && n <= 0x0eff,
        Script::Myanmar => (0x1000 <= n && n <= 0x109f) || (0xaa60 <= n && n <= 0xaa7f),
        Script::Japanese => (0x3040 <= n && n <= 0x30ff) || (0x31f0 <= n && n <= 0x31ff),
        Script::Hangul => (0x1100 <= n && n <= 0x11ff) || (0x3130 <= n && n <= 0x318f) || (0xac00 <= n && n
            <= 0xd7af),
        Script::Cjk => (0x3400 <= n && n <= 0x4dbf) || (0x4e00 <= n && n <= 0x9fff),
    }
}

fn holds(text: &str, script: Script) -> (r: bool)
    ensures
        r == has_script(text@, script),
{
    let v = chars_of(text);
    let mut i: usize = 0;
    while i < v.len()
        invariant
            v@ == text@,
            i <= v@.len(),
            forall|k: int| 0 <= k < i ==> !in_script(#[trigger] text@[k], script),
        decreases v@.len() - i,
    {
        if belongs(v[i], script) {
            assert(in_script(text@[i as int], script));
            return true;
        }
        i += 1;
    }
    false
}

/// The one family that a text of mixed scripts is drawn with, so that it keeps one baseline.
/// Han characters alone do not tell the language: a Chinese window draws them as Chinese,
/// every other one as Japanese.
pub open spec fn mixed_family(text: Seq<char>, lang: UiLanguage) -> Seq<char> {
    if has_script(text, Script::Indic) {
        "ui_indic"@
    } else if has_script(text, Script::ThaiLao) {
        "ui_thai"@
    } else if has_script(text, Script::Myanmar) {
        "ui_myanmar"@
    } else if has_script(text, Script::Japanese) {
        family_of(UiLanguage::JaJp)
    } else if has_script(text, Script::Hangul) {
        family_of(UiLanguage::KoKr)
    } else if has_script(text, Script::Cjk) {
        match lang {
            UiLanguage::ZhCn => family_of(UiLanguage::ZhCn),
            UiLanguage::ZhTw => family_of(UiLanguage::ZhTw),
            _ => family_of(UiLanguage::JaJp),
        }
    } else {
        family_of(lang)
    }
}

pub fn mixed_text_font_family(text: &str, ui_language: UiLanguage) -> (family: &'static str)
    ensures
        family@ == mixed_family(text@, ui_language),
{
    if holds(text, Script::Indic) {
        "ui_indic"
    } else if holds(text, Script::ThaiLao) {
        "ui_thai"
    } else if holds(text, Script::Myanmar) {
        "ui_myanmar"
    } else if holds(text, Script::Japanese) {
        locale_font_family(UiLanguage::JaJp)
    } else if holds(text, Script::Hangul) {
        locale_font_family(UiLanguage::KoKr)
    } else if holds(text, Script::Cjk) {
        match ui_language {
            UiLanguage::ZhCn => locale_font_family(UiLanguage::ZhCn),
            UiLanguage::ZhTw => locale_font_family(UiLanguage::ZhTw),
            _ => locale_font_family(UiLanguage::JaJp),
        }
    } else {
        locale_font_family(ui_language)
    }
}

/// A text in plain Latin letters is drawn with the family of the window's language.
pub proof fn latin_text_keeps_the_languages_family(text: Seq<char>, lang: UiLanguage)
    requires
        forall|i: int| 0 <= i < text.len() ==> (#[trigger] text[i] as u32) < 0x0900,
    ensures
        mixed_family(text, lang) == family_of(lang),
{
}

/// Whether a character is kana, Han or Hangul.
pub open spec fn is_east_asian(c: char) -> bool {
    let n = c as u32;
    0x3040 <= n <= 0x30ff || 0x3400 <= n <= 0x9fff || 0xac00 <= n <= 0xd7af
}

/// The text whose painted box the labels of a script share as their line.
pub open spec fn label_reference(text: Seq<char>) -> Seq<char> {
    if exists|i: int| 0 <= i < text.len() && is_east_asian(#[trigger] text[i]) {
        "\u{7d71}\u{8a08}\u{6f22}\u{5b57}\u{304b}\u{306a}\u{d55c}\u{ae00}"@
    } else {
        "Ag0123"@
    }
}

/// The reference text of a checkbox label: one for the East Asian scripts, one for the rest.
pub fn checkbox_label_reference(text: &str) -> (reference: &'static str)
    ensures
        reference@ == label_reference(text@),
{
    let v = chars_of(text);
    let mut i: usize = 0;
    while i < v.len()
        invariant
            v@ == text@,
            i <= v@.len(),
            forall|k: int| 0 <= k < i ==> !is_east_asian(#[trigger] text@[k]),
        decreases v@.len() - i,
    {
        let n: u32 = v[i] as u32;
        if (0x3040 <= n && n <= 0x30ff) || (0x3400 <= n && n <= 0x9fff) || (0xac00 <= n && n <= 0xd7af) {
            assert(is_east_asian(text@[i as int]));
            return "\u{7d71}\u{8a08}\u{6f22}\u{5b57}\u{304b}\u{306a}\u{d55c}\u{ae00}";
        }
        i += 1;
    }
    "Ag0123"
}

// ---------------------------------------------------------------------------------------
// Font order

/// A list with only the first of equal texts kept.
pub open spec fn first_of_each(list: Seq<Seq<char>>) -> Seq<Seq<char>>
    decreases list.len(),
{
    if list.len() == 0 {
        Seq::empty()
    } else {
        let before = first_of_each(list.drop_last());
        if before.contains(list.last()) {
            before
        } else {
            before.push(list.last())
        }
    }
}

/// No text is left twice, and none is lost.
pub proof fn first_of_each_is_a_set(list: Seq<Seq<char>>)
    ensures
        first_of_each(list).no_duplicates(),
        forall|s: Seq<char>| #[trigger] first_of_each(list).contains(s) <==> list.contains(s),
    decreases list.len(),
{
    if list.len() > 0 {
        let front = list.drop_last();
        first_of_each_is_a_set(front);
        let before = first_of_each(front);
        assert forall|s: Seq<char>| #[trigger] first_of_each(list).contains(s) <==> list.contains(s) by {
            if list.contains(s) {
                let k = choose|k: int| 0 <= k < list.len() && list[k] == s;
                if k < front.len() {
                    assert(front[k] == s);
                    assert(front.contains(s));
                    assert(before.contains(s));
                    let j = choose|j: int| 0 <= j < before.len() && before[j] == s;
                    assert(first_of_each(list)[j] == s);
                } else if !before.contains(s) {
                    assert(first_of_each(list).last() == s);
                }
            }
            if first_of_each(list).contains(s) {
                let j = choose|j: int| 0 <= j < first_of_each(list).len() && first_of_each(list)[j] == s;
                if j < before.len() {
                    assert(before[j] == s);
                    assert(before.contains(s));
                    assert(front.contains(s));
                    let k = choose|k: int| 0 <= k < front.len() && front[k] == s;
                    assert(list[k] == s);
                } else {
                    assert(list[list.len() - 1] == s);
                }
            }
        }
    }
}

/// The fonts of the program, the native one of a family first.
pub open spec fn font_candidates(native: Seq<char>) -> Seq<Seq<char>> {
    seq![
        native,
        "ui_segoe"@,
        "ui_ja_font"@,
        "ui_zh_cn_font"@,
        "ui_zh_tw_font"@,
        "ui_ko_font"@,
        "ui_indic_font"@,
        "ui_thai_font"@,
        "ui_myanmar_font"@,
    ]
}

/// The texts of a list that stand in another one.
pub open spec fn present(list: Seq<Seq<char>>, loaded: Seq<Seq<char>>) -> Seq<Seq<char>>
    decreases list.len(),
{
    if list.len() == 0 {
        Seq::empty()
    } else if loaded.contains(list.last()) {
        present(list.drop_last(), loaded).push(list.last())
    } else {
        present(list.drop_last(), loaded)
    }
}

/// The fonts of a family: the loaded ones with the native one first, then the built-in ones,
/// each once.
pub open spec fn family_order(native: Seq<char>, loaded: Seq<Seq<char>>, built_in: Seq<Seq<char>>) -> Seq<
    Seq<char>,
> {
    first_of_each(present(font_candidates(native), loaded) + built_in)
}

fn is_in(list: &[String], s: &str) -> (r: bool)
    ensures
        r == texts(list@).contains(s@),
{
    let mut i: usize = 0;
    while i < list.len()
        invariant
            i <= list@.len(),
            forall|k: int| 0 <= k < i ==> #[trigger] list@[k]@ != s@,
        decreases list@.len() - i,
    {
        if same_text(list[i].as_str(), s) {
            assert(texts(list@)[i as int] == s@);
            return true;
        }
        i += 1;
    }
    assert(!texts(list@).contains(s@)) by {
        if texts(list@).contains(s@) {
            let k = choose|k: int| 0 <= k < texts(list@).len() && texts(list@)[k] == s@;
            assert(list@[k]@ == s@);
        }
    }
    false
}

fn push_once(list: &mut Vec<String>, s: &str, Ghost(seen): Ghost<Seq<Seq<char>>>)
    requires
        texts(old(list)@) == first_of_each(seen),
    ensures
        texts(final(list)@) == first_of_each(seen.push(s@)),
{
    assert(seen.push(s@).drop_last() =~= seen);
    if !is_in(list.as_slice(), s) {
        let ghost before = texts(list@);
        list.push(s.to_owned());
        assert(texts(list@) =~= before.push(s@));
    }
}

/// The fonts of a family in the order in which they stand in for missing glyphs.
pub fn ordered_family(native: &str, loaded: &[String], built_in: &[String]) -> (fonts: Vec<String>)
    ensures
        texts(fonts@) == family_order(native@, texts(loaded@), texts(built_in@)),
{
    let candidates: [&str; 9] = [
        native,
        "ui_segoe",
        "ui_ja_font",
        "ui_zh_cn_font",
        "ui_zh_tw_font",
        "ui_ko_font",
        "ui_indic_font",
        "ui_thai_font",
        "ui_myanmar_font",
    ];
    let ghost all = font_candidates(native@);
    assert(forall|i: int| 0 <= i < 9 ==> (#[trigger] candidates@[i])@ == all[i]);
    let mut fonts: Vec<String> = Vec::new();
    let ghost mut seen = Seq::<Seq<char>>::empty();
    let mut i: usize = 0;
    assert(all.take(0) =~= Seq::empty());
    assert(texts(fonts@) =~= Seq::<Seq<char>>::empty());
    while i < 9
        invariant
            i <= 9,
            all == font_candidates(native@),
            candidates@.len() == 9,
            forall|k: int| 0 <= k < 9 ==> (#[trigger] candidates@[k])@ == all[k],
            seen == present(all.take(i as int), texts(loaded@)),
            texts(fonts@) == first_of_each(seen),
        decreases 9 - i,
    {
        assert(all.take(i + 1).drop_last() =~= all.take(i as int));
        let name = candidates[i];
        if is_in(loaded, name) {
            push_once(&mut fonts, name, Ghost(seen));
            proof {
                seen = seen.push(name@);
            }
        }
        i += 1;
    }
    assert(all.take(9) =~= all);
    let ghost head = seen;
    let mut k: usize = 0;
    assert(head + texts(built_in@).take(0) =~= head);
    while k < built_in.len()
        invariant
            k <= built_in@.len(),
            texts(fonts@) == first_of_each(head + texts(built_in@).take(k as int)),
        decreases built_in@.len() - k,
    {
        push_once(&mut fonts, built_in[k].as_str(), Ghost(head + texts(built_in@).take(k as int)));
        assert((head + texts(built_in@).take(k as int)).push(built_in@[k as int]@) =~= head + texts(built_in@).take(
            k + 1,
        ));
        k += 1;
    }
    assert(texts(built_in@).take(k as int) =~= texts(built_in@));
    fonts
}

/// The families of the program with the native font of each.
pub fn font_families() -> (families: [(&'static str, &'static str); 8])
    ensures
        families@.len() == 8,
        families@[0].0@ == "ui_latin"@ && families@[0].1@ == "ui_segoe"@,
        families@[1].0@ == "ui_ja"@ && families@[1].1@ == "ui_ja_font"@,
        families@[2].0@ == "ui_zh_cn"@ && families@[2].1@ == "ui_zh_cn_font"@,
        families@[3].0@ == "ui_zh_tw"@ && families@[3].1@ == "ui_zh_tw_font"@,
        families@[4].0@ == "ui_ko"@ && families@[4].1@ == "ui_ko_font"@,
        families@[5].0@ == "ui_indic"@ && families@[5].1@ == "ui_indic_font"@,
        families@[6].0@ == "ui_thai"@ && families@[6].1@ == "ui_thai_font"@,
        families@[7].0@ == "ui_myanmar"@ && families@[7].1@ == "ui_myanmar_font"@,
{
    [
        ("ui_latin", "ui_segoe"),
        ("ui_ja", "ui_ja_font"),
        ("ui_zh_cn", "ui_zh_cn_font"),
        ("ui_zh_tw", "ui_zh_tw_font"),
        ("ui_ko", "ui_ko_font"),
        ("ui_indic", "ui_indic_font"),
        ("ui_thai", "ui_thai_font"),
        ("ui_myanmar", "ui_myanmar_font"),
    ]
}

/// A native font that is loaded comes first in its family.
pub proof fn loaded_native_font_comes_first(native: Seq<char>, loaded: Seq<Seq<char>>, built_in: Seq<Seq<char>>)
    requires
        loaded.contains(native),
    ensures
        family_order(native, loaded, built_in).len() > 0,
        family_order(native, loaded, built_in)[0] == native,
{
    let c = font_candidates(native);
    lemma_present_keeps_the_first(c, loaded);
    let all = present(c, loaded) + built_in;
    assert(all[0] == native);
    lemma_first_stays_first(all);
}

proof fn lemma_present_keeps_the_first(list: Seq<Seq<char>>, loaded: Seq<Seq<char>>)
    requires
        list.len() > 0,
        loaded.contains(list[0]),
    ensures
        present(list, loaded).len() > 0,
        present(list, loaded)[0] == list[0],
    decreases list.len(),
{
    if list.len() > 1 {
        lemma_present_keeps_the_first(list.drop_last(), loaded);
    } else {
        assert(present(list.drop_last(), loaded) =~= Seq::<Seq<char>>::empty());
        assert(list.last() == list[0]);
    }
}

proof fn lemma_first_stays_first(list: Seq<Seq<char>>)
    requires
        list.len() > 0,
    ensures
        first_of_each(list).len() > 0,
        first_of_each(list)[0] == list[0],
    decreases list.len(),
{
    if list.len() > 1 {
        lemma_first_stays_first(list.drop_last());
    } else {
        assert(first_of_each(list.drop_last()) =~= Seq::<Seq<char>>::empty());
        assert(list.last() == list[0]);
    }
}

// ---------------------------------------------------------------------------------------
// Messages

/// A message in the two languages that every message is written in.
#[derive(Debug)]
pub struct Phrase {
    pub ja: &'static str,
    pub en: &'static str,
}

/// The words for a binding that is not accepted.
pub open spec fn phrase_fits(phrase: Phrase, error: HotkeyValidationError) -> bool {
    match error {
        HotkeyValidationError::KeyCount => phrase.en@ == "Use a total of two or three keys, including modifiers."@
            && phrase.ja@ == "キーは修飾キーを含めて2個または3個にしてください。"@,
        HotkeyValidationError::MissingModifier => phrase.en@ == "Ctrl, Alt, or Shift is required."@ && phrase.ja@
            == "Ctrl、Alt、Shiftのいずれかが必要です。"@,
        HotkeyValidationError::MissingPrimary => phrase.en@
            == "Modifier-only shortcuts cannot be registered. Add a letter, number, or function key."@
            && phrase.ja@
            == "修飾キーだけでは登録できません。最後に文字・数字・Fキーなどを押してください。"@,
        HotkeyValidationError::MultiplePrimary => phrase.en@ == "Only one non-modifier key is allowed."@
            && phrase.ja@ == "通常キーは1個だけ指定できます。"@,
        HotkeyValidationError::DuplicateKey => phrase.en@ == "The same key is duplicated."@ && phrase.ja@
            == "同じキーが重複しています。"@,
        HotkeyValidationError::UnsupportedKey(_) => phrase.en@ == "This key is not supported for global shortcuts."@
            && phrase.ja@ == "このキーはグローバルショートカットには使用できません。"@,
        HotkeyValidationError::WinModifier => phrase.en@
            == "Win-key combinations are blocked because they conflict with Windows shortcuts."@ && phrase.ja@
            == "Winキーを含む組み合わせはWindows操作と衝突するため使用できません。"@,
        HotkeyValidationError::Reserved => phrase.en@ == "This combination is reserved by the app or Windows."@
            && phrase.ja@ == "この組み合わせはアプリまたはWindowsの予約操作と重複しています。"@,
    }
}

/// What the shortcut editor says of a binding that is not accepted.
pub fn hotkey_error_phrase(error: &HotkeyValidationError) -> (phrase: Phrase)
    ensures
        phrase_fits(phrase, *error),
{
    match error {
        HotkeyValidationError::KeyCount => Phrase {
            ja: "キーは修飾キーを含めて2個または3個にしてください。",
            en: "Use a total of two or three keys, including modifiers.",
        },
        HotkeyValidationError::MissingModifier => Phrase {
            ja: "Ctrl、Alt、Shiftのいずれかが必要です。",
            en: "Ctrl, Alt, or Shift is required.",
        },
        HotkeyValidationError::MissingPrimary => Phrase {
            ja: "修飾キーだけでは登録できません。最後に文字・数字・Fキーなどを押してください。",
            en: "Modifier-only shortcuts cannot be registered. Add a letter, number, or function key.",
        },
        HotkeyValidationError::MultiplePrimary => Phrase {
            ja: "通常キーは1個だけ指定できます。",
            en: "Only one non-modifier key is allowed.",
        },
        HotkeyValidationError::DuplicateKey => Phrase {
            ja: "同じキーが重複しています。",
            en: "The same key is duplicated.",
        },
        HotkeyValidationError::UnsupportedKey(_) => Phrase {
            ja: "このキーはグローバルショートカットには使用できません。",
            en: "This key is not supported for global shortcuts.",
        },
        HotkeyValidationError::WinModifier => Phrase {
            ja: "Winキーを含む組み合わせはWindows操作と衝突するため使用できません。",
            en: "Win-key combinations are blocked because they conflict with Windows shortcuts.",
        },
        HotkeyValidationError::Reserved => Phrase {
            ja: "この組み合わせはアプリまたはWindowsの予約操作と重複しています。",
            en: "This combination is reserved by the app or Windows.",
        },
    }
}

// ---------------------------------------------------------------------------------------
// What choosing a font is for

/// A text is drawn with the family of the script that it has, the rarest first; the Chinese signs
/// alone go by the language of the window.
pub proof fn a_text_is_drawn_in_its_script(text: Seq<char>, lang: UiLanguage)
    ensures
        has_script(text, Script::Indic) ==> mixed_family(text, lang) == "ui_indic"@,
        !has_script(text, Script::Indic) && has_script(text, Script::ThaiLao) ==> mixed_family(text, lang) == "ui_thai"@,
        !has_script(text, Script::Indic) && !has_script(text, Script::ThaiLao) ==> {
            &&& has_script(text, Script::Myanmar) ==> mixed_family(text, lang) == "ui_myanmar"@
            &&& !has_script(text, Script::Myanmar) && has_script(text, Script::Japanese) ==> mixed_family(text, lang)
                == "ui_ja"@
            &&& !has_script(text, Script::Myanmar) && !has_script(text, Script::Japanese) && has_script(
                text,
                Script::Hangul,
            ) ==> mixed_family(text, lang) == "ui_ko"@
            &&& !has_script(text, Script::Myanmar) && !has_script(text, Script::Japanese) && !has_script(
                text,
                Script::Hangul,
            ) && has_script(text, Script::Cjk) ==> mixed_family(text, lang) == (match lang {
                UiLanguage::ZhCn => "ui_zh_cn"@,
                UiLanguage::ZhTw => "ui_zh_tw"@,
                _ => "ui_ja"@,
            })
        },
{
}

/// Every language has its own family, and those without signs of their own share one.
pub proof fn languages_have_their_families(lang: UiLanguage)
    ensures
        family_of(UiLanguage::JaJp) == "ui_ja"@,
        family_of(UiLanguage::ZhCn) == "ui_zh_cn"@,
        family_of(UiLanguage::ZhTw) == "ui_zh_tw"@,
        family_of(UiLanguage::KoKr) == "ui_ko"@,
        family_of(UiLanguage::EnUs) == "ui_latin"@,
        family_of(UiLanguage::Other) == "ui_latin"@,
{
}

/// The scripts are told by the ranges of their signs, and no sign is of two scripts.
pub proof fn scripts_are_told_by_their_signs(c: char, a: Script, b: Script)
    ensures
        in_script(c, a) && in_script(c, b) ==> a == b,
        (c as u32) < 0x900 ==> !in_script(c, a),
        0x900 <= (c as u32) <= 0xdff ==> in_script(c, Script::Indic),
        0xe00 <= (c as u32) <= 0xeff ==> in_script(c, Script::ThaiLao),
        0x1000 <= (c as u32) <= 0x109f ==> in_script(c, Script::Myanmar),
        0x3040 <= (c as u32) <= 0x30ff ==> in_script(c, Script::Japanese),
        0xac00 <= (c as u32) <= 0xd7af ==> in_script(c, Script::Hangul),
        0x4e00 <= (c as u32) <= 0x9fff ==> in_script(c, Script::Cjk),
        is_east_asian(c) <==> 0x3040 <= (c as u32) <= 0x30ff || 0x3400 <= (c as u32) <= 0x9fff || 0xac00 <= (c as u32)
            <= 0xd7af,
{
}

/// Of a list each text is kept once, where it stands first; only fonts that are loaded are kept; and
/// both keep the order.
pub proof fn fonts_keep_their_order(list: Seq<Seq<char>>, next: Seq<char>, loaded: Seq<Seq<char>>)
    ensures
        first_of_each(list).contains(next) ==> first_of_each(list.push(next)) == first_of_each(list),
        !first_of_each(list).contains(next) ==> first_of_each(list.push(next)) == first_of_each(list).push(next),
        first_of_each(Seq::empty()).len() == 0,
        loaded.contains(next) ==> present(list.push(next), loaded) == present(list, loaded).push(next),
        !loaded.contains(next) ==> present(list.push(next), loaded) == present(list, loaded),
        present(Seq::empty(), loaded).len() == 0,
{
    assert(list.push(next).drop_last() =~= list);
}

/// A family has its own font first, then the one for Latin letters, then those of the other scripts,
/// and the built-in fonts last.
pub proof fn a_familys_own_font_comes_first(native: Seq<char>)
    ensures
        font_candidates(native).len() == 9,
        font_candidates(native)[0] == native,
        font_candidates(native)[1] == "ui_segoe"@,
        font_candidates(native).skip(2) == seq![
            "ui_ja_font"@,
            "ui_zh_cn_font"@,
            "ui_zh_tw_font"@,
            "ui_ko_font"@,
            "ui_indic_font"@,
            "ui_thai_font"@,
            "ui_myanmar_font"@,
        ],
{
    assert(font_candidates(native).skip(2) =~= seq![
        "ui_ja_font"@,
        "ui_zh_cn_font"@,
        "ui_zh_tw_font"@,
        "ui_ko_font"@,
        "ui_indic_font"@,
        "ui_thai_font"@,
        "ui_myanmar_font"@,
    ]);
}

/// Labels of one script share the line that they are centred on: those with signs of East Asia have
/// one, all others another.
pub proof fn labels_share_the_line_of_their_script(text: Seq<char>, i: int)
    ensures
        0 <= i < text.len() && is_east_asian(text[i]) ==> label_reference(text)
            == "\u{7d71}\u{8a08}\u{6f22}\u{5b57}\u{304b}\u{306a}\u{d55c}\u{ae00}"@,
        (forall|k: int| 0 <= k < text.len() ==> !is_east_asian(#[trigger] text[k])) ==> label_reference(text) == "Ag0123"@,
{
}

} // verus!
