//! The menu of languages: the built-in ones, and those that the user has added as files.
use vstd::prelude::*;
use crate::text::{chars_of, eq_ignore_ascii_case, starts_with, string_of, to_ascii_lowercase};
use crate::text::lower_text;

verus! {

/// A language that the user has added.
pub struct CustomLocale {
    pub tag: String,
    pub name: String,
    pub short: String,
}

/// Which language the settings ask for. Built-in languages have a number; the system decides
/// where there is none.
pub struct LanguageSetting {
    pub fixed: Option<u16>,
    pub custom: Option<String>,
}

/// Two tags name the same language.
pub open spec fn same_tag(a: Seq<char>, b: Seq<char>) -> bool {
    lower_text(a) == lower_text(b)
}

/// The first added language with a tag.
pub open spec fn locale_index(locales: Seq<CustomLocale>, tag: Seq<char>) -> Option<int>
    decreases locales.len(),
{
    if locales.len() == 0 {
        None
    } else {
        match locale_index(locales.drop_last(), tag) {
            Some(i) => Some(i),
            None => if same_tag(locales.last().tag@, tag) {
                Some(locales.len() - 1)
            } else {
                None
            },
        }
    }
}

proof fn lemma_locale_index(locales: Seq<CustomLocale>, tag: Seq<char>)
    ensures
        match locale_index(locales, tag) {
            Some(i) => 0 <= i < locales.len() && same_tag(locales[i].tag@, tag) && forall|j: int|
                0 <= j < i ==> !same_tag((#[trigger] locales[j]).tag@, tag),
            None => forall|j: int| 0 <= j < locales.len() ==> !same_tag((#[trigger] locales[j]).tag@, tag),
        },
    decreases locales.len(),
{
    if locales.len() > 0 {
        let shorter = locales.drop_last();
        lemma_locale_index(shorter, tag);
        assert(forall|j: int| 0 <= j < shorter.len() ==> shorter[j] == #[trigger] locales[j]);
    }
}

/// Where the first added language with a tag stands.
pub fn find_locale(locales: &[CustomLocale], tag: &str) -> (r: Option<usize>)
    ensures
        match r {
            Some(i) => i < locales@.len() && locale_index(locales@, tag@) == Some(i as int),
            None => locale_index(locales@, tag@) is None,
        },
{
    proof {
        lemma_locale_index(locales@, tag@);
    }
    let mut i: usize = 0;
    while i < locales.len()
        invariant
            i <= locales@.len(),
            forall|j: int| 0 <= j < i ==> !same_tag((#[trigger] locales@[j]).tag@, tag@),
            match locale_index(locales@, tag@) {
                Some(k) => 0 <= k < locales@.len() && same_tag(locales@[k].tag@, tag@) && forall|j: int|
                    0 <= j < k ==> !same_tag((#[trigger] locales@[j]).tag@, tag@),
                None => forall|j: int| 0 <= j < locales@.len() ==> !same_tag((#[trigger] locales@[j]).tag@, tag@),
            },
        decreases locales@.len() - i,
    {
        if eq_ignore_ascii_case(locales[i].tag.as_str(), tag) {
            return Some(i);
        }
        i += 1;
    }
    None
}

/// The added language in use.
pub open spec fn active_locale(setting: LanguageSetting, locales: Seq<CustomLocale>) -> Option<int> {
    match setting.custom {
        Some(tag) => locale_index(locales, tag@),
        None => None,
    }
}

impl LanguageSetting {
    /// An added language whose file is gone is given up; the result is the one in use.
    pub fn settle(&mut self, locales: &[CustomLocale]) -> (active: Option<usize>)
        ensures
            final(self).fixed == old(self).fixed,
            match active {
                Some(i) => active_locale(*old(self), locales@) == Some(i as int) && i < locales@.len()
                    && final(self).custom == old(self).custom,
                None => active_locale(*old(self), locales@) is None && final(self).custom is None,
            },
    {
        let active = match &self.custom {
            Some(tag) => find_locale(locales, tag.as_str()),
            None => None,
        };
        if active.is_none() {
            self.custom = None;
        }
        active
    }

    /// The system decides.
    pub fn choose_auto(&mut self)
        ensures
            *final(self) == (LanguageSetting { fixed: None, custom: None }),
    {
        self.fixed = None;
        self.custom = None;
    }

    /// A built-in language.
    pub fn choose_builtin(&mut self, language: u16)
        ensures
            *final(self) == (LanguageSetting { fixed: Some(language), custom: None }),
    {
        self.fixed = Some(language);
        self.custom = None;
    }

    /// An added language; the rest is in English, whose number is given.
    pub fn choose_custom(&mut self, english: u16, tag: &str)
        ensures
            final(self).fixed == Some(english),
            final(self).custom matches Some(chosen) && chosen@ == tag@,
    {
        self.fixed = Some(english);
        self.custom = Some(tag.to_owned());
    }

    /// Asks for an added language from outside: one that is not there changes nothing.
    pub fn ask_for(&mut self, locales: &[CustomLocale], english: u16, tag: &str)
        ensures
            if locale_index(locales@, tag@) is Some {
                final(self).fixed == Some(english) && (final(self).custom matches Some(chosen) && chosen@ == tag@)
            } else {
                *final(self) == *old(self)
            },
    {
        if find_locale(locales, tag).is_some() {
            self.choose_custom(english, tag);
        }
    }

    /// Whether a built-in language is marked in the menu.
    pub fn marks_builtin(&self, language: u16) -> (r: bool)
        ensures
            r == (self.custom is None && self.fixed == Some(language)),
    {
        self.custom.is_none() && self.fixed == Some(language)
    }

    /// Whether an added language is marked in the menu.
    pub fn marks_custom(&self, locale: &CustomLocale) -> (r: bool)
        ensures
            r == (self.custom matches Some(tag) && same_tag(tag@, locale.tag@)),
    {
        match &self.custom {
            Some(tag) => eq_ignore_ascii_case(tag.as_str(), locale.tag.as_str()),
            None => false,
        }
    }

    /// What the closed menu shows; `short` is the short name of the language in use.
    pub fn chip(&self, locales: &[CustomLocale], short: &str) -> (text: String)
        ensures
            text@ == (if self.fixed is None {
                "Auto"@
            } else {
                match active_locale(*self, locales@) {
                    Some(i) => first_four(locales@[i].short@),
                    None => short@,
                }
            }),
    {
        if self.fixed.is_none() {
            return String::from_str("Auto");
        }
        let found = match &self.custom {
            Some(tag) => find_locale(locales, tag.as_str()),
            None => None,
        };
        match found {
            Some(i) => {
                let chars = chars_of(locales[i].short.as_str());
                let n: usize = if chars.len() < 4 {
                    chars.len()
                } else {
                    4
                };
                proof {
                    assert(chars@.subrange(0, n as int) =~= first_four(locales@[i as int].short@));
                }
                string_of(chars.as_slice(), 0, n)
            },
            None => short.to_owned(),
        }
    }

    /// The tip of the menu; `native` and `tag` are those of the language in use.
    pub fn tip(&self, locales: &[CustomLocale], native: &str, tag: &str) -> (text: String)
        ensures
            text@ == (match self.custom {
                Some(custom) => match locale_index(locales@, custom@) {
                    Some(i) => named(locales@[i].name@, locales@[i].tag@),
                    None => custom@,
                },
                None => if self.fixed is None {
                    "Auto / "@ + native@
                } else {
                    named(native@, tag@)
                },
            }),
    {
        match &self.custom {
            Some(custom) => match find_locale(locales, custom.as_str()) {
                Some(i) => name_with_tag(locales[i].name.as_str(), locales[i].tag.as_str()),
                None => custom.clone(),
            },
            None => if self.fixed.is_none() {
                let mut text = String::from_str("Auto / ");
                text.append(native);
                text
            } else {
                name_with_tag(native, tag)
            },
        }
    }
}

pub open spec fn first_four(s: Seq<char>) -> Seq<char> {
    if s.len() < 4 {
        s
    } else {
        s.take(4)
    }
}

pub open spec fn named(name: Seq<char>, tag: Seq<char>) -> Seq<char> {
    name + " ["@ + tag + "]"@
}

fn name_with_tag(name: &str, tag: &str) -> (text: String)
    ensures
        text@ == named(name@, tag@),
{
    let mut text = name.to_owned();
    text.append(" [");
    text.append(tag);
    text.append("]");
    text
}

/// What stands behind a language in the menu.
pub fn code_label(short: &str) -> (text: String)
    ensures
        text@ == "["@ + short@ + "]"@,
{
    let mut text = String::from_str("[");
    text.append(short);
    text.append("]");
    text
}

/// The language that the system prefers: the first of its list, and American English if the
/// list is empty.
pub fn requested_tag(tags: &[String]) -> (tag: String)
    ensures
        tag@ == (if tags@.len() > 0 {
            tags@[0]@
        } else {
            "en-US"@
        }),
{
    if tags.len() > 0 {
        tags[0].clone()
    } else {
        "en-US".to_owned()
    }
}

/// Whether a tag names a Portuguese other than the Brazilian one that is built in.
pub fn is_portuguese_alias(tag: &str) -> (r: bool)
    ensures
        r == ("pt-"@.is_prefix_of(lower_text(tag@)) && !same_tag(tag@, "pt-BR"@)),
{
    starts_with(to_ascii_lowercase(tag).as_str(), "pt-") && !eq_ignore_ascii_case(tag, "pt-BR")
}

pub open spec fn language_in_use(forced: Option<u16>, fixed: Option<u16>, system: u16) -> u16 {
    match forced {
        Some(l) => l,
        None => match fixed {
            Some(l) => l,
            None => system,
        },
    }
}

/// The built-in language in use: the one forced from outside, otherwise the one of the
/// settings, otherwise the one that stands for the system's language.
pub fn effective_language(forced: Option<u16>, fixed: Option<u16>, system: u16) -> (language: u16)
    ensures
        language == language_in_use(forced, fixed, system),
{
    match forced {
        Some(l) => l,
        None => match fixed {
            Some(l) => l,
            None => system,
        },
    }
}

/// What a frame does about the language of the window.
#[derive(Clone, Copy, Debug, PartialEq, Eq, Structural)]
pub struct LanguageUpdate {
    /// The fonts and the translated texts are chosen anew.
    pub refresh: bool,
    pub save: bool,
}

/// Takes over the language that the setting leads to. A language that a test asked for is not
/// saved.
pub fn update_language(current: &mut u16, selected: u16, chosen: bool, test_override: bool) -> (update: LanguageUpdate)
    ensures
        *final(current) == selected,
        update.refresh == (selected != *old(current) || chosen),
        update.save == (update.refresh && !test_override),
{
    let refresh = selected != *current || chosen;
    *current = selected;
    LanguageUpdate { refresh, save: refresh && !test_override }
}

/// An added language is found by its tag, whatever the case of its letters: the first that has it.
pub proof fn a_language_is_found_by_its_tag(locales: Seq<CustomLocale>, next: CustomLocale, tag: Seq<char>)
    ensures
        locale_index(locales, tag) is Some ==> locale_index(locales.push(next), tag) == locale_index(locales, tag),
        locale_index(locales, tag) is None && lower_text(next.tag@) == lower_text(tag) ==> locale_index(
            locales.push(next),
            tag,
        ) == Some(locales.len() as int),
        locale_index(locales, tag) is None && lower_text(next.tag@) != lower_text(tag) ==> locale_index(
            locales.push(next),
            tag,
        ) is None,
        locale_index(Seq::empty(), tag) is None,
{
    assert(locales.push(next).drop_last() =~= locales);
}

/// The language in use is the one that was chosen, and none where none was.
pub proof fn the_chosen_language_is_in_use(setting: LanguageSetting, locales: Seq<CustomLocale>)
    ensures
        setting.custom is None ==> active_locale(setting, locales) is None,
        setting.custom matches Some(tag) ==> active_locale(setting, locales) == locale_index(locales, tag@),
{
}

/// A short name has four signs at most, the first ones.
pub proof fn a_short_name_is_short(s: Seq<char>)
    ensures
        first_four(s).len() <= 4,
        s.len() <= 4 ==> first_four(s) == s,
        s.len() > 4 ==> first_four(s) == s.subrange(0, 4),
{
    if s.len() == 4 {
        assert(s.take(4) =~= s);
    }
}

/// A language that is forced from outside wins, then the one of the settings; the system's is used
/// only where neither is there.
pub proof fn the_settings_go_before_the_system(forced: u16, fixed: Option<u16>, own: u16, system: u16)
    ensures
        language_in_use(Some(forced), fixed, system) == forced,
        language_in_use(None, Some(own), system) == own,
        language_in_use(None, None, system) == system,
{
}

} // verus!
