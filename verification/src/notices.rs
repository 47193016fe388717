//! The lines that tell the user something.
use vstd::prelude::*;
use crate::layout::UiMode;
use crate::text::{decimal, is_white_space, lower_text, push_decimal, texts, to_ascii_lowercase, white_space};
use crate::text::{chars_of, string_of};

verus! {

/// The longest status line, in characters.
pub const STATUS_LINE_CHARS: usize = 140;

/// A text with every run of blanks turned into one space, and none at the ends.
pub open spec fn one_spaced(s: Seq<char>) -> Seq<char>
    decreases s.len(),
{
    if s.len() == 0 {
        s
    } else {
        let before = one_spaced(s.drop_last());
        if is_white_space(s.last()) {
            before
        } else if before.len() > 0 && is_white_space(s.drop_last().last()) {
            before.push(' ').push(s.last())
        } else {
            before.push(s.last())
        }
    }
}

/// A status line: one line of limited length behind a mark.
pub open spec fn status_line(message: Seq<char>) -> Seq<char> {
    let line = one_spaced(message);
    "! "@ + (if line.len() > STATUS_LINE_CHARS {
        line.take(STATUS_LINE_CHARS as int) + "..."@
    } else {
        line
    })
}

fn spaced(message: &str) -> (line: Vec<char>)
    ensures
        line@ == one_spaced(message@),
{
    let chars = chars_of(message);
    let mut line: Vec<char> = Vec::new();
    let mut i: usize = 0;
    proof {
        assert(message@.take(0) =~= Seq::empty());
        assert(line@ =~= Seq::empty());
    }
    while i < chars.len()
        invariant
            chars@ == message@,
            i <= chars@.len(),
            line@ == one_spaced(message@.take(i as int)),
        decreases chars@.len() - i,
    {
        let c = chars[i];
        proof {
            assert(message@.take(i + 1).drop_last() =~= message@.take(i as int));
            assert(message@.take(i + 1).last() == message@[i as int]);
            if i > 0 {
                assert(message@.take(i as int).last() == message@[i - 1]);
            } else {
                assert(one_spaced(message@.take(0)).len() == 0);
            }
        }
        if !white_space(c) {
            if line.len() > 0 && i > 0 && white_space(chars[i - 1]) {
                line.push(' ');
            }
            line.push(c);
        }
        i += 1;
    }
    proof {
        assert(message@.take(message@.len() as int) =~= message@);
    }
    line
}

/// The status line of a message.
pub fn compact_status_line(message: &str) -> (line: String)
    ensures
        line@ == status_line(message@),
{
    let chars = spaced(message);
    let mut line = String::from_str("! ");
    if chars.len() > STATUS_LINE_CHARS {
        let short = string_of(chars.as_slice(), 0, STATUS_LINE_CHARS);
        line.append(short.as_str());
        proof {
            assert(chars@.subrange(0, STATUS_LINE_CHARS as int) =~= chars@.take(STATUS_LINE_CHARS as int));
            reveal_strlit("! ");
            reveal_strlit("...");
        }
        line.append("...");
        proof {
            assert(line@ =~= status_line(message@));
        }
    } else {
        let whole = string_of(chars.as_slice(), 0, chars.len());
        line.append(whole.as_str());
        proof {
            assert(chars@.subrange(0, chars@.len() as int) =~= chars@);
        }
    }
    line
}

/// A status line is never longer than its limit, the mark and the dots.
pub proof fn status_lines_are_short(message: Seq<char>)
    ensures
        status_line(message).len() <= STATUS_LINE_CHARS + 5,
{
    reveal_strlit("! ");
    reveal_strlit("...");
}

/// A status line holds no line break.
pub proof fn status_lines_are_one_line(message: Seq<char>)
    ensures
        forall|i: int|
            0 <= i < one_spaced(message).len() && is_white_space(#[trigger] one_spaced(message)[i]) ==> one_spaced(
                message,
            )[i] == ' ',
    decreases message.len(),
{
    if message.len() > 0 {
        status_lines_are_one_line(message.drop_last());
        let before = one_spaced(message.drop_last());
        assert forall|i: int|
            0 <= i < one_spaced(message).len() && is_white_space(
                #[trigger] one_spaced(message)[i],
            ) implies one_spaced(message)[i] == ' ' by {
            if i < before.len() {
                assert(one_spaced(message)[i] == before[i]);
            }
        }
    }
}

// ---------------------------------------------------------------------------------------
// Errors of the chain

/// How many errors of the chain are shown one by one.
pub const SHOWN_CHAIN_ERRORS: usize = 3;

/// How many errors are shown, and how many are only counted.
pub fn shown_chain_errors(count: usize) -> (r: (usize, usize))
    ensures
        r.0 == (if count < SHOWN_CHAIN_ERRORS {
            count
        } else {
            SHOWN_CHAIN_ERRORS
        }),
        r.0 + r.1 == count,
{
    if count < SHOWN_CHAIN_ERRORS {
        (count, 0)
    } else {
        (SHOWN_CHAIN_ERRORS, count - SHOWN_CHAIN_ERRORS)
    }
}

/// The line that counts the errors that are not shown; `words` says what is counted.
pub fn more_errors_line(more: usize, words: &str) -> (line: String)
    ensures
        line@ == "! +"@ + decimal(more as nat) + " "@ + words@,
{
    let mut line = String::from_str("! +");
    push_decimal(&mut line, more as u64);
    line.append(" ");
    line.append(words);
    line
}

pub open spec fn separated(parts: Seq<Seq<char>>) -> Seq<char>
    decreases parts.len(),
{
    if parts.len() == 0 {
        Seq::empty()
    } else if parts.len() == 1 {
        parts[0]
    } else {
        separated(parts.drop_last()) + "\n\n"@ + parts.last()
    }
}

/// The errors that are only counted, for the tip of that line.
pub fn hidden_errors(errors: &[String], shown: usize) -> (text: String)
    requires
        shown <= errors@.len(),
    ensures
        text@ == separated(texts(errors@).skip(shown as int)),
{
    let mut text = String::new();
    let mut i: usize = shown;
    let ghost all = texts(errors@).skip(shown as int);
    proof {
        assert(all.take(0) =~= Seq::empty());
    }
    while i < errors.len()
        invariant
            shown <= i <= errors@.len(),
            all == texts(errors@).skip(shown as int),
            text@ == separated(all.take(i - shown)),
        decreases errors@.len() - i,
    {
        proof {
            assert(all.take(i - shown + 1).drop_last() =~= all.take(i - shown));
            assert(all.take(i - shown + 1).last() == errors@[i as int]@);
        }
        if i > shown {
            text.append("\n\n");
        }
        text.append(errors[i].as_str());
        proof {
            if i == shown {
                assert(text@ =~= errors@[i as int]@);
            }
        }
        i += 1;
    }
    proof {
        assert(all.take(all.len() as int) =~= all);
    }
    text
}

// ---------------------------------------------------------------------------------------
// Building an inference engine

pub open spec fn ends_with(s: Seq<char>, tail: Seq<char>) -> bool {
    tail.len() <= s.len() && s.skip(s.len() - tail.len()) == tail
}

/// The name of a model with its ending.
pub open spec fn model_name(model: Seq<char>) -> Seq<char> {
    if ends_with(lower_text(model), ".onnx"@) {
        model
    } else {
        model + ".onnx"@
    }
}

pub fn model_label(model: &str) -> (label: String)
    ensures
        label@ == model_name(model@),
{
    let lower = to_ascii_lowercase(model);
    let chars = chars_of(lower.as_str());
    let n: usize = chars.len();
    let mut label = model.to_owned();
    proof {
        reveal_strlit(".onnx");
    }
    let named = n >= 5 && chars[n - 5] == '.' && chars[n - 4] == 'o' && chars[n - 3] == 'n' && chars[n - 2] == 'n'
        && chars[n - 1] == 'x';
    proof {
        let s = lower_text(model@);
        if n >= 5 {
            let tail = s.skip(n - 5);
            assert(tail.len() == 5);
            assert(tail[0] == s[n - 5] && tail[1] == s[n - 4] && tail[2] == s[n - 3] && tail[3] == s[n - 2] && tail[4]
                == s[n - 1]);
            if named {
                assert(tail =~= ".onnx"@);
            } else {
                assert(tail != ".onnx"@);
            }
        }
    }
    if !named {
        label.append(".onnx");
    }
    label
}

/// Which of the engines is being built, counted from one; `word` says what is counted.
pub fn engine_count_line(word: &str, completed: u32, total: u32) -> (line: String)
    ensures
        line@ == word@ + ": "@ + decimal(
            (if completed < total {
                completed + 1
            } else {
                total as int
            }) as nat,
        ) + "/"@ + decimal(total as nat),
{
    let current: u32 = if completed < total {
        completed + 1
    } else {
        total
    };
    let mut line = word.to_owned();
    line.append(": ");
    push_decimal(&mut line, current as u64);
    line.append("/");
    push_decimal(&mut line, total as u64);
    line
}

// ---------------------------------------------------------------------------------------
// Shortening

/// The text as it is shortened by one more character at every try.
pub open spec fn shortened(text: Seq<char>, dropped: int) -> Seq<char> {
    text.take(text.len() - dropped).push('\u{2026}')
}

/// The candidates for a text that is too wide, from the longest to the shortest; the last one
/// is the mark alone.
pub fn ellipsis_candidates(text: &str) -> (candidates: Vec<String>)
    ensures
        candidates@.len() == text@.len(),
        forall|i: int| 0 <= i < candidates@.len() ==> (#[trigger] candidates@[i])@ == shortened(text@, i + 1),
{
    let chars = chars_of(text);
    let mut candidates: Vec<String> = Vec::new();
    let mut left: usize = chars.len();
    while left > 0
        invariant
            chars@ == text@,
            left <= chars@.len(),
            candidates@.len() == chars@.len() - left,
            forall|i: int| 0 <= i < candidates@.len() ==> (#[trigger] candidates@[i])@ == shortened(text@, i + 1),
        decreases left,
    {
        left -= 1;
        let mut candidate = string_of(chars.as_slice(), 0, left);
        candidate.push('\u{2026}');
        proof {
            assert(chars@.subrange(0, left as int) =~= text@.take(left as int));
        }
        candidates.push(candidate);
    }
    candidates
}

/// The text that is shown: as it is where it fits, else the longest candidate that fits, else
/// the mark alone. `fits` tells of the text and of each candidate whether it fits.
pub fn ellipsize_to_width(text: &str, text_fits: bool, fits: &[bool]) -> (shown: String)
    requires
        fits@.len() == text@.len(),
    ensures
        text_fits ==> shown@ == text@,
        !text_fits ==> match first_fit(fits@) {
            Some(i) => 0 <= i < text@.len() && shown@ == shortened(text@, i + 1),
            None => shown@ == seq!['\u{2026}'],
        },
{
    if text_fits {
        return text.to_owned();
    }
    let chars = chars_of(text);
    let mut i: usize = 0;
    while i < fits.len()
        invariant
            chars@ == text@,
            fits@.len() == text@.len(),
            !text_fits,
            i <= fits@.len(),
            forall|j: int| 0 <= j < i ==> !fits@[j],
        decreases fits@.len() - i,
    {
        if fits[i] {
            let mut candidate = string_of(chars.as_slice(), 0, chars.len() - 1 - i);
            candidate.push('\u{2026}');
            proof {
                lemma_first_fit(fits@, i as int);
                assert(chars@.subrange(0, chars@.len() - 1 - i) =~= text@.take(text@.len() - (i + 1)));
            }
            return candidate;
        }
        i += 1;
    }
    proof {
        lemma_no_fit(fits@);
    }
    let mut mark = String::new();
    mark.push('\u{2026}');
    proof {
        assert(mark@ =~= seq!['\u{2026}']);
    }
    mark
}

pub open spec fn first_fit(fits: Seq<bool>) -> Option<int>
    decreases fits.len(),
{
    if fits.len() == 0 {
        None
    } else {
        match first_fit(fits.drop_last()) {
            Some(i) => Some(i),
            None => if fits.last() {
                Some(fits.len() - 1)
            } else {
                None
            },
        }
    }
}

proof fn lemma_first_fit(fits: Seq<bool>, i: int)
    ensures
        0 <= i < fits.len() && fits[i] && (forall|j: int| 0 <= j < i ==> !fits[j]) ==> first_fit(fits) == Some(i),
    decreases fits.len(),
{
    if fits.len() > 0 {
        let shorter = fits.drop_last();
        lemma_first_fit(shorter, i);
        assert(forall|j: int| 0 <= j < shorter.len() ==> shorter[j] == fits[j]);
        if 0 <= i < fits.len() && fits[i] && (forall|j: int| 0 <= j < i ==> !fits[j]) {
            if i == fits.len() - 1 {
                lemma_no_fit(shorter);
            } else {
                assert(shorter[i]);
            }
        }
    }
}

proof fn lemma_no_fit(fits: Seq<bool>)
    ensures
        (forall|j: int| 0 <= j < fits.len() ==> !fits[j]) ==> first_fit(fits) is None,
    decreases fits.len(),
{
    if fits.len() > 0 {
        let shorter = fits.drop_last();
        assert(forall|j: int| 0 <= j < shorter.len() ==> shorter[j] == fits[j]);
        lemma_no_fit(shorter);
    }
}

/// Where the notice of an overloaded card is shown in the main window.
#[derive(Clone, Copy, Debug, PartialEq, Eq, Structural)]
pub enum OverloadPlace {
    Nowhere,
    /// One line over the smallest layout, which has no room for a window.
    InLine,
    /// A window of its own inside the main window.
    Window,
}

pub open spec fn place_of_overload(mode: UiMode, running: bool, latched: bool) -> OverloadPlace {
    if !running || !latched {
        OverloadPlace::Nowhere
    } else if mode == UiMode::Mini {
        OverloadPlace::InLine
    } else {
        OverloadPlace::Window
    }
}

pub fn overload_place(mode: UiMode, running: bool, latched: bool) -> (place: OverloadPlace)
    ensures
        place == place_of_overload(mode, running, latched),
{
    if !running || !latched {
        OverloadPlace::Nowhere
    } else if mode == UiMode::Mini {
        OverloadPlace::InLine
    } else {
        OverloadPlace::Window
    }
}

/// How urgent a line is.
#[derive(Clone, Copy, Debug, PartialEq, Eq, Structural)]
pub enum Tone {
    Warning,
    Failure,
    Notice,
}

/// A line below the settings.
pub struct StatusLine {
    pub tone: Tone,
    pub text: String,
}

/// A line as a mathematical value.
pub struct Line {
    pub tone: Tone,
    pub text: Seq<char>,
}

impl View for StatusLine {
    type V = Line;

    open spec fn view(&self) -> Line {
        Line { tone: self.tone, text: self.text@ }
    }
}

pub open spec fn line_views(lines: Seq<StatusLine>) -> Seq<Line> {
    lines.map_values(|l: StatusLine| l@)
}

/// A short line about a message, if there is one.
pub open spec fn message_line(tone: Tone, message: Option<String>) -> Seq<Line> {
    match message {
        Some(m) => seq![Line { tone, text: status_line(m@) }],
        None => Seq::empty(),
    }
}

pub open spec fn notice_lines(messages: Seq<String>) -> Seq<Line> {
    messages.map_values(|m: String| Line { tone: Tone::Notice, text: status_line(m@) })
}

/// What the engine complains of.
pub struct Complaints {
    pub warning: Option<String>,
    pub error: Option<String>,
    /// Why the backend could not be changed.
    pub backend: Option<String>,
    pub chain: Vec<String>,
}

/// The lines below the settings: the warning, the error, the backend that could not be changed,
/// the first three errors of the chain, and how many more there are.
pub open spec fn status_lines_of(c: Complaints, backend_words: Seq<char>, more_words: Seq<char>) -> Seq<Line> {
    let shown = if c.chain@.len() < SHOWN_CHAIN_ERRORS {
        c.chain@.len() as int
    } else {
        SHOWN_CHAIN_ERRORS as int
    };
    message_line(Tone::Warning, c.warning) + message_line(Tone::Failure, c.error) + (match c.backend {
        Some(e) => seq![Line { tone: Tone::Notice, text: status_line(backend_words + ": "@ + e@) }],
        None => Seq::empty(),
    }) + notice_lines(c.chain@.take(shown)) + (if c.chain@.len() > shown {
        seq![
            Line {
                tone: Tone::Notice,
                text: "! +"@ + decimal((c.chain@.len() - shown) as nat) + " "@ + more_words,
            },
        ]
    } else {
        Seq::empty()
    })
}

fn push_line(lines: &mut Vec<StatusLine>, tone: Tone, text: String)
    ensures
        line_views(final(lines)@) == line_views(old(lines)@).push(Line { tone, text: text@ }),
{
    let ghost before = line_views(lines@);
    let ghost line = Line { tone, text: text@ };
    lines.push(StatusLine { tone, text });
    assert(line_views(lines@) =~= before.push(line));
}

pub fn status_lines(c: &Complaints, backend_words: &str, more_words: &str) -> (lines: Vec<StatusLine>)
    ensures
        line_views(lines@) == status_lines_of(*c, backend_words@, more_words@),
{
    let mut lines: Vec<StatusLine> = Vec::new();
    assert(line_views(lines@) =~= Seq::<Line>::empty());
    if let Some(w) = &c.warning {
        push_line(&mut lines, Tone::Warning, compact_status_line(w.as_str()));
    }
    assert(line_views(lines@) =~= message_line(Tone::Warning, c.warning));
    if let Some(e) = &c.error {
        push_line(&mut lines, Tone::Failure, compact_status_line(e.as_str()));
    }
    assert(line_views(lines@) =~= message_line(Tone::Warning, c.warning) + message_line(Tone::Failure, c.error));
    if let Some(e) = &c.backend {
        let mut text = backend_words.to_owned();
        text.append(": ");
        text.append(e.as_str());
        push_line(&mut lines, Tone::Notice, compact_status_line(text.as_str()));
    }
    let ghost head = line_views(lines@);
    let (shown, more) = shown_chain_errors(c.chain.len());
    let mut i: usize = 0;
    assert(head =~= head + notice_lines(c.chain@.take(0)));
    while i < shown
        invariant
            i <= shown <= c.chain@.len(),
            line_views(lines@) == head + notice_lines(c.chain@.take(i as int)),
        decreases shown - i,
    {
        let line = compact_status_line(c.chain[i].as_str());
        let ghost before = line_views(lines@);
        let ghost text = line@;
        push_line(&mut lines, Tone::Notice, line);
        assert(notice_lines(c.chain@.take(i + 1)) =~= notice_lines(c.chain@.take(i as int)).push(
            Line { tone: Tone::Notice, text },
        ));
        assert(line_views(lines@) =~= head + notice_lines(c.chain@.take(i + 1)));
        i += 1;
    }
    if more > 0 {
        push_line(&mut lines, Tone::Notice, more_errors_line(more, more_words));
    }
    assert(line_views(lines@) =~= status_lines_of(*c, backend_words@, more_words@));
    lines
}

// ---------------------------------------------------------------------------------------
// What the status lines are for

/// Words without blanks between are kept as they are, and any blanks between two words become one
/// space: adding a word, or blanks and a word, to a line adds just that.
pub proof fn a_line_keeps_its_words(s: Seq<char>, c: char, blank: char)
    requires
        !is_white_space(c),
        is_white_space(blank),
    ensures
        one_spaced(s.push(blank)) == one_spaced(s),
        s.len() > 0 && !is_white_space(s.last()) ==> one_spaced(s.push(c)) == one_spaced(s).push(c),
        one_spaced(s).len() > 0 && is_white_space(s.last()) ==> one_spaced(s.push(c)) == one_spaced(s).push(' ').push(c),
        one_spaced(s).len() == 0 ==> one_spaced(s.push(c)) == seq![c],
        one_spaced(Seq::empty()).len() == 0,
{
    assert(s.push(blank).drop_last() =~= s);
    assert(s.push(c).drop_last() =~= s);
    assert(Seq::<char>::empty().push(c) =~= seq![c]);
    if one_spaced(s).len() == 0 {
        assert(one_spaced(s) =~= Seq::<char>::empty());
    }
}

/// A short message is shown whole behind the mark; a long one is cut at a hundred and forty
/// characters and says so.
pub proof fn a_short_message_is_shown_whole(message: Seq<char>)
    ensures
        one_spaced(message).len() <= 140 ==> status_line(message) == "! "@ + one_spaced(message),
        one_spaced(message).len() > 140 ==> status_line(message) == "! "@ + (one_spaced(message).take(
            140,
        ) + "..."@),
{
}

/// The complaints are shown in the order of their weight: the warning, the failure, the backend's,
/// the first three of the chain, and how many more there are.
pub proof fn complaints_are_shown_by_weight(c: Complaints, backend_words: Seq<char>, more_words: Seq<char>)
    ensures
        ({
            let lines = status_lines_of(c, backend_words, more_words);
            let a: int = if c.warning is Some { 1 } else { 0 };
            let b: int = a + if c.error is Some { 1int } else { 0 };
            let d: int = b + if c.backend is Some { 1int } else { 0 };
            let shown: int = if c.chain@.len() < 3 { c.chain@.len() as int } else { 3 };
            &&& c.warning matches Some(m) ==> lines[0] == (Line { tone: Tone::Warning, text: status_line(m@) })
            &&& c.error matches Some(m) ==> lines[a] == (Line { tone: Tone::Failure, text: status_line(m@) })
            &&& c.backend matches Some(m) ==> lines[b] == (Line {
                tone: Tone::Notice,
                text: status_line(backend_words + ": "@ + m@),
            })
            &&& forall|i: int|
                0 <= i < shown ==> lines[d + i] == (Line { tone: Tone::Notice, text: status_line((#[trigger] c.chain@[i])@) })
            &&& c.chain@.len() > 3 ==> lines[d + 3] == (Line {
                tone: Tone::Notice,
                text: "! +"@ + decimal((c.chain@.len() - 3) as nat) + " "@ + more_words,
            })
            &&& lines.len() == d + shown + (if c.chain@.len() > 3 { 1int } else { 0 })
        }),
{
}

/// A model is shown with the ending of its file, which is added only where it is missing.
pub proof fn a_model_has_its_ending_once(name: Seq<char>)
    ensures
        model_name(name + ".onnx"@) == name + ".onnx"@,
        model_name(model_name(name)) == model_name(name),
        model_name(name) == name || model_name(name) == name + ".onnx"@,
        name.len() < 5 ==> model_name(name) == name + ".onnx"@,
{
    reveal_strlit(".onnx");
    let whole = name + ".onnx"@;
    assert(lower_text(whole).skip(whole.len() - 5) =~= ".onnx"@);
}

/// A text that is too wide is cut from its end, with a sign for what is missing, as little as fits:
/// the first shortening that fits is taken.
pub proof fn the_first_shortening_that_fits(fits: Seq<bool>, i: int, text: Seq<char>, dropped: int)
    requires
        0 <= dropped <= text.len(),
    ensures
        0 <= i < fits.len() && fits[i] && (forall|j: int| 0 <= j < i ==> !#[trigger] fits[j]) ==> first_fit(fits)
            == Some(i),
        (forall|j: int| 0 <= j < fits.len() ==> !#[trigger] fits[j]) ==> first_fit(fits) is None,
        shortened(text, dropped).len() == text.len() - dropped + 1,
        shortened(text, dropped).last() == '\u{2026}',
        shortened(text, dropped).drop_last() == text.take(text.len() - dropped),
    decreases fits.len(),
{
    assert(shortened(text, dropped).drop_last() =~= text.take(text.len() - dropped));
    if fits.len() > 0 {
        let rest = fits.drop_last();
        if 0 <= i < fits.len() && fits[i] && (forall|j: int| 0 <= j < i ==> !#[trigger] fits[j]) {
            if i < rest.len() {
                assert(rest[i]);
                assert forall|j: int| 0 <= j < i implies !#[trigger] rest[j] by {
                    assert(!fits[j]);
                }
                the_first_shortening_that_fits(rest, i, text, dropped);
            } else {
                assert forall|j: int| 0 <= j < rest.len() implies !#[trigger] rest[j] by {
                    assert(!fits[j]);
                }
                the_first_shortening_that_fits(rest, i, text, dropped);
            }
        }
        if forall|j: int| 0 <= j < fits.len() ==> !#[trigger] fits[j] {
            assert forall|j: int| 0 <= j < rest.len() implies !#[trigger] rest[j] by {
                assert(!fits[j]);
            }
            the_first_shortening_that_fits(rest, i, text, dropped);
            assert(!fits[fits.len() - 1]);
        }
    }
}

/// Texts are put one under the other with an empty line between them.
pub proof fn texts_have_an_empty_line_between(parts: Seq<Seq<char>>, next: Seq<char>)
    ensures
        separated(Seq::empty()).len() == 0,
        parts.len() > 0 ==> separated(parts.push(next)) == separated(parts) + "\n\n"@ + next,
        separated(seq![next]) == next,
{
    assert(parts.push(next).drop_last() =~= parts);
}

/// An overload is shown while a capture runs and it lasts, in a window wherever the layout has room
/// for one.
pub proof fn an_overload_is_shown_while_it_lasts(mode: UiMode, running: bool, latched: bool)
    ensures
        place_of_overload(mode, running, latched) == OverloadPlace::Nowhere <==> !(running && latched),
        place_of_overload(mode, running, latched) == OverloadPlace::InLine <==> running && latched && mode
            == UiMode::Mini,
        place_of_overload(mode, running, latched) == OverloadPlace::Window <==> running && latched && (mode
            == UiMode::Basic || mode == UiMode::Full),
{
}

} // verus!
