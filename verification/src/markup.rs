//! Preset names: emphasis with asterisks, and the standalone marker of frame generation.
use vstd::prelude::*;
use crate::text::{chars_of, find_from, is_alphanumeric, string_of};
use crate::text::{occurs_at, unicode_alphanumeric};

verus! {

/// The colour of an emphasised part of a name.
#[derive(Clone, Copy, Debug, PartialEq, Eq, Structural)]
pub enum PresetNameAccent {
    Gold,
    Cyan,
    Red,
}

// ---------------------------------------------------------------------------------------
// Emphasis

/// A part of a name, with its accent if it is emphasised.
pub struct Segment {
    pub text: Seq<char>,
    pub accent: Option<PresetNameAccent>,
}

/// How many asterisks stand at position `i`, three at most.
pub open spec fn stars_at(s: Seq<char>, i: int) -> int {
    if i >= s.len() || s[i] != '*' {
        0
    } else if i + 1 >= s.len() || s[i + 1] != '*' {
        1
    } else if i + 2 >= s.len() || s[i + 2] != '*' {
        2
    } else {
        3
    }
}

/// `n` asterisks.
pub open spec fn stars(n: int) -> Seq<char> {
    Seq::new(n as nat, |i: int| '*')
}

/// One asterisk is gold, two are cyan, three are red.
pub open spec fn accent_of(stars: int) -> PresetNameAccent {
    if stars == 3 {
        PresetNameAccent::Red
    } else if stars == 2 {
        PresetNameAccent::Cyan
    } else {
        PresetNameAccent::Gold
    }
}

/// The first position at or behind `from` where `pat` stands.
pub open spec fn next_occurrence(s: Seq<char>, pat: Seq<char>, from: int) -> Option<int>
    decreases s.len() + 1 - from,
{
    if from > s.len() {
        None
    } else if occurs_at(s, pat, from) {
        Some(from)
    } else {
        next_occurrence(s, pat, from + 1)
    }
}

pub open spec fn plain(s: Seq<char>, from: int, to: int) -> Seq<Segment> {
    if from < to {
        seq![Segment { text: s.subrange(from, to), accent: None }]
    } else {
        Seq::empty()
    }
}

/// The parts of `s` from `cursor` on, where the text from `start` is plain so far. A run of
/// asterisks opens an emphasis if the same run closes it later with something in between;
/// otherwise it is plain text.
pub open spec fn segments_from(s: Seq<char>, start: int, cursor: int) -> Seq<Segment>
    decreases s.len() - cursor,
    when 0 <= start <= cursor
{
    if cursor >= s.len() {
        plain(s, start, s.len() as int)
    } else if s[cursor] != '*' {
        segments_from(s, start, cursor + 1)
    } else {
        let n = stars_at(s, cursor);
        let open = cursor + n;
        match next_occurrence(s, stars(n), open) {
            Some(close) => if close == open {
                segments_from(s, start, open)
            } else {
                proof {
                    next_occurrence_is_in_range(s, stars(n), open);
                }
                plain(s, start, cursor) + seq![
                    Segment { text: s.subrange(open, close), accent: Some(accent_of(n)) },
                ] + segments_from(s, close + n, close + n)
            },
            None => segments_from(s, start, open),
        }
    }
}

/// The parts of a name.
pub open spec fn segments(s: Seq<char>) -> Seq<Segment> {
    segments_from(s, 0, 0)
}

/// What the parts returned by `preset_markup_segments` stand for.
pub open spec fn segment_views(parts: Seq<(&str, Option<PresetNameAccent>)>) -> Seq<Segment> {
    parts.map_values(|p: (&str, Option<PresetNameAccent>)| Segment { text: p.0@, accent: p.1 })
}

proof fn lemma_next_occurrence(s: Seq<char>, pat: Seq<char>, from: int, found: Option<int>)
    requires
        0 <= from,
        match found {
            Some(i) => i >= from && occurs_at(s, pat, i) && forall|j: int|
                from <= j < i ==> !#[trigger] occurs_at(s, pat, j),
            None => forall|j: int| j >= from ==> !#[trigger] occurs_at(s, pat, j),
        },
    ensures
        next_occurrence(s, pat, from) == found,
    decreases s.len() + 1 - from,
{
    if from <= s.len() {
        if occurs_at(s, pat, from) {
            if found is Some && found->0 > from {
                assert(!occurs_at(s, pat, from));
            }
        } else {
            lemma_next_occurrence(s, pat, from + 1, found);
        }
    }
}

/// The parts of a preset name, without the asterisks that emphasise them.
pub fn preset_markup_segments(name: &str) -> (parts: Vec<(&str, Option<PresetNameAccent>)>)
    ensures
        segment_views(parts@) == segments(name@),
{
    let v = chars_of(name);
    let mut parts: Vec<(&str, Option<PresetNameAccent>)> = Vec::new();
    let mut start: usize = 0;
    let mut cursor: usize = 0;
    assert(segment_views(parts@) + segments_from(name@, 0, 0) =~= segments(name@));
    while cursor < v.len()
        invariant
            v@ == name@,
            start <= cursor <= v@.len(),
            segment_views(parts@) + segments_from(name@, start as int, cursor as int) == segments(name@),
        decreases v@.len() - cursor,
    {
        if v[cursor] != '*' {
            cursor += 1;
            continue;
        }
        let mut marker: Vec<char> = vec!['*'];
        if cursor + 1 < v.len() && v[cursor + 1] == '*' {
            marker.push('*');
            if cursor + 2 < v.len() && v[cursor + 2] == '*' {
                marker.push('*');
            }
        }
        let n: usize = marker.len();
        assert(n == stars_at(name@, cursor as int));
        assert(marker@ =~= stars(n as int));
        let open: usize = cursor + n;
        let close = find_from(v.as_slice(), marker.as_slice(), open);
        proof {
            lemma_next_occurrence(
                name@,
                marker@,
                open as int,
                match close {
                    Some(i) => Some(i as int),
                    None => None,
                },
            );
        }
        match close {
            None => {
                cursor = open;
            },
            Some(close) => {
                if close == open {
                    cursor = open;
                } else {
                    let ghost before = segment_views(parts@);
                    let ghost rest = segments_from(name@, close + n, close + n);
                    if start < cursor {
                        parts.push((name.substring_char(start, cursor), None));
                        assert(segment_views(parts@) =~= before + plain(name@, start as int, cursor as int));
                    }
                    assert(segment_views(parts@) =~= before + plain(name@, start as int, cursor as int));
                    let ghost middle = segment_views(parts@);
                    let accent = if n == 3 {
                        PresetNameAccent::Red
                    } else if n == 2 {
                        PresetNameAccent::Cyan
                    } else {
                        PresetNameAccent::Gold
                    };
                    parts.push((name.substring_char(open, close), Some(accent)));
                    assert(segment_views(parts@) =~= middle.push(
                        Segment {
                            text: name@.subrange(open as int, close as int),
                            accent: Some(accent_of(n as int)),
                        },
                    ));
                    assert(segment_views(parts@) + rest =~= before + segments_from(
                        name@,
                        start as int,
                        cursor as int,
                    ));
                    cursor = close + n;
                    start = cursor;
                }
            },
        }
    }
    let ghost before = segment_views(parts@);
    if start < v.len() {
        parts.push((name.substring_char(start, v.len()), None));
    }
    assert(segment_views(parts@) =~= before + plain(name@, start as int, name@.len() as int));
    parts
}

/// A name without asterisks is one plain part, or none if it is empty.
pub proof fn names_without_asterisks_are_plain(s: Seq<char>)
    requires
        !s.contains('*'),
    ensures
        segments(s) == plain(s, 0, s.len() as int),
{
    lemma_plain_to_the_end(s, 0, 0);
}

proof fn lemma_plain_to_the_end(s: Seq<char>, start: int, cursor: int)
    requires
        0 <= start <= cursor <= s.len(),
        !s.contains('*'),
    ensures
        segments_from(s, start, cursor) == plain(s, start, s.len() as int),
    decreases s.len() - cursor,
{
    if cursor < s.len() {
        assert(s.contains(s[cursor]));
        lemma_plain_to_the_end(s, start, cursor + 1);
    }
}

/// The number of asterisks on each side of a part.
pub open spec fn marker_width(accent: Option<PresetNameAccent>) -> int {
    match accent {
        None => 0,
        Some(PresetNameAccent::Gold) => 1,
        Some(PresetNameAccent::Cyan) => 2,
        Some(PresetNameAccent::Red) => 3,
    }
}

/// The parts put together again, each between its asterisks.
pub open spec fn rejoined(parts: Seq<Segment>) -> Seq<char>
    decreases parts.len(),
{
    if parts.len() == 0 {
        Seq::empty()
    } else {
        let n = marker_width(parts.last().accent);
        rejoined(parts.drop_last()) + stars(n) + parts.last().text + stars(n)
    }
}

/// Only the asterisks that emphasise something are hidden: with them put back the parts make
/// up the whole name.
pub proof fn markup_hides_only_its_delimiters(s: Seq<char>)
    ensures
        rejoined(segments(s)) == s,
{
    lemma_rejoined_from(s, 0, 0);
    assert(s.skip(0) =~= s);
}

proof fn lemma_rejoined_concat(a: Seq<Segment>, b: Seq<Segment>)
    ensures
        rejoined(a + b) == rejoined(a) + rejoined(b),
    decreases b.len(),
{
    if b.len() == 0 {
        assert(a + b =~= a);
        assert(rejoined(a) + rejoined(b) =~= rejoined(a));
    } else {
        lemma_rejoined_concat(a, b.drop_last());
        assert((a + b).drop_last() =~= a + b.drop_last());
        assert(rejoined(a + b) =~= rejoined(a) + rejoined(b));
    }
}

proof fn lemma_rejoined_one(part: Segment)
    ensures
        rejoined(seq![part]) == stars(marker_width(part.accent)) + part.text + stars(
            marker_width(part.accent),
        ),
{
    reveal_with_fuel(rejoined, 2);
    assert(seq![part].drop_last() =~= Seq::<Segment>::empty());
    let n = marker_width(part.accent);
    assert(rejoined(seq![part]) =~= stars(n) + part.text + stars(n));
}

proof fn lemma_rejoined_plain(s: Seq<char>, from: int, to: int)
    requires
        0 <= from <= to <= s.len(),
    ensures
        rejoined(plain(s, from, to)) == s.subrange(from, to),
{
    if from < to {
        lemma_rejoined_one(Segment { text: s.subrange(from, to), accent: None });
        assert(stars(0) + s.subrange(from, to) + stars(0) =~= s.subrange(from, to));
    } else {
        assert(rejoined(plain(s, from, to)) =~= s.subrange(from, to));
    }
}

/// One marked part between plain text and what follows gives the text back.
proof fn lemma_rejoined_marked(s: Seq<char>, start: int, cursor: int, close: int)
    requires
        0 <= start <= cursor < s.len(),
        s[cursor] == '*',
        cursor + stars_at(s, cursor) < close,
        occurs_at(s, stars(stars_at(s, cursor)), close),
        rejoined(segments_from(s, close + stars_at(s, cursor), close + stars_at(s, cursor))) == s.skip(
            close + stars_at(s, cursor),
        ),
    ensures
        ({
            let n = stars_at(s, cursor);
            let part = Segment { text: s.subrange(cursor + n, close), accent: Some(accent_of(n)) };
            rejoined(plain(s, start, cursor) + seq![part] + segments_from(s, close + n, close + n)) == s.skip(start)
        }),
{
    let n = stars_at(s, cursor);
    let open = cursor + n;
    let part = Segment { text: s.subrange(open, close), accent: Some(accent_of(n)) };
    let front = plain(s, start, cursor);
    let rest = segments_from(s, close + n, close + n);
    lemma_rejoined_plain(s, start, cursor);
    lemma_rejoined_one(part);
    lemma_rejoined_concat(front, seq![part]);
    lemma_rejoined_concat(front + seq![part], rest);
    assert(s.subrange(close, close + n) =~= stars(n));
    assert(s.subrange(cursor, open) =~= stars(n));
    assert(s.skip(start) =~= s.subrange(start, cursor) + (s.subrange(cursor, open) + s.subrange(open, close)
        + s.subrange(close, close + n)) + s.skip(close + n));
}

proof fn lemma_rejoined_from(s: Seq<char>, start: int, cursor: int)
    requires
        0 <= start <= cursor <= s.len(),
    ensures
        rejoined(segments_from(s, start, cursor)) == s.skip(start),
    decreases s.len() - cursor,
{
    if cursor >= s.len() {
        lemma_rejoined_plain(s, start, s.len() as int);
        assert(s.subrange(start, s.len() as int) =~= s.skip(start));
    } else if s[cursor] != '*' {
        lemma_rejoined_from(s, start, cursor + 1);
    } else {
        let n = stars_at(s, cursor);
        let open = cursor + n;
        next_occurrence_is_in_range(s, stars(n), open);
        match next_occurrence(s, stars(n), open) {
            Some(close) => {
                if close == open {
                    lemma_rejoined_from(s, start, open);
                } else {
                    lemma_rejoined_from(s, close + n, close + n);
                    lemma_found_text(s, stars(n), open);
                    lemma_rejoined_marked(s, start, cursor, close);
                }
            },
            None => lemma_rejoined_from(s, start, open),
        }
    }
}

proof fn lemma_found_text(s: Seq<char>, pat: Seq<char>, from: int)
    requires
        0 <= from,
    ensures
        next_occurrence(s, pat, from) matches Some(i) ==> occurs_at(s, pat, i),
    decreases s.len() + 1 - from,
{
    if from <= s.len() && !occurs_at(s, pat, from) {
        lemma_found_text(s, pat, from + 1);
    }
}

/// No part of a name is empty.
pub proof fn no_part_is_empty(s: Seq<char>)
    ensures
        forall|i: int| 0 <= i < segments(s).len() ==> #[trigger] segments(s)[i].text.len() > 0,
{
    lemma_no_empty_part(s, 0, 0);
}

/// What is found lies behind `from` and within the text.
pub proof fn next_occurrence_is_in_range(s: Seq<char>, pat: Seq<char>, from: int)
    requires
        0 <= from,
    ensures
        next_occurrence(s, pat, from) matches Some(i) ==> from <= i && i + pat.len() <= s.len(),
    decreases s.len() + 1 - from,
{
    if from <= s.len() && !occurs_at(s, pat, from) {
        next_occurrence_is_in_range(s, pat, from + 1);
    }
}

proof fn lemma_no_empty_part(s: Seq<char>, start: int, cursor: int)
    requires
        0 <= start <= cursor,
    ensures
        forall|i: int|
            0 <= i < segments_from(s, start, cursor).len() ==> #[trigger] segments_from(s, start, cursor)[i].text.len()
                > 0,
    decreases s.len() - cursor,
{
    if cursor < s.len() {
        if s[cursor] != '*' {
            lemma_no_empty_part(s, start, cursor + 1);
        } else {
            let n = stars_at(s, cursor);
            let open = cursor + n;
            next_occurrence_is_in_range(s, stars(n), open);
            match next_occurrence(s, stars(n), open) {
                Some(close) => {
                    if close == open {
                        lemma_no_empty_part(s, start, open);
                    } else {
                        let front = plain(s, start, cursor) + seq![
                            Segment { text: s.subrange(open, close), accent: Some(accent_of(n)) },
                        ];
                        let rest = segments_from(s, close + n, close + n);
                        lemma_no_empty_part(s, close + n, close + n);
                        assert forall|i: int|
                            0 <= i < segments_from(s, start, cursor).len() implies #[trigger] segments_from(
                            s,
                            start,
                            cursor,
                        )[i].text.len() > 0 by {
                            if i >= front.len() {
                                assert(segments_from(s, start, cursor)[i] == rest[i - front.len()]);
                            }
                        }
                    }
                },
                None => lemma_no_empty_part(s, start, open),
            }
        }
    }
}

// ---------------------------------------------------------------------------------------
// The frame-generation marker

/// The marker stands at position `i` with no letter or digit beside it.
pub open spec fn is_fg_tag(s: Seq<char>, i: int) -> bool {
    &&& 0 <= i && i + 1 < s.len() && s[i] == 'F' && s[i + 1] == 'G'
    &&& i > 0 ==> !unicode_alphanumeric(s[i - 1])
    &&& i + 2 < s.len() ==> !unicode_alphanumeric(s[i + 2])
}

/// The number of bytes of a character in UTF-8.
pub open spec fn utf8_width(c: char) -> nat {
    let n = c as u32;
    if n < 0x80 {
        1
    } else if n < 0x800 {
        2
    } else if n < 0x10000 {
        3
    } else {
        4
    }
}

/// The number of bytes of a text in UTF-8.
pub open spec fn utf8_size(s: Seq<char>) -> nat
    decreases s.len(),
{
    if s.len() == 0 {
        0
    } else {
        utf8_size(s.drop_last()) + utf8_width(s.last())
    }
}

/// The byte positions of the first standalone marker of a name. A name's size in bytes is at
/// most `isize::MAX`, as that of every string.
pub fn preset_fg_tag_range(name: &str) -> (r: Option<std::ops::Range<usize>>)
    requires
        utf8_size(name@) <= isize::MAX,
    ensures
        match r {
            Some(range) => exists|i: int|
                #[trigger] is_fg_tag(name@, i) && range.start == utf8_size(name@.take(i)) && range.end
                    == range.start + 2 && (forall|j: int| 0 <= j < i ==> !#[trigger] is_fg_tag(name@, j)),
            None => forall|j: int| !#[trigger] is_fg_tag(name@, j),
        },
{
    let v = chars_of(name);
    let mut offset: usize = 0;
    let mut i: usize = 0;
    while i < v.len()
        invariant
            v@ == name@,
            i <= v@.len(),
            utf8_size(name@) <= isize::MAX,
            offset == utf8_size(name@.take(i as int)),
            forall|j: int| 0 <= j < i ==> !#[trigger] is_fg_tag(name@, j),
        decreases v@.len() - i,
    {
        proof {
            lemma_utf8_size_grows(name@, i + 1);
            assert(name@.take(i + 1).drop_last() =~= name@.take(i as int));
        }
        if v[i] == 'F' && i + 1 < v.len() && v[i + 1] == 'G' {
            let before_ok = i == 0 || !is_alphanumeric(v[i - 1]);
            let after_ok = i + 2 >= v.len() || !is_alphanumeric(v[i + 2]);
            if before_ok && after_ok {
                proof {
                    lemma_utf8_size_grows(name@, i + 2);
                    assert(name@.take(i + 2).drop_last() =~= name@.take(i + 1));
                    assert(is_fg_tag(name@, i as int));
                }
                return Some(offset..offset + 2);
            }
        }
        let n: u32 = v[i] as u32;
        let width: usize = if n < 0x80 {
            1
        } else if n < 0x800 {
            2
        } else if n < 0x10000 {
            3
        } else {
            4
        };
        assert(width == utf8_width(name@[i as int]));
        offset += width;
        i += 1;
    }
    None
}

proof fn lemma_utf8_size_grows(s: Seq<char>, i: int)
    requires
        0 <= i <= s.len(),
    ensures
        utf8_size(s.take(i)) <= utf8_size(s),
    decreases s.len() - i,
{
    if i < s.len() {
        lemma_utf8_size_grows(s, i + 1);
        assert(s.take(i + 1).drop_last() =~= s.take(i));
    } else {
        assert(s.take(i) =~= s);
    }
}

// ---------------------------------------------------------------------------------------
// A name as it is drawn

/// How a run of characters is drawn.
#[derive(Clone, Copy, Debug, PartialEq, Eq, Structural)]
pub enum NameStyle {
    Normal,
    Accent(PresetNameAccent),
    Badge,
}

/// A run of characters drawn in one style.
#[derive(Debug, PartialEq, Eq)]
pub struct NameRun {
    pub text: String,
    pub style: NameStyle,
}

/// A run as a mathematical value.
pub struct Run {
    pub text: Seq<char>,
    pub style: NameStyle,
}

impl View for NameRun {
    type V = Run;

    open spec fn view(&self) -> Run {
        Run { text: self.text@, style: self.style }
    }
}

/// The first standalone marker at or behind `from`.
pub open spec fn first_fg_tag(s: Seq<char>, from: int) -> Option<int>
    decreases s.len() - from,
{
    if from >= s.len() {
        None
    } else if is_fg_tag(s, from) {
        Some(from)
    } else {
        first_fg_tag(s, from + 1)
    }
}

/// The runs of one part of a name: an emphasised part is one run, and the marker in a plain
/// part is drawn as a badge.
pub open spec fn segment_runs(part: Segment) -> Seq<Run> {
    match part.accent {
        Some(accent) => seq![Run { text: part.text, style: NameStyle::Accent(accent) }],
        None => match first_fg_tag(part.text, 0) {
            Some(i) => seq![
                Run { text: part.text.take(i), style: NameStyle::Normal },
                Run { text: "FG"@, style: NameStyle::Badge },
                Run { text: part.text.skip(i + 2), style: NameStyle::Normal },
            ],
            None => seq![Run { text: part.text, style: NameStyle::Normal }],
        },
    }
}

/// The runs of the parts of a name.
pub open spec fn runs_of(parts: Seq<Segment>) -> Seq<Run>
    decreases parts.len(),
{
    if parts.len() == 0 {
        Seq::empty()
    } else {
        runs_of(parts.drop_last()) + segment_runs(parts.last())
    }
}

/// The runs in which a preset name is drawn.
pub open spec fn name_runs(name: Seq<char>) -> Seq<Run> {
    runs_of(segments(name))
}

pub open spec fn run_views(runs: Seq<NameRun>) -> Seq<Run> {
    runs.map_values(|r: NameRun| r@)
}

/// All the characters of some runs.
pub open spec fn run_text(runs: Seq<Run>) -> Seq<char>
    decreases runs.len(),
{
    if runs.len() == 0 {
        Seq::empty()
    } else {
        run_text(runs.drop_last()) + runs.last().text
    }
}

/// Where the first standalone marker stands, counted in characters.
fn fg_tag_position(v: &Vec<char>) -> (r: Option<usize>)
    ensures
        match r {
            Some(i) => first_fg_tag(v@, 0) == Some(i as int) && is_fg_tag(v@, i as int),
            None => first_fg_tag(v@, 0) is None,
        },
{
    let mut i: usize = 0;
    while i < v.len()
        invariant
            i <= v@.len(),
            first_fg_tag(v@, 0) == first_fg_tag(v@, i as int),
        decreases v@.len() - i,
    {
        if v[i] == 'F' && i + 1 < v.len() && v[i + 1] == 'G' {
            let before_ok = i == 0 || !is_alphanumeric(v[i - 1]);
            let after_ok = i + 2 >= v.len() || !is_alphanumeric(v[i + 2]);
            if before_ok && after_ok {
                assert(is_fg_tag(v@, i as int));
                return Some(i);
            }
        }
        assert(!is_fg_tag(v@, i as int));
        i += 1;
    }
    None
}

fn push_segment_runs(runs: &mut Vec<NameRun>, text: &str, accent: Option<PresetNameAccent>)
    ensures
        run_views(final(runs)@) == run_views(old(runs)@) + segment_runs(Segment { text: text@, accent }),
{
    let ghost before = run_views(runs@);
    match accent {
        Some(accent) => {
            runs.push(NameRun { text: text.to_owned(), style: NameStyle::Accent(accent) });
            assert(run_views(runs@) =~= before + seq![Run { text: text@, style: NameStyle::Accent(accent) }]);
        },
        None => {
            let v = chars_of(text);
            match fg_tag_position(&v) {
                Some(i) => {
                    let front = string_of(v.as_slice(), 0, i);
                    let back = string_of(v.as_slice(), i + 2, v.len());
                    assert(front@ =~= text@.take(i as int));
                    assert(back@ =~= text@.skip(i + 2));
                    runs.push(NameRun { text: front, style: NameStyle::Normal });
                    runs.push(NameRun { text: "FG".to_owned(), style: NameStyle::Badge });
                    runs.push(NameRun { text: back, style: NameStyle::Normal });
                    assert(run_views(runs@) =~= before + segment_runs(Segment { text: text@, accent: None }));
                },
                None => {
                    runs.push(NameRun { text: text.to_owned(), style: NameStyle::Normal });
                    assert(run_views(runs@) =~= before + segment_runs(Segment { text: text@, accent: None }));
                },
            }
        },
    }
}

/// The runs in which a preset name is drawn: the asterisks are left out, emphasised parts are
/// coloured, and the first marker of a plain part is a badge.
pub fn preset_name_job(name: &str) -> (runs: Vec<NameRun>)
    ensures
        run_views(runs@) == name_runs(name@),
{
    let parts = preset_markup_segments(name);
    let ghost all = segment_views(parts@);
    let mut runs: Vec<NameRun> = Vec::new();
    let mut i: usize = 0;
    assert(run_views(runs@) =~= runs_of(all.take(0)));
    while i < parts.len()
        invariant
            i <= parts@.len(),
            all == segment_views(parts@),
            run_views(runs@) == runs_of(all.take(i as int)),
        decreases parts@.len() - i,
    {
        let (text, accent) = parts[i];
        assert(all[i as int] == Segment { text: text@, accent });
        assert(all.take(i + 1).drop_last() =~= all.take(i as int));
        push_segment_runs(&mut runs, text, accent);
        i += 1;
    }
    assert(all.take(i as int) =~= all);
    runs
}

/// The badge changes no character: a part of a name reads the same in its runs.
pub proof fn a_badge_changes_no_text(part: Segment)
    ensures
        run_text(segment_runs(part)) == part.text,
{
    let runs = segment_runs(part);
    reveal_with_fuel(run_text, 4);
    if part.accent is None && first_fg_tag(part.text, 0) is Some {
        reveal_strlit("FG");
        lemma_first_fg_tag(part.text, 0);
        let i = first_fg_tag(part.text, 0)->0;
        assert(part.text.subrange(i, i + 2) =~= "FG"@);
        assert(runs.drop_last().drop_last().drop_last() =~= Seq::<Run>::empty());
        assert(run_text(runs) =~= part.text.take(i) + "FG"@ + part.text.skip(i + 2));
        assert(part.text =~= part.text.take(i) + "FG"@ + part.text.skip(i + 2));
    } else {
        assert(runs.drop_last() =~= Seq::<Run>::empty());
        assert(run_text(runs) =~= part.text);
    }
}

proof fn lemma_first_fg_tag(s: Seq<char>, from: int)
    ensures
        first_fg_tag(s, from) matches Some(i) ==> from <= i && is_fg_tag(s, i),
    decreases s.len() - from,
{
    if from < s.len() && !is_fg_tag(s, from) {
        lemma_first_fg_tag(s, from + 1);
    }
}

// ---------------------------------------------------------------------------------------
// What the markup is for

/// A word between equal numbers of asterisks has the colour of that number: one is gold, two are
/// cyan, three are red; what stands before it is plain, and what stands after it is read in turn.
pub proof fn asterisks_colour_what_stands_between(before: Seq<char>, word: Seq<char>, n: int)
    requires
        1 <= n <= 3,
        word.len() > 0,
        forall|i: int| 0 <= i < before.len() ==> #[trigger] before[i] != '*',
        forall|i: int| 0 <= i < word.len() ==> #[trigger] word[i] != '*',
    ensures
        ({
            let s = before + stars(n) + word + stars(n);
            let parts = segments(s);
            let coloured = Segment {
                text: word,
                accent: Some(
                    if n == 1 {
                        PresetNameAccent::Gold
                    } else if n == 2 {
                        PresetNameAccent::Cyan
                    } else {
                        PresetNameAccent::Red
                    },
                ),
            };
            &&& before.len() == 0 ==> parts == seq![coloured]
            &&& before.len() > 0 ==> parts == seq![Segment { text: before, accent: None }, coloured]
        }),
{
    let s = before + stars(n) + word + stars(n);
    let at = before.len() as int;
    lemma_plain_run(s, 0, 0, at);
    assert(s[at] == '*');
    assert(s[at + n] == word[0]);
    assert(stars_at(s, at) == n) by {
        if n >= 2 {
            assert(s[at + 1] == '*');
        }
        if n >= 3 {
            assert(s[at + 2] == '*');
        }
    }
    let open = at + n;
    let close = open + word.len();
    lemma_next_stars(s, n, open, close);
    assert(s.subrange(open, close) =~= word);
    assert(s.subrange(0, at) =~= before);
    assert(close + n == s.len());
    assert(segments_from(s, close + n, close + n) =~= Seq::<Segment>::empty());
    let coloured = Segment { text: word, accent: Some(accent_of(n)) };
    assert(segments_from(s, 0, at) == plain(s, 0, at) + seq![coloured] + segments_from(s, close + n, close + n));
    assert(plain(s, 0, at) + seq![coloured] + Seq::<Segment>::empty() =~= plain(s, 0, at) + seq![coloured]);
    if at == 0 {
        assert(segments(s) =~= seq![coloured]);
    } else {
        assert(segments(s) =~= seq![Segment { text: before, accent: None }, coloured]);
    }
}

proof fn lemma_plain_run(s: Seq<char>, start: int, cursor: int, to: int)
    requires
        0 <= start <= cursor <= to <= s.len(),
        forall|i: int| cursor <= i < to ==> #[trigger] s[i] != '*',
    ensures
        segments_from(s, start, cursor) == segments_from(s, start, to),
    decreases to - cursor,
{
    if cursor < to {
        lemma_plain_run(s, start, cursor + 1, to);
    }
}

proof fn lemma_next_stars(s: Seq<char>, n: int, from: int, close: int)
    requires
        1 <= n <= 3,
        0 <= from <= close,
        close + n == s.len(),
        forall|i: int| from <= i < close ==> #[trigger] s[i] != '*',
        forall|i: int| close <= i < s.len() ==> #[trigger] s[i] == '*',
    ensures
        next_occurrence(s, stars(n), from) == Some(close),
    decreases close - from,
{
    if from < close {
        assert(!occurs_at(s, stars(n), from)) by {
            if occurs_at(s, stars(n), from) {
                assert(s.subrange(from, from + n)[0] == stars(n)[0]);
                assert(s[from] == '*');
            }
        }
        lemma_next_stars(s, n, from + 1, close);
    } else {
        assert(s.subrange(close, close + n) =~= stars(n));
    }
}

/// The badge is the word by itself, in capital letters: no letter or digit touches it.
pub proof fn the_badge_is_a_word_by_itself(s: Seq<char>, i: int)
    ensures
        is_fg_tag(s, i) <==> 0 <= i && i + 1 < s.len() && s[i] == 'F' && s[i + 1] == 'G' && (i == 0
            || !unicode_alphanumeric(s[i - 1])) && (i + 2 >= s.len() || !unicode_alphanumeric(s[i + 2])),
{
}

/// The first badge of a plain part is shown as one, with what stands before and after it; a part
/// without one, and a coloured part, is shown as it is.
pub proof fn a_part_is_shown_with_its_badge(part: Segment, i: int)
    ensures
        part.accent matches Some(accent) ==> segment_runs(part) == seq![
            Run { text: part.text, style: NameStyle::Accent(accent) },
        ],
        part.accent is None && is_fg_tag(part.text, i) && (forall|j: int|
            0 <= j < i ==> !#[trigger] is_fg_tag(part.text, j)) ==> segment_runs(part) == seq![
            Run { text: part.text.take(i), style: NameStyle::Normal },
            Run { text: "FG"@, style: NameStyle::Badge },
            Run { text: part.text.skip(i + 2), style: NameStyle::Normal },
        ],
        part.accent is None && (forall|j: int| 0 <= j < part.text.len() ==> !#[trigger] is_fg_tag(part.text, j))
            ==> segment_runs(part) == seq![Run { text: part.text, style: NameStyle::Normal }],
{
    if part.accent is None {
        if is_fg_tag(part.text, i) && (forall|j: int| 0 <= j < i ==> !#[trigger] is_fg_tag(part.text, j)) {
            lemma_first_tag(part.text, 0, i);
        }
        if forall|j: int| 0 <= j < part.text.len() ==> !#[trigger] is_fg_tag(part.text, j) {
            lemma_no_tag(part.text, 0);
        }
    }
}

proof fn lemma_first_tag(s: Seq<char>, from: int, i: int)
    requires
        0 <= from <= i,
        is_fg_tag(s, i),
        forall|j: int| from <= j < i ==> !#[trigger] is_fg_tag(s, j),
    ensures
        first_fg_tag(s, from) == Some(i),
    decreases i - from,
{
    if from < i {
        lemma_first_tag(s, from + 1, i);
    }
}

proof fn lemma_no_tag(s: Seq<char>, from: int)
    requires
        0 <= from,
        forall|j: int| from <= j < s.len() ==> !#[trigger] is_fg_tag(s, j),
    ensures
        first_fg_tag(s, from) is None,
    decreases s.len() - from,
{
    if from < s.len() {
        lemma_no_tag(s, from + 1);
    }
}

/// The parts of a name are shown one after the other.
pub proof fn parts_are_shown_in_order(parts: Seq<Segment>, next: Segment)
    ensures
        runs_of(parts.push(next)) == runs_of(parts) + segment_runs(next),
        runs_of(Seq::empty()).len() == 0,
{
    assert(parts.push(next).drop_last() =~= parts);
}

/// The length of a text in bytes: one for each character of the first hundred and twenty-eight, and
/// up to four for the others.
pub proof fn characters_have_their_length_in_bytes(s: Seq<char>, c: char)
    ensures
        utf8_size(s.push(c)) == utf8_size(s) + utf8_width(c),
        utf8_size(Seq::empty()) == 0,
        (c as u32) < 0x80 ==> utf8_width(c) == 1,
        0x80 <= (c as u32) < 0x800 ==> utf8_width(c) == 2,
        0x800 <= (c as u32) < 0x10000 ==> utf8_width(c) == 3,
        0x10000 <= (c as u32) ==> utf8_width(c) == 4,
{
    assert(s.push(c).drop_last() =~= s);
}

} // verus!
