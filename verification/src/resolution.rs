//! Capture resolution: its spelling, the sizes offered, fitting it to a source that keeps its
//! own aspect, and applying it to the source window.
use vstd::prelude::*;
use crate::backend::CaptureCrop;
use crate::text::{
    chars_of, contains, eq_ignore_ascii_case, parse_unsigned, push_decimal, same_text, split_once, string_of,
    to_lowercase, trim,
};
use crate::text::{
    contains_text, cut_at, decimal, lower_text, trimmed, unicode_lowercase, unsigned_value,
};

verus! {

/// A capture size in pixels.
#[derive(Clone, Copy, Debug, PartialEq, Eq, Structural)]
pub struct CaptureResolution {
    pub w: u32,
    pub h: u32,
}

/// The smallest and the largest sizes that can be asked for.
pub const MIN_CAPTURE_WIDTH: u32 = 160;
pub const MIN_CAPTURE_HEIGHT: u32 = 120;
pub const MAX_CAPTURE_WIDTH: u32 = 7680;
pub const MAX_CAPTURE_HEIGHT: u32 = 4320;

// ---------------------------------------------------------------------------------------
// Spelling

/// The label of a size; `auto` is the label of the automatic choice in the window's language.
pub open spec fn resolution_label(v: Option<CaptureResolution>, auto: Seq<char>) -> Seq<char> {
    match v {
        Some(r) => {
            let size = decimal(r.w as nat) + "x"@ + decimal(r.h as nat);
            if r.w * 3 == r.h * 4 {
                size + " (4:3)"@
            } else {
                size
            }
        },
        None => auto,
    }
}

pub fn capture_resolution_label(v: Option<CaptureResolution>, auto: &str) -> (label: String)
    ensures
        label@ == resolution_label(v, auto@),
{
    match v {
        Some(r) => {
            let mut label = String::new();
            push_decimal(&mut label, r.w as u64);
            label.append("x");
            push_decimal(&mut label, r.h as u64);
            if r.w as u64 * 3 == r.h as u64 * 4 {
                label.append(" (4:3)");
            }
            assert(label@ =~= resolution_label(v, auto@));
            label
        },
        None => auto.to_owned(),
    }
}

/// The signs that separate width from height all become an x.
pub open spec fn with_plain_cross(s: Seq<char>) -> Seq<char> {
    s.map_values(
        |c: char|
            if c == '\u{d7}' || c == 'X' || c == '\u{ff0a}' || c == '*' {
                'x'
            } else {
                c
            },
    )
}

pub open spec fn clamped(n: nat, low: u32, high: u32) -> u32 {
    if n < low {
        low
    } else if n > high {
        high
    } else {
        n as u32
    }
}

/// `s` without the given ending.
pub open spec fn without_suffix(s: Seq<char>, suffix: Seq<char>) -> Seq<char> {
    if suffix.is_suffix_of(s) {
        s.take(s.len() - suffix.len())
    } else {
        s
    }
}

/// What a spelling means: `Some(None)` is the automatic choice, `None` is no size at all.
pub open spec fn resolution_of(text: Seq<char>) -> Option<Option<CaptureResolution>> {
    let s = trimmed(text);
    if s.len() == 0 || lower_text(s) == lower_text("auto"@) || lower_text(s) == lower_text("none"@) || s
        == "\u{81ea}\u{52d5}"@ {
        Some(None)
    } else {
        match cut_at(with_plain_cross(trimmed(without_suffix(s, "(4:3)"@))), 'x') {
            None => None,
            Some(cut) => match (
                unsigned_value(trimmed(cut.before), u32::MAX as nat),
                unsigned_value(trimmed(cut.after), u32::MAX as nat),
            ) {
                (Some(w), Some(h)) => Some(
                    Some(
                        CaptureResolution {
                            w: clamped(w, MIN_CAPTURE_WIDTH, MAX_CAPTURE_WIDTH),
                            h: clamped(h, MIN_CAPTURE_HEIGHT, MAX_CAPTURE_HEIGHT),
                        },
                    ),
                ),
                _ => None,
            },
        }
    }
}

fn clamp_u32(n: u64, low: u32, high: u32) -> (r: u32)
    requires
        n <= u32::MAX,
        low <= high,
    ensures
        r == clamped(n as nat, low, high),
{
    if n < low as u64 {
        low
    } else if n > high as u64 {
        high
    } else {
        n as u32
    }
}

/// Reads a capture size.
pub fn parse_capture_resolution(text: &str) -> (r: Option<Option<CaptureResolution>>)
    ensures
        r == resolution_of(text@),
{
    let s = trim(text);
    if s.is_empty() || eq_ignore_ascii_case(s, "auto") || eq_ignore_ascii_case(s, "none") || same_text(
        s,
        "\u{81ea}\u{52d5}",
    ) {
        return Some(None);
    }
    let v = chars_of(s);
    let suffix = chars_of("(4:3)");
    let n: usize = v.len();
    let m: usize = suffix.len();
    let mut end: usize = n;
    if m <= n && crate::text::matches_at(v.as_slice(), suffix.as_slice(), n - m) {
        end = n - m;
        assert(suffix@ =~= s@.subrange(n - m, n as int));
    }
    let kept = string_of(v.as_slice(), 0, end);
    proof {
        if suffix@.is_suffix_of(s@) {
            assert(suffix@ =~= s@.subrange(n - m, n as int));
            assert(crate::text::occurs_at(s@, suffix@, n - m));
        }
        assert(kept@ =~= without_suffix(s@, "(4:3)"@));
    }
    let inner = trim(kept.as_str());
    let mut crossed = String::new();
    for c in it: inner.chars()
        invariant
            it.seq() == inner@,
            crossed@ == with_plain_cross(inner@.take(it.index() as int)),
    {
        let ghost before = crossed@;
        if c == '\u{d7}' || c == 'X' || c == '\u{ff0a}' || c == '*' {
            crossed.push('x');
        } else {
            crossed.push(c);
        }
        assert(with_plain_cross(inner@.take(it.index() + 1)) =~= before.push(crossed@.last()));
    }
    assert(inner@.take(inner@.len() as int) =~= inner@);
    match split_once(crossed.as_str(), 'x') {
        None => None,
        Some((a, b)) => {
            let w: u64 = match parse_unsigned(trim(a), u32::MAX as u64) {
                Some(w) => w,
                None => return None,
            };
            let h: u64 = match parse_unsigned(trim(b), u32::MAX as u64) {
                Some(h) => h,
                None => return None,
            };
            Some(
                Some(
                    CaptureResolution {
                        w: clamp_u32(w, MIN_CAPTURE_WIDTH, MAX_CAPTURE_WIDTH),
                        h: clamp_u32(h, MIN_CAPTURE_HEIGHT, MAX_CAPTURE_HEIGHT),
                    },
                ),
            )
        },
    }
}

pub open spec fn in_capture_range(r: CaptureResolution) -> bool {
    MIN_CAPTURE_WIDTH <= r.w <= MAX_CAPTURE_WIDTH && MIN_CAPTURE_HEIGHT <= r.h <= MAX_CAPTURE_HEIGHT
}

/// Every size that is read lies within the limits.
pub proof fn parsed_sizes_are_in_range(text: Seq<char>)
    ensures
        resolution_of(text) matches Some(Some(r)) ==> in_capture_range(r),
{
}

proof fn lemma_digits_have_no_cross(n: nat)
    ensures
        decimal(n).len() > 0,
        forall|i: int| 0 <= i < decimal(n).len() ==> '0' <= #[trigger] decimal(n)[i] <= '9',
    decreases n,
{
    if n >= 10 {
        lemma_digits_have_no_cross(n / 10);
        assert forall|i: int| 0 <= i < decimal(n).len() implies '0' <= #[trigger] decimal(n)[i] <= '9' by {
            if i < decimal(n / 10).len() {
                assert(decimal(n)[i] == decimal(n / 10)[i]);
            }
        }
    }
}

proof fn lemma_cut_at_cross(a: Seq<char>, b: Seq<char>)
    requires
        forall|i: int| 0 <= i < a.len() ==> #[trigger] a[i] != 'x',
    ensures
        cut_at(a + seq!['x'] + b, 'x') == Some(crate::text::Cut { before: a, after: b }),
    decreases a.len(),
{
    let whole = a + seq!['x'] + b;
    if a.len() == 0 {
        assert(whole.skip(1) =~= b);
        assert(a =~= Seq::<char>::empty());
    } else {
        assert(whole[0] == a[0]);
        assert(whole.skip(1) =~= a.skip(1) + seq!['x'] + b);
        assert forall|i: int| 0 <= i < a.skip(1).len() implies #[trigger] a.skip(1)[i] != 'x' by {
            assert(a[i + 1] != 'x');
        }
        lemma_cut_at_cross(a.skip(1), b);
        assert(seq![a[0]] + a.skip(1) =~= a);
    }
}

proof fn lemma_digits_are_trimmed(d: Seq<char>)
    requires
        d.len() > 0,
        forall|i: int| 0 <= i < d.len() ==> '0' <= #[trigger] d[i] <= '9',
    ensures
        trimmed(d) == d,
{
    assert('0' <= d[0] <= '9');
    assert('0' <= d[d.len() - 1] <= '9');
}

/// The label of a size within the limits reads back as that size, with or without the note
/// on its aspect.
pub proof fn labels_read_back(r: CaptureResolution, auto: Seq<char>)
    requires
        in_capture_range(r),
    ensures
        resolution_of(resolution_label(Some(r), auto)) == Some(Some(r)),
{
    reveal_strlit("x");
    reveal_strlit(" (4:3)");
    reveal_strlit("(4:3)");
    reveal_strlit("auto");
    reveal_strlit("none");
    reveal_strlit("\u{81ea}\u{52d5}");
    let w = decimal(r.w as nat);
    let h = decimal(r.h as nat);
    lemma_digits_have_no_cross(r.w as nat);
    lemma_digits_have_no_cross(r.h as nat);
    crate::text::decimal_notation_round_trips(r.w as nat, u32::MAX as nat);
    crate::text::decimal_notation_round_trips(r.h as nat, u32::MAX as nat);
    let size = w + "x"@ + h;
    let label = resolution_label(Some(r), auto);
    assert("x"@ =~= seq!['x']);
    assert(label[0] == w[0]);
    assert('0' <= w[0] <= '9');
    assert(size.last() == h.last());
    assert('0' <= h[h.len() - 1] <= '9');
    let s = trimmed(label);
    assert(s == label) by {
        assert(label.last() == ')' || label.last() == h.last());
    }
    assert(lower_text(s)[0] == w[0]);
    assert(lower_text("auto"@)[0] == 'a');
    assert(lower_text("none"@)[0] == 'n');
    assert("\u{81ea}\u{52d5}"@[0] == '\u{81ea}');
    let kept = without_suffix(s, "(4:3)"@);
    if r.w * 3 == r.h * 4 {
        assert(" (4:3)"@ =~= seq![' '] + "(4:3)"@);
        assert(s =~= (size + seq![' ']) + "(4:3)"@);
        assert("(4:3)"@ =~= s.subrange(s.len() - 5, s.len() as int));
        assert(kept =~= size.push(' '));
        let t = size.push(' ');
        assert(t[0] == w[0]);
        assert(crate::text::trimmed_start(t) == t);
        assert(t.drop_last() =~= size);
        assert(crate::text::trimmed_end(t) == crate::text::trimmed_end(size));
        assert(crate::text::trimmed_end(size) == size);
    } else {
        assert(!"(4:3)"@.is_suffix_of(s)) by {
            if "(4:3)"@.is_suffix_of(s) {
                assert("(4:3)"@.last() == s.last());
            }
        }
        assert(kept == size);
        assert(crate::text::trimmed_start(size) == size) by {
            assert(size[0] == w[0]);
        }
        assert(crate::text::trimmed_end(size) == size);
    }
    assert(trimmed(kept) == size);
    assert forall|i: int| 0 <= i < size.len() implies with_plain_cross(size)[i] == size[i] by {
        if i < w.len() {
            assert(size[i] == w[i]);
        } else if i > w.len() {
            assert(size[i] == h[i - w.len() - 1]);
        }
    }
    assert(with_plain_cross(size) =~= size);
    assert forall|i: int| 0 <= i < w.len() implies #[trigger] w[i] != 'x' by {}
    lemma_cut_at_cross(w, h);
    assert(size =~= w + seq!['x'] + h);
    lemma_digits_are_trimmed(w);
    lemma_digits_are_trimmed(h);
}

/// The sizes offered, from the automatic choice upwards.
pub fn capture_resolution_presets() -> (presets: [Option<CaptureResolution>; 13])
    ensures
        presets@ == seq![
            None,
            Some(CaptureResolution { w: 480, h: 360 }),
            Some(CaptureResolution { w: 640, h: 360 }),
            Some(CaptureResolution { w: 640, h: 480 }),
            Some(CaptureResolution { w: 768, h: 576 }),
            Some(CaptureResolution { w: 854, h: 480 }),
            Some(CaptureResolution { w: 960, h: 540 }),
            Some(CaptureResolution { w: 960, h: 720 }),
            Some(CaptureResolution { w: 1152, h: 648 }),
            Some(CaptureResolution { w: 1280, h: 720 }),
            Some(CaptureResolution { w: 1440, h: 810 }),
            Some(CaptureResolution { w: 1600, h: 900 }),
            Some(CaptureResolution { w: 1920, h: 1080 }),
        ],
{
    let presets = [
        None,
        Some(CaptureResolution { w: 480, h: 360 }),
        Some(CaptureResolution { w: 640, h: 360 }),
        Some(CaptureResolution { w: 640, h: 480 }),
        Some(CaptureResolution { w: 768, h: 576 }),
        Some(CaptureResolution { w: 854, h: 480 }),
        Some(CaptureResolution { w: 960, h: 540 }),
        Some(CaptureResolution { w: 960, h: 720 }),
        Some(CaptureResolution { w: 1152, h: 648 }),
        Some(CaptureResolution { w: 1280, h: 720 }),
        Some(CaptureResolution { w: 1440, h: 810 }),
        Some(CaptureResolution { w: 1600, h: 900 }),
        Some(CaptureResolution { w: 1920, h: 1080 }),
    ];
    assert(presets@ =~= seq![
        None,
        Some(CaptureResolution { w: 480, h: 360 }),
        Some(CaptureResolution { w: 640, h: 360 }),
        Some(CaptureResolution { w: 640, h: 480 }),
        Some(CaptureResolution { w: 768, h: 576 }),
        Some(CaptureResolution { w: 854, h: 480 }),
        Some(CaptureResolution { w: 960, h: 540 }),
        Some(CaptureResolution { w: 960, h: 720 }),
        Some(CaptureResolution { w: 1152, h: 648 }),
        Some(CaptureResolution { w: 1280, h: 720 }),
        Some(CaptureResolution { w: 1440, h: 810 }),
        Some(CaptureResolution { w: 1600, h: 900 }),
        Some(CaptureResolution { w: 1920, h: 1080 }),
    ]);
    presets
}

/// What leaving the size field does.
pub struct ResolutionEdit {
    pub value: Option<CaptureResolution>,
    pub text: String,
    pub changed: bool,
}

/// Takes over the text of the size field. A text that is no size is left standing.
pub fn commit_resolution_text(current: Option<CaptureResolution>, text: &str, auto: &str) -> (edit: ResolutionEdit)
    ensures
        match resolution_of(text@) {
            Some(parsed) => edit.value == parsed && edit.changed == (parsed != current) && edit.text@
                == resolution_label(parsed, auto@),
            None => edit.value == current && !edit.changed && edit.text@ == text@,
        },
{
    match parse_capture_resolution(text) {
        Some(parsed) => {
            let changed = match (parsed, current) {
                (Some(a), Some(b)) => a != b,
                (None, None) => false,
                _ => true,
            };
            ResolutionEdit { value: parsed, text: capture_resolution_label(parsed, auto), changed }
        },
        None => ResolutionEdit { value: current, text: text.to_owned(), changed: false },
    }
}

/// Takes over a size of the list. Choosing always counts as a change.
pub fn pick_resolution(picked: Option<CaptureResolution>, auto: &str) -> (edit: ResolutionEdit)
    ensures
        edit.value == picked,
        edit.text@ == resolution_label(picked, auto@),
        edit.changed,
{
    ResolutionEdit { value: picked, text: capture_resolution_label(picked, auto), changed: true }
}

// ---------------------------------------------------------------------------------------
// Picture in picture

/// A title that marks a picture-in-picture window, given the title and its lower-case form.
pub open spec fn is_pip(title: Seq<char>, lower: Seq<char>) -> bool {
    ||| contains_text(
        title,
        "\u{30d4}\u{30af}\u{30c1}\u{30e3}\u{30fc} \u{30a4}\u{30f3} \u{30d4}\u{30af}\u{30c1}\u{30e3}\u{30fc}"@,
    )
    ||| contains_text(lower, "picture in picture"@)
    ||| contains_text(lower, "picture-in-picture"@)
}

/// Whether a title marks a picture-in-picture window, given its lower-case form.
pub fn is_pip_title(title: &str, lower: &str) -> (r: bool)
    ensures
        r == is_pip(title@, lower@),
{
    contains(
        title,
        "\u{30d4}\u{30af}\u{30c1}\u{30e3}\u{30fc} \u{30a4}\u{30f3} \u{30d4}\u{30af}\u{30c1}\u{30e3}\u{30fc}",
    ) || contains(lower, "picture in picture") || contains(lower, "picture-in-picture")
}

/// Whether a title marks a picture-in-picture window.
pub fn is_picture_in_picture_title(title: &str) -> (r: bool)
    ensures
        r == is_pip(title@, unicode_lowercase(title@)),
{
    let lower = to_lowercase(title);
    is_pip_title(title, lower.as_str())
}

// ---------------------------------------------------------------------------------------
// Fitting to an aspect

pub open spec fn round_up_to_even(n: u32) -> u32 {
    if n % 2 == 0 || n == u32::MAX {
        n
    } else {
        (n + 1) as u32
    }
}

pub open spec fn round_down_to_even(n: u32) -> u32 {
    (n - n % 2) as u32
}

pub open spec fn at_least(n: u32, low: u32) -> u32 {
    if n < low {
        low
    } else {
        n
    }
}

pub open spec fn at_most(n: u32, high: u32) -> u32 {
    if n > high {
        high
    } else {
        n
    }
}

/// The even range that the limits leave.
pub open spec fn even_low(min_value: u32) -> u32 {
    round_up_to_even(min_value)
}

pub open spec fn even_high(min_value: u32, max_value: u32) -> u32 {
    at_least(round_down_to_even(max_value), even_low(min_value))
}

/// The even sizes next to `value`, below and above, within the limits.
pub open spec fn even_neighbors(value: u32, min_value: u32, max_value: u32) -> (u32, u32) {
    let low = even_low(min_value);
    let high = even_high(min_value, max_value);
    let bounded = at_most(at_least(value, low), high);
    (
        at_most(at_least(round_down_to_even(bounded), low), high),
        at_most(at_least(round_up_to_even(bounded), low), high),
    )
}

fn even_down(n: u32) -> (r: u32)
    ensures
        r == round_down_to_even(n),
{
    n - n % 2
}

fn even_up(n: u32) -> (r: u32)
    ensures
        r == round_up_to_even(n),
{
    if n % 2 == 0 || n == u32::MAX {
        n
    } else {
        n + 1
    }
}

fn max_u32(a: u32, b: u32) -> (r: u32)
    ensures
        r == at_least(a, b),
{
    if a < b {
        b
    } else {
        a
    }
}

fn min_u32(a: u32, b: u32) -> (r: u32)
    ensures
        r == at_most(a, b),
{
    if a > b {
        b
    } else {
        a
    }
}

/// The even sizes next to a value.
pub fn even_capture_neighbors(value: u32, min_value: u32, max_value: u32) -> (r: (u32, u32))
    ensures
        r == even_neighbors(value, min_value, max_value),
{
    let low: u32 = even_up(min_value);
    let high: u32 = max_u32(even_down(max_value), low);
    let bounded: u32 = min_u32(max_u32(value, low), high);
    (min_u32(max_u32(even_down(bounded), low), high), min_u32(max_u32(even_up(bounded), low), high))
}

/// Below the largest odd number both neighbours are even, stay within the even limits, and
/// differ by at most two; a value within the limits lies between them.
pub proof fn neighbors_are_even_and_near(value: u32, min_value: u32, max_value: u32)
    requires
        min_value < u32::MAX,
    ensures
        ({
            let n = even_neighbors(value, min_value, max_value);
            let low = even_low(min_value);
            let high = even_high(min_value, max_value);
            &&& n.0 % 2 == 0 && n.1 % 2 == 0
            &&& low <= n.0 <= n.1 <= high
            &&& n.1 - n.0 <= 2
            &&& low <= value <= high ==> n.0 <= value <= n.1
        }),
{
}

/// The sizes that a fit may choose: the even neighbours of the proposed width and height that
/// do not exceed the limit, widths first.
pub open spec fn fit_grid(limit: CaptureResolution, proposed: CaptureResolution) -> Seq<CaptureResolution> {
    let w = even_neighbors(proposed.w, MIN_CAPTURE_WIDTH, at_least(limit.w, MIN_CAPTURE_WIDTH));
    let h = even_neighbors(proposed.h, MIN_CAPTURE_HEIGHT, at_least(limit.h, MIN_CAPTURE_HEIGHT));
    seq![
        CaptureResolution { w: w.0, h: h.0 },
        CaptureResolution { w: w.0, h: h.1 },
        CaptureResolution { w: w.1, h: h.0 },
        CaptureResolution { w: w.1, h: h.1 },
    ]
}

pub open spec fn is_allowed(limit: CaptureResolution, r: CaptureResolution) -> bool {
    r.w != 0 && r.h != 0 && r.w <= limit.w && r.h <= limit.h
}

/// The sizes of a list that do not exceed the limit.
pub open spec fn allowed_sizes(limit: CaptureResolution, sizes: Seq<CaptureResolution>) -> Seq<CaptureResolution>
    decreases sizes.len(),
{
    if sizes.len() == 0 {
        Seq::empty()
    } else if is_allowed(limit, sizes.last()) {
        allowed_sizes(limit, sizes.drop_last()).push(sizes.last())
    } else {
        allowed_sizes(limit, sizes.drop_last())
    }
}

/// The sizes that a fit compares, in the order in which it does.
pub fn fit_candidates(limit: CaptureResolution, proposed: CaptureResolution) -> (sizes: Vec<CaptureResolution>)
    ensures
        sizes@ == allowed_sizes(limit, fit_grid(limit, proposed)),
{
    let (w0, w1) = even_capture_neighbors(proposed.w, MIN_CAPTURE_WIDTH, max_u32(limit.w, MIN_CAPTURE_WIDTH));
    let (h0, h1) = even_capture_neighbors(proposed.h, MIN_CAPTURE_HEIGHT, max_u32(limit.h, MIN_CAPTURE_HEIGHT));
    let grid: [CaptureResolution; 4] = [
        CaptureResolution { w: w0, h: h0 },
        CaptureResolution { w: w0, h: h1 },
        CaptureResolution { w: w1, h: h0 },
        CaptureResolution { w: w1, h: h1 },
    ];
    assert(grid@ =~= fit_grid(limit, proposed));
    let mut sizes: Vec<CaptureResolution> = Vec::new();
    let mut i: usize = 0;
    assert(grid@.take(0) =~= Seq::empty());
    while i < 4
        invariant
            i <= 4,
            grid@.len() == 4,
            sizes@ == allowed_sizes(limit, grid@.take(i as int)),
        decreases 4 - i,
    {
        assert(grid@.take(i + 1).drop_last() =~= grid@.take(i as int));
        let r = grid[i];
        if r.w != 0 && r.h != 0 && r.w <= limit.w && r.h <= limit.h {
            sizes.push(r);
        }
        i += 1;
    }
    assert(grid@.take(4) =~= grid@);
    sizes
}

/// How the aspect of a candidate compares with that of the best size so far.
#[derive(Clone, Copy, Debug, PartialEq, Eq, Structural)]
pub enum AspectVerdict {
    Closer,
    Tied,
    Farther,
}

/// A search for the even size that keeps an aspect best. The comparison of two aspects is the
/// caller's; among tied aspects the larger area wins.
#[derive(Clone, Copy, Debug, PartialEq, Eq, Structural)]
pub struct FitSearch {
    pub best: CaptureResolution,
    pub best_area: u64,
}

/// The search before any candidate was looked at.
pub fn fit_search(limit: CaptureResolution, proposed: CaptureResolution) -> (search: FitSearch)
    ensures
        search.best == fit_grid(limit, proposed)[0],
        search.best_area == 0,
{
    let (w0, _) = even_capture_neighbors(proposed.w, MIN_CAPTURE_WIDTH, max_u32(limit.w, MIN_CAPTURE_WIDTH));
    let (h0, _) = even_capture_neighbors(proposed.h, MIN_CAPTURE_HEIGHT, max_u32(limit.h, MIN_CAPTURE_HEIGHT));
    FitSearch { best: CaptureResolution { w: w0, h: h0 }, best_area: 0 }
}

pub open spec fn area(r: CaptureResolution) -> int {
    r.w * r.h
}

pub open spec fn takes(search: FitSearch, candidate: CaptureResolution, verdict: AspectVerdict) -> bool {
    verdict == AspectVerdict::Closer || (verdict == AspectVerdict::Tied && area(candidate) > search.best_area)
}

impl FitSearch {
    /// Looks at one candidate and tells whether it is the best so far.
    pub fn consider(&mut self, candidate: CaptureResolution, verdict: AspectVerdict) -> (taken: bool)
        ensures
            taken == takes(*old(self), candidate, verdict),
            final(self).best == (if taken {
                candidate
            } else {
                old(self).best
            }),
            final(self).best_area == (if taken {
                area(candidate)
            } else {
                old(self).best_area as int
            }),
    {
        let w: u64 = candidate.w as u64;
        let h: u64 = candidate.h as u64;
        assert(w * h <= 0xffff_ffff * 0xffff_ffff) by (nonlinear_arith)
            requires
                w <= 0xffff_ffff,
                h <= 0xffff_ffff,
        ;
        let candidate_area: u64 = w * h;
        let closer = verdict == AspectVerdict::Closer;
        let larger = verdict == AspectVerdict::Tied && candidate_area > self.best_area;
        if closer || larger {
            self.best = candidate;
            self.best_area = candidate_area;
            true
        } else {
            false
        }
    }
}

/// Every size that a fit can choose is even and, where the limit leaves an even size at all,
/// within the limit.
pub proof fn fits_are_even(limit: CaptureResolution, proposed: CaptureResolution, i: int)
    requires
        0 <= i < 4,
    ensures
        fit_grid(limit, proposed)[i].w % 2 == 0,
        fit_grid(limit, proposed)[i].h % 2 == 0,
        fit_grid(limit, proposed)[i].w >= MIN_CAPTURE_WIDTH,
        fit_grid(limit, proposed)[i].h >= MIN_CAPTURE_HEIGHT,
        limit.w >= MIN_CAPTURE_WIDTH ==> fit_grid(limit, proposed)[i].w <= limit.w,
        limit.h >= MIN_CAPTURE_HEIGHT ==> fit_grid(limit, proposed)[i].h <= limit.h,
{
    neighbors_are_even_and_near(proposed.w, MIN_CAPTURE_WIDTH, at_least(limit.w, MIN_CAPTURE_WIDTH));
    neighbors_are_even_and_near(proposed.h, MIN_CAPTURE_HEIGHT, at_least(limit.h, MIN_CAPTURE_HEIGHT));
}

/// The size that a fit starts from: the limit itself if the source has its aspect, else the
/// source scaled into the limit, given as the scaled width and height.
pub fn proposed_fit(limit: CaptureResolution, same_aspect: bool, scaled_w: u32, scaled_h: u32) -> (r: CaptureResolution)
    ensures
        r == (if same_aspect {
            limit
        } else {
            CaptureResolution {
                w: at_most(at_least(scaled_w, MIN_CAPTURE_WIDTH), limit.w),
                h: at_most(at_least(scaled_h, MIN_CAPTURE_HEIGHT), limit.h),
            }
        }),
{
    if same_aspect {
        limit
    } else {
        CaptureResolution {
            w: min_u32(max_u32(scaled_w, MIN_CAPTURE_WIDTH), limit.w),
            h: min_u32(max_u32(scaled_h, MIN_CAPTURE_HEIGHT), limit.h),
        }
    }
}

// ---------------------------------------------------------------------------------------
// Applying

pub open spec fn counts_as_fullscreen(session_origin_fullscreen: Option<bool>, live_fullscreen: bool) -> bool {
    match session_origin_fullscreen {
        Some(origin) => origin,
        None => live_fullscreen,
    }
}

/// Whether a source counts as fullscreen: once a session has a snapshot of its origin, that
/// snapshot decides, since the live window may fill the screen only by the size applied to it.
pub fn capture_resolution_fullscreen_guard(session_origin_fullscreen: Option<bool>, live_fullscreen: bool) -> (r: bool)
    ensures
        r == counts_as_fullscreen(session_origin_fullscreen, live_fullscreen),
{
    match session_origin_fullscreen {
        Some(origin) => origin,
        None => live_fullscreen,
    }
}

/// What is known of the source when a size is to be applied.
#[derive(Clone, Copy, Debug, PartialEq, Eq, Structural)]
pub struct SourceFacts {
    pub hwnd: isize,
    pub valid: bool,
    /// The session runs or starts.
    pub session_active: bool,
    /// The engine's own view of a running session.
    pub session_live_fullscreen: bool,
    /// Whether the source filled its monitor when the session began.
    pub origin_fullscreen: Option<bool>,
    /// Whether the window fills its monitor now.
    pub window_fullscreen: bool,
}

pub open spec fn is_usable(source: SourceFacts) -> bool {
    source.hwnd != 0 && source.valid
}

/// Whether the size stays unused because the source is fullscreen.
pub open spec fn is_disabled(requested: Option<CaptureResolution>, source: SourceFacts) -> bool {
    requested is Some && is_usable(source) && (if source.session_active {
        source.session_live_fullscreen
    } else {
        match source.origin_fullscreen {
            Some(origin) => origin,
            None => source.window_fullscreen,
        }
    })
}

pub fn capture_resolution_disabled_for_target(requested: Option<CaptureResolution>, source: SourceFacts) -> (r: bool)
    ensures
        r == is_disabled(requested, source),
{
    if requested.is_none() || source.hwnd == 0 || !source.valid {
        return false;
    }
    if source.session_active {
        return source.session_live_fullscreen;
    }
    capture_resolution_fullscreen_guard(source.origin_fullscreen, source.window_fullscreen)
}

/// The size asked for and the size applied.
#[derive(Clone, Copy, Debug, PartialEq, Eq, Structural)]
pub struct ResolutionPlan {
    pub requested: CaptureResolution,
    pub applied: CaptureResolution,
}

/// The plan for a source: nothing without a size or a source; a picture-in-picture window gets
/// the size fitted to its own aspect, every other window the size itself. A crop plays no part.
pub open spec fn planned(
    requested: Option<CaptureResolution>,
    source: SourceFacts,
    pip: bool,
    fitted: CaptureResolution,
) -> Option<ResolutionPlan> {
    if requested is Some && is_usable(source) {
        Some(
            ResolutionPlan {
                requested: requested->0,
                applied: if pip {
                    fitted
                } else {
                    requested->0
                },
            },
        )
    } else {
        None
    }
}

pub fn capture_resolution_plan(
    requested: Option<CaptureResolution>,
    source: SourceFacts,
    pip: bool,
    fitted: CaptureResolution,
) -> (plan: Option<ResolutionPlan>)
    ensures
        plan == planned(requested, source, pip, fitted),
{
    match requested {
        None => None,
        Some(res) => {
            if source.hwnd == 0 || !source.valid {
                return None;
            }
            let applied = if pip {
                fitted
            } else {
                res
            };
            Some(ResolutionPlan { requested: res, applied })
        },
    }
}

/// The next thing to do when a size is applied to the source.
#[derive(Clone, Copy, Debug, PartialEq, Eq, Structural)]
pub enum ApplyStep {
    /// Done; the engine is told to drop its geometry if `clear` is set.
    Cleared { clear: bool },
    /// Done; the notice on fullscreen sources is opened and the source stays as it is.
    Noticed,
    /// There is no source.
    Failed,
    /// Resize the source; announce the size first if `announce` is set.
    Resize { plan: ResolutionPlan, announce: bool },
}

pub open spec fn apply_step(
    requested: Option<CaptureResolution>,
    disabled: bool,
    running: bool,
    plan: Option<ResolutionPlan>,
) -> ApplyStep {
    if requested is None {
        ApplyStep::Cleared { clear: running }
    } else if disabled {
        ApplyStep::Noticed
    } else if plan is None {
        ApplyStep::Failed
    } else {
        ApplyStep::Resize { plan: plan->0, announce: running }
    }
}

pub fn apply_capture_resolution_to_target(
    requested: Option<CaptureResolution>,
    disabled: bool,
    running: bool,
    plan: Option<ResolutionPlan>,
) -> (step: ApplyStep)
    ensures
        step == apply_step(requested, disabled, running, plan),
{
    if requested.is_none() {
        return ApplyStep::Cleared { clear: running };
    }
    if disabled {
        return ApplyStep::Noticed;
    }
    match plan {
        None => ApplyStep::Failed,
        Some(plan) => ApplyStep::Resize { plan, announce: running },
    }
}

/// What follows the attempt to resize the source.
#[derive(Clone, Copy, Debug, PartialEq, Eq, Structural)]
pub enum ResizeOutcome {
    /// The engine is told of the new geometry.
    Publish { plan: ResolutionPlan, crop: CaptureCrop },
    /// The source refused; an announced size is taken back if `retract` is set.
    Refused { retract: bool },
}

pub open spec fn resize_outcome(plan: ResolutionPlan, crop: CaptureCrop, announced: bool, resized: bool) -> ResizeOutcome {
    if resized {
        ResizeOutcome::Publish { plan, crop }
    } else {
        ResizeOutcome::Refused { retract: announced }
    }
}

/// A size that was announced is either published or taken back.
pub fn after_source_resize(plan: ResolutionPlan, crop: CaptureCrop, announced: bool, resized: bool) -> (outcome:
    ResizeOutcome)
    ensures
        outcome == resize_outcome(plan, crop, announced, resized),
{
    if resized {
        ResizeOutcome::Publish { plan, crop }
    } else {
        ResizeOutcome::Refused { retract: announced }
    }
}

/// Whether applying a size succeeded, once nothing is left to do.
pub open spec fn apply_succeeds(step: ApplyStep, resized: bool) -> bool {
    match step {
        ApplyStep::Cleared { .. } => true,
        ApplyStep::Noticed => true,
        ApplyStep::Failed => false,
        ApplyStep::Resize { .. } => resized,
    }
}

/// Applying fails exactly when a size is asked for, the source is not fullscreen, and there is
/// no source or it refuses the size.
pub proof fn applying_fails_only_without_a_willing_source(
    requested: Option<CaptureResolution>,
    source: SourceFacts,
    running: bool,
    pip: bool,
    fitted: CaptureResolution,
    resized: bool,
)
    ensures
        ({
            let step = apply_step(
                requested,
                is_disabled(requested, source),
                running,
                planned(requested, source, pip, fitted),
            );
            apply_succeeds(step, resized) <==> (requested is None || is_disabled(requested, source) || (is_usable(
                source,
            ) && resized))
        }),
{
}

/// The part of a captured picture that is left after the crop. The crop is taken off the
/// picture after the capture, so the captured size itself does not grow.
pub open spec fn content_size(size: (i32, i32), crop: CaptureCrop) -> (int, int) {
    if crop.enabled && size.0 > 0 && size.1 > 0 {
        (size.0 - crop.left - crop.right, size.1 - crop.top - crop.bottom)
    } else {
        (size.0 as int, size.1 as int)
    }
}

/// The size of a picture of `size` after the crop, whose margins leave something of it.
pub fn capture_resolution_content_size(size: (i32, i32), crop: CaptureCrop) -> (r: (i32, i32))
    requires
        crop.enabled && size.0 > 0 && size.1 > 0 ==> crop.left + crop.right < size.0 && crop.top + crop.bottom
            < size.1,
    ensures
        (r.0 as int, r.1 as int) == content_size(size, crop),
{
    if !crop.enabled || size.0 <= 0 || size.1 <= 0 {
        return size;
    }
    (size.0 - crop.left as i32 - crop.right as i32, size.1 - crop.top as i32 - crop.bottom as i32)
}

// ---------------------------------------------------------------------------------------
// What a capture resolution is for

/// While a session is active the size is held back exactly where the engine says that the source
/// is full-screen now; before one, where the source was full-screen when the session began, or,
/// where nothing is known of that, where its window is. Without a size or a source nothing is held
/// back.
pub proof fn only_a_fullscreen_source_holds_the_size_back(requested: Option<CaptureResolution>, source: SourceFacts)
    ensures
        requested is None || source.hwnd == 0 || !source.valid ==> !is_disabled(requested, source),
        requested is Some && source.hwnd != 0 && source.valid ==> {
            &&& source.session_active ==> (is_disabled(requested, source) <==> source.session_live_fullscreen)
            &&& !source.session_active && source.origin_fullscreen is Some ==> (is_disabled(requested, source)
                <==> source.origin_fullscreen == Some(true))
            &&& !source.session_active && source.origin_fullscreen is None ==> (is_disabled(requested, source)
                <==> source.window_fullscreen)
        },
        !source.session_live_fullscreen && source.origin_fullscreen != Some(true) && !source.window_fullscreen
            ==> !is_disabled(requested, source),
        is_disabled(requested, source) ==> source.session_live_fullscreen || source.origin_fullscreen == Some(true)
            || source.window_fullscreen,
{
}

/// A plan asks for the size that was set, and applies that very size; only a picture-in-picture
/// window gets the one that is fitted to its shape. There is one exactly where a size is set and
/// the source is there.
pub proof fn a_plan_applies_the_size_that_was_set(
    requested: Option<CaptureResolution>,
    source: SourceFacts,
    pip: bool,
    fitted: CaptureResolution,
)
    ensures
        planned(requested, source, pip, fitted) is Some <==> requested is Some && source.hwnd != 0 && source.valid,
        planned(requested, source, pip, fitted) matches Some(plan) ==> {
            &&& Some(plan.requested) == requested
            &&& !pip ==> Some(plan.applied) == requested
            &&& pip ==> plan.applied == fitted
        },
{
}

/// A size is applied to the source exactly where there is one, it is not held back and there is a
/// plan, and then that plan is carried out, announced to a running capture before; without a size
/// a running capture, and only that, is told to drop its geometry.
pub proof fn applying_carries_the_plan_out(
    requested: Option<CaptureResolution>,
    disabled: bool,
    running: bool,
    plan: Option<ResolutionPlan>,
)
    ensures
        ({
            let step = apply_step(requested, disabled, running, plan);
            &&& step is Resize <==> requested is Some && !disabled && plan is Some
            &&& step matches ApplyStep::Resize { plan: used, announce } ==> Some(used) == plan && announce == running
            &&& step is Noticed <==> requested is Some && disabled
            &&& step is Cleared <==> requested is None
            &&& step matches ApplyStep::Cleared { clear } ==> clear == running
        }),
        apply_succeeds(ApplyStep::Failed, true) == false,
        forall|p: ResolutionPlan, announce: bool, resized: bool|
            #[trigger] apply_succeeds(ApplyStep::Resize { plan: p, announce }, resized) == resized,
        forall|clear: bool, resized: bool| #[trigger] apply_succeeds(ApplyStep::Cleared { clear }, resized),
        forall|resized: bool| #[trigger] apply_succeeds(ApplyStep::Noticed, resized),
{
}

/// Two numbers with a cross between them, written in any of its ways, read as that size, each
/// number brought into its range.
pub proof fn a_typed_size_is_read(w: nat, h: nat, cross: char)
    requires
        w <= u32::MAX,
        h <= u32::MAX,
        cross == 'x' || cross == 'X' || cross == '\u{d7}' || cross == '*' || cross == '\u{ff0a}',
    ensures
        resolution_of(decimal(w) + seq![cross] + decimal(h)) matches Some(Some(r)) && {
            &&& r.w == (if w < 160 { 160 } else if w > 7680 { 7680 } else { w })
            &&& r.h == (if h < 120 { 120 } else if h > 4320 { 4320 } else { h })
        },
{
    reveal_strlit("(4:3)");
    reveal_strlit("auto");
    reveal_strlit("none");
    reveal_strlit("\u{81ea}\u{52d5}");
    let a = decimal(w);
    let b = decimal(h);
    lemma_digits_have_no_cross(w);
    lemma_digits_have_no_cross(h);
    crate::text::decimal_notation_round_trips(w, u32::MAX as nat);
    crate::text::decimal_notation_round_trips(h, u32::MAX as nat);
    let s = a + seq![cross] + b;
    assert(s[0] == a[0]);
    assert('0' <= a[0] <= '9');
    assert(s.last() == b.last());
    assert('0' <= b[b.len() - 1] <= '9');
    assert(trimmed(s) == s);
    assert(lower_text(s)[0] == a[0]);
    assert(lower_text("auto"@)[0] == 'a');
    assert(lower_text("none"@)[0] == 'n');
    assert("\u{81ea}\u{52d5}"@[0] == '\u{81ea}');
    assert("(4:3)"@.last() == ')');
    assert(without_suffix(s, "(4:3)"@) == s);
    assert(with_plain_cross(s) =~= a + seq!['x'] + b) by {
        assert forall|i: int| 0 <= i < s.len() implies with_plain_cross(s)[i] == (a + seq!['x'] + b)[i] by {
            if i < a.len() {
                assert('0' <= a[i] <= '9');
            } else if i > a.len() {
                assert('0' <= b[i - a.len() - 1] <= '9');
            }
        }
    }
    lemma_cut_at_cross(a, b);
    lemma_digits_are_trimmed(a);
    lemma_digits_are_trimmed(b);
}

/// No size is set by an empty field and by the words for it, whatever the case of their letters;
/// any other text without a cross is no size at all.
pub proof fn the_words_for_no_size(text: Seq<char>)
    ensures
        trimmed(text).len() == 0 ==> resolution_of(text) == Some(None::<CaptureResolution>),
        lower_text(trimmed(text)) == "auto"@ || lower_text(trimmed(text)) == "none"@ || trimmed(text)
            == "\u{81ea}\u{52d5}"@ ==> resolution_of(text) == Some(None::<CaptureResolution>),
        resolution_of(text) == Some(None::<CaptureResolution>) ==> trimmed(text).len() == 0 || lower_text(trimmed(text))
            == "auto"@ || lower_text(trimmed(text)) == "none"@ || trimmed(text) == "\u{81ea}\u{52d5}"@,
{
    reveal_strlit("auto");
    reveal_strlit("none");
    assert(lower_text("auto"@) =~= "auto"@);
    assert(lower_text("none"@) =~= "none"@);
}

/// A label begins with the two numbers and the cross, and has the note exactly for a size of four
/// to three.
pub proof fn a_label_names_the_size(r: CaptureResolution, auto: Seq<char>)
    ensures
        r.w * 3 == r.h * 4 ==> resolution_label(Some(r), auto) == decimal(r.w as nat) + "x"@ + decimal(r.h as nat)
            + " (4:3)"@,
        r.w * 3 != r.h * 4 ==> resolution_label(Some(r), auto) == decimal(r.w as nat) + "x"@ + decimal(r.h as nat),
        resolution_label(None, auto) == auto,
{
}

/// The even neighbours of a value within the limits are the nearest even numbers below and above
/// it, and the value itself, twice, where it is even.
pub proof fn even_values_are_kept(value: u32, min_value: u32, max_value: u32)
    requires
        min_value % 2 == 0,
        min_value <= value < max_value,
        max_value < u32::MAX,
    ensures
        value % 2 == 0 ==> even_neighbors(value, min_value, max_value) == (value, value),
        value % 2 == 1 && value + 1 <= max_value ==> even_neighbors(value, min_value, max_value) == (
            (value - 1) as u32,
            (value + 1) as u32,
        ),
{
}

/// The sizes that a fit considers lie next to the one that is proposed, and are no others where
/// that is even itself.
pub proof fn fits_lie_next_to_the_proposal(limit: CaptureResolution, proposed: CaptureResolution, i: int)
    requires
        0 <= i < 4,
        160 <= proposed.w <= limit.w,
        120 <= proposed.h <= limit.h,
        limit.w < u32::MAX,
        limit.h < u32::MAX,
    ensures
        fit_grid(limit, proposed).len() == 4,
        -1 <= fit_grid(limit, proposed)[i].w - proposed.w <= 1,
        -1 <= fit_grid(limit, proposed)[i].h - proposed.h <= 1,
        proposed.w % 2 == 0 ==> fit_grid(limit, proposed)[i].w == proposed.w,
        proposed.h % 2 == 0 ==> fit_grid(limit, proposed)[i].h == proposed.h,
        proposed.w % 2 == 1 && proposed.w < limit.w ==> fit_grid(limit, proposed)[0].w < proposed.w
            < fit_grid(limit, proposed)[3].w,
        proposed.h % 2 == 1 && proposed.h < limit.h ==> fit_grid(limit, proposed)[0].h < proposed.h
            < fit_grid(limit, proposed)[3].h && fit_grid(limit, proposed)[1].h > proposed.h && fit_grid(
            limit,
            proposed,
        )[2].h < proposed.h,
{
}

/// Of the sizes exactly those are left that are none of them empty nor larger than the limit.
pub proof fn allowed_sizes_keep_to_the_limit(
    limit: CaptureResolution,
    sizes: Seq<CaptureResolution>,
    next: CaptureResolution,
)
    ensures
        next.w != 0 && next.h != 0 && next.w <= limit.w && next.h <= limit.h ==> allowed_sizes(
            limit,
            sizes.push(next),
        ) == allowed_sizes(limit, sizes).push(next),
        next.w == 0 || next.h == 0 || next.w > limit.w || next.h > limit.h ==> allowed_sizes(limit, sizes.push(next))
            == allowed_sizes(limit, sizes),
        allowed_sizes(limit, Seq::empty()).len() == 0,
{
    assert(sizes.push(next).drop_last() =~= sizes);
}

/// A candidate whose shape is closer is always taken, one that is farther never; of two that are
/// as close, the larger.
pub proof fn the_closer_shape_is_taken(search: FitSearch, candidate: CaptureResolution)
    ensures
        takes(search, candidate, AspectVerdict::Closer),
        takes(search, candidate, AspectVerdict::Tied) <==> candidate.w * candidate.h > search.best_area,
        forall|verdict: AspectVerdict|
            #[trigger] takes(search, candidate, verdict) ==> verdict == AspectVerdict::Closer || verdict
                == AspectVerdict::Tied,
{
}

/// A crop takes its margins off the picture, each off its own side, and nothing while it is off.
pub proof fn a_crop_takes_its_margins_off(size: (i32, i32), crop: CaptureCrop)
    requires
        size.0 > 0,
        size.1 > 0,
    ensures
        !crop.enabled ==> content_size(size, crop) == (size.0 as int, size.1 as int),
        crop.enabled ==> content_size(size, crop).0 + crop.left + crop.right == size.0 && content_size(size, crop).1
            + crop.top + crop.bottom == size.1,
{
}

/// A title tells a picture-in-picture window by the words for it, in any case of their letters,
/// wherever they stand.
pub proof fn picture_in_picture_is_told_by_its_words(before: Seq<char>, after: Seq<char>, title: Seq<char>)
    ensures
        is_pip(title, before + "picture in picture"@ + after),
        is_pip(title, before + "picture-in-picture"@ + after),
        is_pip(
            before
                + "\u{30d4}\u{30af}\u{30c1}\u{30e3}\u{30fc} \u{30a4}\u{30f3} \u{30d4}\u{30af}\u{30c1}\u{30e3}\u{30fc}"@
                + after,
            title,
        ),
        is_pip(title, Seq::empty()) ==> title.len() >= 14,
        is_pip(Seq::empty(), title) ==> title.len() >= 18,
{
    let words = "picture in picture"@;
    let dashed = "picture-in-picture"@;
    let own = "\u{30d4}\u{30af}\u{30c1}\u{30e3}\u{30fc} \u{30a4}\u{30f3} \u{30d4}\u{30af}\u{30c1}\u{30e3}\u{30fc}"@;
    reveal_strlit("picture in picture");
    reveal_strlit("picture-in-picture");
    reveal_strlit("\u{30d4}\u{30af}\u{30c1}\u{30e3}\u{30fc} \u{30a4}\u{30f3} \u{30d4}\u{30af}\u{30c1}\u{30e3}\u{30fc}");
    lemma_stands_between(before, words, after);
    lemma_stands_between(before, dashed, after);
    lemma_stands_between(before, own, after);
}

proof fn lemma_stands_between(before: Seq<char>, words: Seq<char>, after: Seq<char>)
    ensures
        contains_text(before + words + after, words),
{
    let all = before + words + after;
    let at = before.len() as int;
    assert(all.subrange(at, at + words.len()) =~= words);
    assert(crate::text::occurs_at(all, words, at));
}

/// Blanks around a size change nothing of it.
pub proof fn blanks_around_a_size_are_read_over(text: Seq<char>)
    ensures
        resolution_of(trimmed(text)) == resolution_of(text),
{
    crate::text::trimming_is_idempotent(text);
}

/// A number below its range becomes the least, one above it the greatest, any other is kept.
pub proof fn numbers_come_into_their_range(n: nat, low: u32, high: u32)
    requires
        low <= high,
    ensures
        low <= clamped(n, low, high) <= high,
        low <= n <= high ==> clamped(n, low, high) == n,
        n < low ==> clamped(n, low, high) == low,
        n > high ==> clamped(n, low, high) == high,
{
}

/// Once the origin of a session is known it alone decides; what the window looks like later does
/// not matter.
pub proof fn the_origin_of_a_session_decides(origin: bool, live: bool, other: bool)
    ensures
        counts_as_fullscreen(Some(origin), live) == origin,
        counts_as_fullscreen(Some(origin), live) == counts_as_fullscreen(Some(origin), other),
        counts_as_fullscreen(None, live) == live,
{
}

/// What a resize that was announced comes to reaches the engine: the size that was planned, or that
/// it is taken back; one that was not announced is not taken back.
pub proof fn an_announced_size_is_settled(plan: ResolutionPlan, crop: CaptureCrop, announced: bool, resized: bool)
    ensures
        resized ==> (resize_outcome(plan, crop, announced, resized) matches ResizeOutcome::Publish { plan: p, crop: c }
            && p == plan && c == crop),
        !resized ==> (resize_outcome(plan, crop, announced, resized) matches ResizeOutcome::Refused { retract } && retract
            == announced),
{
}

} // verus!
