//! The statistics rows: measured timings arrive in any order and are shown in the order of
//! the filter chain.
use vstd::prelude::*;
use crate::chain::{to_forward_slashes, StageKind, StageSpec};
use crate::chain::forward_slashes;
use crate::text::{
    chars_of, eq_ignore_ascii_case, find_from, find_last, parse_unsigned, same_text, split, string_of,
    to_ascii_lowercase,
};
use crate::text::{
    all_digits, before_first, before_first_is_unique, contains_text, decimal, digits_value, is_digit, is_first_occurrence,
    is_last_occurrence, lower_text, occurs_at, split_on, texts, unsigned_value,
};

verus! {

/// A measured stage. The time is the bit pattern of a double-precision number of milliseconds.
#[derive(Debug, PartialEq, Eq)]
pub struct StageStat {
    pub kind: String,
    pub ms: u64,
}

/// The bit pattern of minus one: there is no measurement yet.
pub const UNMEASURED: u64 = 0xbff0_0000_0000_0000;

/// A row as a mathematical value.
pub struct StatRow {
    pub label: Seq<char>,
    pub kind: Seq<char>,
    pub ms: u64,
}

pub open spec fn row_of(row: (String, StageStat)) -> StatRow {
    StatRow { label: row.0@, kind: row.1.kind@, ms: row.1.ms }
}

pub open spec fn rows_of(rows: Seq<(String, StageStat)>) -> Seq<StatRow> {
    rows.map_values(|r: (String, StageStat)| row_of(r))
}

// ---------------------------------------------------------------------------------------
// File names

/// A character that separates the pieces of a path. Behind a verbatim prefix only the backslash
/// does.
pub open spec fn separates(c: char, verbatim: bool) -> bool {
    c == '\\' || (c == '/' && !verbatim)
}

/// Where the piece that begins at `from` ends.
pub open spec fn piece_end(path: Seq<char>, from: int, verbatim: bool) -> int
    decreases path.len() - from,
{
    if from >= path.len() {
        path.len() as int
    } else if separates(path[from], verbatim) {
        from
    } else {
        piece_end(path, from + 1, verbatim)
    }
}

/// Where two pieces in a row, the first at `from`, end; an empty second piece does not count.
pub open spec fn pair_end(path: Seq<char>, from: int, verbatim: bool) -> int {
    let first = piece_end(path, from, verbatim);
    let second = piece_end(path, first + 1, verbatim);
    if second > first + 1 {
        second
    } else {
        first
    }
}

/// A drive letter and a colon stand at `at`.
pub open spec fn drive_at(path: Seq<char>, at: int) -> bool {
    path.len() >= at + 2 && path[at + 1] == ':' && (('A' <= path[at] <= 'Z') || ('a' <= path[at] <= 'z'))
}

/// The path begins with `\\?\`, behind which nothing is interpreted.
pub open spec fn is_verbatim(path: Seq<char>) -> bool {
    path.len() >= 4 && path[0] == '\\' && path[1] == '\\' && path[2] == '?' && path[3] == '\\'
}

/// How long the prefix of a Windows path is: a drive, `\\server\share`, a device `\\.\name`, or
/// one of the verbatim forms `\\?\UNC\server\share`, `\\?\C:` and `\\?\name`.
pub open spec fn prefix_length(path: Seq<char>) -> int {
    if is_verbatim(path) {
        if path.len() >= 8 && path[4] == 'U' && path[5] == 'N' && path[6] == 'C' && separates(path[7], false) {
            pair_end(path, 8, true)
        } else if drive_at(path, 4) && (path.len() == 6 || separates(path[6], false)) {
            6
        } else {
            piece_end(path, 4, true)
        }
    } else if path.len() >= 2 && separates(path[0], false) && separates(path[1], false) {
        if path.len() >= 4 && path[2] == '.' && separates(path[3], false) {
            piece_end(path, 4, false)
        } else {
            let server = piece_end(path, 2, false);
            let share = pair_end(path, 2, false);
            if server > 2 && share > server {
                share
            } else {
                0
            }
        }
    } else if drive_at(path, 0) {
        2
    } else {
        0
    }
}

/// Where the folders and the name begin: behind the prefix and the root.
pub open spec fn body_start(path: Seq<char>) -> int {
    let n = prefix_length(path);
    if n < path.len() && separates(path[n], false) {
        n + 1
    } else {
        n
    }
}

/// The last piece of a path that counts: an empty one does not, nor a single dot but behind a
/// verbatim prefix.
pub open spec fn last_named(pieces: Seq<Seq<char>>, verbatim: bool) -> Option<Seq<char>>
    decreases pieces.len(),
{
    if pieces.len() == 0 {
        None
    } else if pieces.last().len() > 0 && (verbatim || pieces.last() != "."@) {
        Some(pieces.last())
    } else {
        last_named(pieces.drop_last(), verbatim)
    }
}

/// The pieces of a path behind its prefix and root.
pub open spec fn body_pieces(path: Seq<char>) -> Seq<Seq<char>> {
    let body = path.skip(body_start(path));
    if is_verbatim(path) {
        split_on(body, '\\')
    } else {
        split_on(forward_slashes(body), '/')
    }
}

/// The file name of a Windows path, or the whole path if it has none: a path that ends in its
/// prefix or root, or in a dot or two, names no file.
pub open spec fn file_name(path: Seq<char>) -> Seq<char> {
    match last_named(body_pieces(path), is_verbatim(path)) {
        Some(name) => if name == ".."@ || name == "."@ {
            path
        } else {
            name
        },
        None => path,
    }
}

fn is_separator(c: char, verbatim: bool) -> (r: bool)
    ensures
        r == separates(c, verbatim),
{
    c == '\\' || (c == '/' && !verbatim)
}

fn end_of_piece(path: &Vec<char>, from: usize, verbatim: bool) -> (end: usize)
    requires
        from <= path@.len(),
    ensures
        end == piece_end(path@, from as int, verbatim),
        from <= end <= path@.len(),
{
    let mut i: usize = from;
    while i < path.len() && !is_separator(path[i], verbatim)
        invariant
            from <= i <= path@.len(),
            piece_end(path@, from as int, verbatim) == piece_end(path@, i as int, verbatim),
        decreases path@.len() - i,
    {
        i += 1;
    }
    i
}

fn end_of_pair(path: &Vec<char>, from: usize, verbatim: bool) -> (end: usize)
    requires
        from <= path@.len(),
    ensures
        end == pair_end(path@, from as int, verbatim),
        from <= end <= path@.len(),
{
    let first = end_of_piece(path, from, verbatim);
    if first == path.len() {
        return first;
    }
    let second = end_of_piece(path, first + 1, verbatim);
    if second > first + 1 {
        second
    } else {
        first
    }
}

fn has_drive(path: &Vec<char>, at: usize) -> (r: bool)
    requires
        at <= 4,
    ensures
        r == drive_at(path@, at as int),
{
    path.len() >= at + 2 && path[at + 1] == ':' && (('A' <= path[at] && path[at] <= 'Z') || ('a' <= path[at]
        && path[at] <= 'z'))
}

fn length_of_prefix(path: &Vec<char>, verbatim: bool) -> (n: usize)
    requires
        verbatim == is_verbatim(path@),
    ensures
        n == prefix_length(path@),
        n <= path@.len(),
{
    if verbatim {
        if path.len() >= 8 && path[4] == 'U' && path[5] == 'N' && path[6] == 'C' && is_separator(path[7], false) {
            end_of_pair(path, 8, true)
        } else if has_drive(path, 4) && (path.len() == 6 || is_separator(path[6], false)) {
            6
        } else {
            end_of_piece(path, 4, true)
        }
    } else if path.len() >= 2 && is_separator(path[0], false) && is_separator(path[1], false) {
        if path.len() >= 4 && path[2] == '.' && is_separator(path[3], false) {
            end_of_piece(path, 4, false)
        } else {
            let server = end_of_piece(path, 2, false);
            let share = end_of_pair(path, 2, false);
            if server > 2 && share > server {
                share
            } else {
                0
            }
        }
    } else if has_drive(path, 0) {
        2
    } else {
        0
    }
}

/// The file name of a stage's path.
pub fn stage_file_name(path: &str) -> (name: String)
    ensures
        name@ == file_name(path@),
{
    let chars = chars_of(path);
    let verbatim = chars.len() >= 4 && chars[0] == '\\' && chars[1] == '\\' && chars[2] == '?' && chars[3] == '\\';
    let prefix = length_of_prefix(&chars, verbatim);
    let start: usize = if prefix < chars.len() && is_separator(chars[prefix], false) {
        prefix + 1
    } else {
        prefix
    };
    let body = string_of(chars.as_slice(), start, chars.len());
    assert(body@ =~= path@.skip(body_start(path@)));
    let pieces = if verbatim {
        split(body.as_str(), '\\')
    } else {
        split(to_forward_slashes(body.as_str()).as_str(), '/')
    };
    let ghost all = texts(pieces@);
    let mut n: usize = pieces.len();
    assert(all.take(n as int) =~= all);
    while n > 0
        invariant
            n <= pieces@.len(),
            all == texts(pieces@),
            all == body_pieces(path@),
            verbatim == is_verbatim(path@),
            last_named(all, verbatim) == last_named(all.take(n as int), verbatim),
        decreases n,
    {
        let ghost some = all.take(n as int);
        assert(some.last() == pieces@[n - 1]@);
        assert(some.drop_last() =~= all.take(n - 1));
        let piece = pieces[n - 1].as_str();
        if !piece.is_empty() && (verbatim || !same_text(piece, ".")) {
            if same_text(piece, "..") || same_text(piece, ".") {
                return path.to_owned();
            }
            return piece.to_owned();
        }
        n -= 1;
    }
    path.to_owned()
}

// ---------------------------------------------------------------------------------------
// Labels

/// The number behind the last " #" of a label, if nothing but digits stand there.
pub open spec fn label_number(label: Seq<char>) -> Option<Seq<char>> {
    if contains_text(label, " #"@) {
        let at = choose|i: int| is_last_occurrence(label, " #"@, i);
        let suffix = label.skip(at + 2);
        if suffix.len() > 0 && all_digits(suffix) {
            Some(suffix)
        } else {
            None
        }
    } else {
        None
    }
}

/// A label without its number.
pub open spec fn label_without_number(label: Seq<char>) -> Seq<char> {
    match label_number(label) {
        Some(suffix) => label.take(label.len() - suffix.len() - 2),
        None => label,
    }
}

/// The occurrence that a label counts: `None` where there is none or it does not fit.
pub open spec fn label_occurrence(label: Seq<char>) -> Option<nat> {
    match label_number(label) {
        Some(suffix) => if digits_value(suffix) <= usize::MAX {
            Some(digits_value(suffix))
        } else {
            None
        },
        None => None,
    }
}

/// The filter that a label stands for: without its number and without a provider in brackets.
pub open spec fn label_filter(label: Seq<char>) -> Seq<char> {
    before_first(label_without_number(label), " ["@)
}

fn number_start(label: &Vec<char>) -> (r: Option<usize>)
    ensures
        match r {
            Some(at) => at <= label@.len() && label_number(label@) == Some(label@.skip(at as int)) && at >= 2,
            None => label_number(label@) is None,
        },
{
    let n: usize = label.len();
    let pat = chars_of(" #");
    proof {
        reveal_strlit(" #");
    }
    match find_last(label.as_slice(), pat.as_slice()) {
        None => None,
        Some(i) => {
            proof {
                assert(occurs_at(label@, " #"@, i as int));
                let k = choose|k: int| is_last_occurrence(label@, " #"@, k);
                assert(is_last_occurrence(label@, " #"@, k));
                assert(k == i);
            }
            let start: usize = i + 2;
            let ghost suffix = label@.skip(start as int);
            assert(label_number(label@) == (if suffix.len() > 0 && all_digits(suffix) {
                Some(suffix)
            } else {
                None
            }));
            if start == n {
                assert(label@.skip(start as int).len() == 0);
                return None;
            }
            let mut k: usize = start;
            while k < n
                invariant
                    n == label@.len(),
                    2 <= start <= k <= label@.len(),
                    suffix == label@.skip(start as int),
                    label_number(label@) == (if suffix.len() > 0 && all_digits(suffix) {
                        Some(suffix)
                    } else {
                        None
                    }),
                    forall|j: int| start <= j < k ==> is_digit(#[trigger] label@[j]),
                decreases n - k,
            {
                if label[k] < '0' || label[k] > '9' {
                    assert(!is_digit(suffix[k - start]));
                    return None;
                }
                k += 1;
            }
            Some(start)
        },
    }
}

/// The occurrence number of a measured row.
pub fn metric_row_occurrence(label: &str) -> (r: Option<usize>)
    ensures
        match r {
            Some(n) => label_occurrence(label@) == Some(n as nat),
            None => label_occurrence(label@) is None,
        },
{
    let v = chars_of(label);
    match number_start(&v) {
        None => None,
        Some(at) => {
            let suffix = string_of(v.as_slice(), at, v.len());
            assert(suffix@ =~= label@.skip(at as int));
            assert(suffix@[0] != '+') by {
                assert(is_digit(suffix@[0]));
            }
            match parse_unsigned(suffix.as_str(), usize::MAX as u64) {
                Some(n) => Some(n as usize),
                None => None,
            }
        },
    }
}

/// The filter name of a measured row.
pub fn metric_row_base_name(label: &str) -> (r: String)
    ensures
        r@ == label_filter(label@),
{
    let v = chars_of(label);
    let end: usize = match number_start(&v) {
        None => v.len(),
        Some(at) => at - 2,
    };
    let kept = string_of(v.as_slice(), 0, end);
    assert(kept@ =~= label_without_number(label@));
    let w = chars_of(kept.as_str());
    let pat = chars_of(" [");
    match find_from(w.as_slice(), pat.as_slice(), 0) {
        Some(i) => {
            proof {
                assert(is_first_occurrence(kept@, " ["@, i as int)) by {
                    assert forall|j: int| j < i implies !#[trigger] occurs_at(kept@, " ["@, j) by {
                        if j >= 0 {
                        }
                    }
                }
                before_first_is_unique(kept@, " ["@, i as int);
            }
            let r = string_of(w.as_slice(), 0, i);
            assert(r@ =~= kept@.take(i as int));
            r
        },
        None => {
            assert(!contains_text(kept@, " ["@)) by {
                assert forall|j: int| !#[trigger] occurs_at(kept@, " ["@, j) by {
                    if j >= 0 {
                    }
                }
            }
            kept
        },
    }
}

// ---------------------------------------------------------------------------------------
// Order

/// What the order looks at of an enabled stage.
pub struct Filter {
    pub kind: StageKind,
    pub name: Seq<char>,
}

/// The enabled stages of a chain, in order.
pub open spec fn enabled_filters(chain: Seq<StageSpec>) -> Seq<Filter>
    decreases chain.len(),
{
    if chain.len() == 0 {
        Seq::empty()
    } else {
        let before = enabled_filters(chain.drop_last());
        if chain.last().enabled {
            before.push(Filter { kind: chain.last().kind, name: file_name(chain.last().path@) })
        } else {
            before
        }
    }
}

/// How many filters share a name, whatever its case.
pub open spec fn name_count(filters: Seq<Filter>, name: Seq<char>) -> nat
    decreases filters.len(),
{
    if filters.len() == 0 {
        0
    } else {
        name_count(filters.drop_last(), name) + (if lower_text(filters.last().name) == lower_text(name) {
            1nat
        } else {
            0
        })
    }
}

/// A measured row belongs to filter `k`. Where a name occurs more than once, the row's number
/// must be the number of the occurrence.
pub open spec fn row_matches(filters: Seq<Filter>, k: int, label: Seq<char>) -> bool {
    let filter = filters[k];
    &&& lower_text(label_filter(label)) == lower_text(filter.name) || (filter.kind == StageKind::Flow && lower_text(
        label,
    ) == lower_text("Frame interpolation"@))
    &&& name_count(filters, filter.name) > 1 ==> label_occurrence(label) == Some(
        name_count(filters.take(k + 1), filter.name),
    )
}

pub open spec fn kind_text(kind: StageKind) -> Seq<char> {
    match kind {
        StageKind::Glsl => "glsl"@,
        StageKind::Onnx => "onnx"@,
        StageKind::Flow => "gpu"@,
    }
}

/// The row of a filter without a measurement.
pub open spec fn unmeasured_row(filter: Filter) -> StatRow {
    StatRow { label: filter.name, kind: kind_text(filter.kind), ms: UNMEASURED }
}

/// The first row at or behind `from` that is not used yet and belongs to filter `k`.
pub open spec fn first_match(
    filters: Seq<Filter>,
    k: int,
    rows: Seq<StatRow>,
    used: Seq<bool>,
    from: int,
) -> Option<int>
    decreases rows.len() - from,
{
    if from >= rows.len() {
        None
    } else if !used[from] && row_matches(filters, k, rows[from].label) {
        Some(from)
    } else {
        first_match(filters, k, rows, used, from + 1)
    }
}

/// The rows shown for the first filters, and which measured rows they use.
pub struct Placed {
    pub shown: Seq<StatRow>,
    pub used: Seq<bool>,
}

/// Each filter takes the first measured row that belongs to it, or shows that there is none.
pub open spec fn placed(filters: Seq<Filter>, rows: Seq<StatRow>, k: int) -> Placed
    decreases k,
{
    if k <= 0 {
        Placed { shown: Seq::empty(), used: Seq::new(rows.len(), |i: int| false) }
    } else {
        let before = placed(filters, rows, k - 1);
        match first_match(filters, k - 1, rows, before.used, 0) {
            Some(i) => Placed { shown: before.shown.push(rows[i]), used: before.used.update(i, true) },
            None => Placed { shown: before.shown.push(unmeasured_row(filters[k - 1])), used: before.used },
        }
    }
}

/// The measured rows that no filter uses, in order.
pub open spec fn unused_rows(rows: Seq<StatRow>, used: Seq<bool>, n: int) -> Seq<StatRow>
    decreases n,
{
    if n <= 0 {
        Seq::empty()
    } else if used[n - 1] {
        unused_rows(rows, used, n - 1)
    } else {
        unused_rows(rows, used, n - 1).push(rows[n - 1])
    }
}

/// The rows in the order of the chain, and behind them the rows of no filter.
pub open spec fn chain_order(filters: Seq<Filter>, rows: Seq<StatRow>) -> Seq<StatRow> {
    let p = placed(filters, rows, filters.len() as int);
    p.shown + unused_rows(rows, p.used, rows.len() as int)
}

proof fn lemma_placed_shape(filters: Seq<Filter>, rows: Seq<StatRow>, k: int)
    requires
        0 <= k <= filters.len(),
    ensures
        placed(filters, rows, k).shown.len() == k,
        placed(filters, rows, k).used.len() == rows.len(),
    decreases k,
{
    if k > 0 {
        lemma_placed_shape(filters, rows, k - 1);
        lemma_first_match(filters, k - 1, rows, placed(filters, rows, k - 1).used, 0);
    }
}

proof fn lemma_first_match(filters: Seq<Filter>, k: int, rows: Seq<StatRow>, used: Seq<bool>, from: int)
    requires
        0 <= from,
    ensures
        first_match(filters, k, rows, used, from) matches Some(i) ==> from <= i < rows.len() && !used[i]
            && row_matches(filters, k, rows[i].label),
        first_match(filters, k, rows, used, from) is None ==> forall|i: int|
            from <= i < rows.len() && !used[i] ==> !row_matches(filters, k, #[trigger] rows[i].label),
    decreases rows.len() - from,
{
    if from < rows.len() && !(!used[from] && row_matches(filters, k, rows[from].label)) {
        lemma_first_match(filters, k, rows, used, from + 1);
    }
}

/// Every enabled filter has exactly one row, at its place in the chain: a measured row that
/// belongs to it, or the row that says that there is none. Late or early timings never
/// disturb this.
pub proof fn every_filter_keeps_its_place(filters: Seq<Filter>, rows: Seq<StatRow>, k: int)
    requires
        0 <= k < filters.len(),
    ensures
        chain_order(filters, rows).len() >= filters.len(),
        chain_order(filters, rows)[k] == unmeasured_row(filters[k]) || (exists|i: int|
            0 <= i < rows.len() && chain_order(filters, rows)[k] == rows[i] && row_matches(
                filters,
                k,
                #[trigger] rows[i].label,
            )),
{
    lemma_placed_shape(filters, rows, filters.len() as int);
    lemma_shown_row(filters, rows, k, filters.len() as int);
}

proof fn lemma_shown_row(filters: Seq<Filter>, rows: Seq<StatRow>, k: int, n: int)
    requires
        0 <= k < n <= filters.len(),
    ensures
        placed(filters, rows, n).shown.len() == n,
        placed(filters, rows, n).shown[k] == unmeasured_row(filters[k]) || (exists|i: int|
            0 <= i < rows.len() && placed(filters, rows, n).shown[k] == rows[i] && row_matches(
                filters,
                k,
                #[trigger] rows[i].label,
            )),
    decreases n,
{
    lemma_placed_shape(filters, rows, n);
    lemma_placed_shape(filters, rows, n - 1);
    if k < n - 1 {
        lemma_shown_row(filters, rows, k, n - 1);
        assert(placed(filters, rows, n).shown[k] == placed(filters, rows, n - 1).shown[k]);
    } else {
        let before = placed(filters, rows, n - 1);
        lemma_first_match(filters, k, rows, before.used, 0);
        match first_match(filters, k, rows, before.used, 0) {
            Some(i) => {
                assert(placed(filters, rows, n).shown[k] == rows[i]);
                assert(row_matches(filters, k, rows[i].label));
            },
            None => {},
        }
    }
}

/// The row of one of the filters, without a measurement.
pub open spec fn is_placeholder(filters: Seq<Filter>, row: StatRow) -> bool {
    exists|k: int| 0 <= k < filters.len() && row == unmeasured_row(#[trigger] filters[k])
}

/// No measured row is lost, and none is shown twice: the rows shown are the measured ones
/// together with one row for each filter without a measurement.
pub proof fn no_measurement_is_lost(filters: Seq<Filter>, rows: Seq<StatRow>)
    ensures
        exists|missing: Seq<StatRow>|
            {
                &&& missing.len() <= filters.len()
                &&& forall|i: int|
                    0 <= i < missing.len() ==> is_placeholder(filters, #[trigger] missing[i])
                &&& #[trigger] (missing + rows).to_multiset() == chain_order(filters, rows).to_multiset()
            },
{
    let missing = missing_rows(filters, rows, filters.len() as int);
    lemma_missing_rows(filters, rows, filters.len() as int);
    lemma_placed_multiset(filters, rows, filters.len() as int);
    let p = placed(filters, rows, filters.len() as int);
    vstd::seq_lib::lemma_multiset_commutative(p.shown, unused_rows(rows, p.used, rows.len() as int));
    vstd::seq_lib::lemma_multiset_commutative(missing, rows);
    assert((missing + rows).to_multiset() =~= chain_order(filters, rows).to_multiset());
}

spec fn missing_rows(filters: Seq<Filter>, rows: Seq<StatRow>, k: int) -> Seq<StatRow>
    decreases k,
{
    if k <= 0 {
        Seq::empty()
    } else {
        let before = placed(filters, rows, k - 1);
        match first_match(filters, k - 1, rows, before.used, 0) {
            Some(_) => missing_rows(filters, rows, k - 1),
            None => missing_rows(filters, rows, k - 1).push(unmeasured_row(filters[k - 1])),
        }
    }
}

proof fn lemma_missing_rows(filters: Seq<Filter>, rows: Seq<StatRow>, k: int)
    requires
        0 <= k <= filters.len(),
    ensures
        forall|i: int|
            0 <= i < missing_rows(filters, rows, k).len() ==> is_placeholder(
                filters,
                #[trigger] missing_rows(filters, rows, k)[i],
            ),
    decreases k,
{
    if k > 0 {
        lemma_missing_rows(filters, rows, k - 1);
        let before = missing_rows(filters, rows, k - 1);
        let missing = missing_rows(filters, rows, k);
        assert forall|i: int| 0 <= i < missing.len() implies is_placeholder(filters, #[trigger] missing[i]) by {
            if i < before.len() {
                assert(is_placeholder(filters, before[i]));
            } else {
                assert(missing[i] == unmeasured_row(filters[k - 1]));
            }
        }
    }
}

proof fn lemma_unused_update(rows: Seq<StatRow>, used: Seq<bool>, i: int, n: int)
    requires
        0 <= n <= rows.len(),
        used.len() == rows.len(),
        0 <= i < rows.len(),
        !used[i],
    ensures
        i >= n ==> unused_rows(rows, used.update(i, true), n) == unused_rows(rows, used, n),
        i < n ==> unused_rows(rows, used.update(i, true), n).to_multiset().insert(rows[i]) == unused_rows(
            rows,
            used,
            n,
        ).to_multiset(),
    decreases n,
{
    broadcast use vstd::seq_lib::group_to_multiset_ensures;

    if n > 0 {
        lemma_unused_update(rows, used, i, n - 1);
        let after = used.update(i, true);
        if i < n - 1 {
            let a = unused_rows(rows, after, n - 1);
            let b = unused_rows(rows, used, n - 1);
            if !used[n - 1] {
                assert(a.push(rows[n - 1]).to_multiset() =~= a.to_multiset().insert(rows[n - 1]));
                assert(b.push(rows[n - 1]).to_multiset() =~= b.to_multiset().insert(rows[n - 1]));
                assert(a.to_multiset().insert(rows[n - 1]).insert(rows[i]) =~= a.to_multiset().insert(
                    rows[i],
                ).insert(rows[n - 1]));
            }
        } else if i == n - 1 {
            let b = unused_rows(rows, used, n - 1);
            assert(b.push(rows[i]).to_multiset() =~= b.to_multiset().insert(rows[i]));
        }
    }
}

proof fn lemma_all_unused(rows: Seq<StatRow>, n: int)
    requires
        0 <= n <= rows.len(),
    ensures
        unused_rows(rows, Seq::new(rows.len(), |i: int| false), n) == rows.take(n),
    decreases n,
{
    if n > 0 {
        lemma_all_unused(rows, n - 1);
        assert(rows.take(n - 1).push(rows[n - 1]) =~= rows.take(n));
    } else {
        assert(rows.take(0) =~= Seq::<StatRow>::empty());
    }
}

proof fn lemma_placed_multiset(filters: Seq<Filter>, rows: Seq<StatRow>, k: int)
    requires
        0 <= k <= filters.len(),
    ensures
        missing_rows(filters, rows, k).len() <= k,
        ({
            let p = placed(filters, rows, k);
            p.shown.to_multiset().add(unused_rows(rows, p.used, rows.len() as int).to_multiset())
                == missing_rows(filters, rows, k).to_multiset().add(rows.to_multiset())
        }),
    decreases k,
{
    broadcast use vstd::seq_lib::group_to_multiset_ensures;

    let n = rows.len() as int;
    if k == 0 {
        lemma_all_unused(rows, n);
        assert(rows.take(n) =~= rows);
        let p = placed(filters, rows, 0);
        assert(p.shown.to_multiset().add(unused_rows(rows, p.used, n).to_multiset()) =~= missing_rows(
            filters,
            rows,
            0,
        ).to_multiset().add(rows.to_multiset()));
    } else {
        lemma_placed_multiset(filters, rows, k - 1);
        lemma_placed_shape(filters, rows, k - 1);
        let before = placed(filters, rows, k - 1);
        let now = placed(filters, rows, k);
        let m0 = missing_rows(filters, rows, k - 1);
        let u0 = unused_rows(rows, before.used, n);
        lemma_first_match(filters, k - 1, rows, before.used, 0);
        match first_match(filters, k - 1, rows, before.used, 0) {
            Some(i) => {
                lemma_unused_update(rows, before.used, i, n);
                let u1 = unused_rows(rows, now.used, n);
                assert(now.shown.to_multiset() =~= before.shown.to_multiset().insert(rows[i]));
                assert(u1.to_multiset().insert(rows[i]) =~= u0.to_multiset());
                assert(now.shown.to_multiset().add(u1.to_multiset()) =~= before.shown.to_multiset().add(
                    u1.to_multiset().insert(rows[i]),
                ));
            },
            None => {
                let r = unmeasured_row(filters[k - 1]);
                assert(now.shown.to_multiset() =~= before.shown.to_multiset().insert(r));
                assert(m0.push(r).to_multiset() =~= m0.to_multiset().insert(r));
                assert(now.shown.to_multiset().add(u0.to_multiset()) =~= before.shown.to_multiset().add(
                    u0.to_multiset(),
                ).insert(r));
                assert(m0.push(r).to_multiset().add(rows.to_multiset()) =~= m0.to_multiset().add(
                    rows.to_multiset(),
                ).insert(r));
            },
        }
    }
}

fn clone_row(row: &(String, StageStat)) -> (r: (String, StageStat))
    ensures
        row_of(r) == row_of(*row),
{
    (row.0.clone(), StageStat { kind: row.1.kind.clone(), ms: row.1.ms })
}

fn count_name(names: &Vec<String>, n: usize, name: &str) -> (count: usize)
    requires
        n <= names@.len(),
    ensures
        count <= n,
        forall|filters: Seq<Filter>|
            filters.len() == names@.len() && (forall|i: int|
                0 <= i < filters.len() ==> (#[trigger] filters[i]).name == names@[i]@) ==> count
                == #[trigger] name_count(filters.take(n as int), name@),
{
    let mut count: usize = 0;
    let mut i: usize = 0;
    while i < n
        invariant
            i <= n <= names@.len(),
            count <= i,
            forall|filters: Seq<Filter>|
                filters.len() == names@.len() && (forall|i: int|
                    0 <= i < filters.len() ==> (#[trigger] filters[i]).name == names@[i]@) ==> count
                    == #[trigger] name_count(filters.take(i as int), name@),
        decreases n - i,
    {
        let same = eq_ignore_ascii_case(names[i].as_str(), name);
        assert forall|filters: Seq<Filter>|
            filters.len() == names@.len() && (forall|i: int|
                0 <= i < filters.len() ==> (#[trigger] filters[i]).name == names@[i]@) implies count + (if same {
            1int
        } else {
            0
        }) == #[trigger] name_count(filters.take(i + 1), name@) by {
            assert(filters.take(i + 1).drop_last() =~= filters.take(i as int));
            assert(filters.take(i + 1).last() == filters[i as int]);
            assert(count == name_count(filters.take(i as int), name@));
        }
        if same {
            count += 1;
        }
        i += 1;
    }
    count
}

/// The measured rows in the order of the filter chain.
pub fn stats_rows_in_filter_chain_order(chain: &[StageSpec], rows: Vec<(String, StageStat)>) -> (ordered: Vec<
    (String, StageStat),
>)
    ensures
        rows_of(ordered@) == chain_order(enabled_filters(chain@), rows_of(rows@)),
{
    let ghost filters = enabled_filters(chain@);
    let ghost measured = rows_of(rows@);
    let mut names: Vec<String> = Vec::new();
    let mut kinds: Vec<StageKind> = Vec::new();
    let mut i: usize = 0;
    assert(chain@.take(0) =~= Seq::empty());
    while i < chain.len()
        invariant
            i <= chain@.len(),
            names@.len() == kinds@.len(),
            names@.len() == enabled_filters(chain@.take(i as int)).len(),
            forall|k: int|
                0 <= k < names@.len() ==> (#[trigger] enabled_filters(chain@.take(i as int))[k]).name
                    == names@[k]@ && enabled_filters(chain@.take(i as int))[k].kind == kinds@[k],
        decreases chain@.len() - i,
    {
        assert(chain@.take(i + 1).drop_last() =~= chain@.take(i as int));
        if chain[i].enabled {
            names.push(stage_file_name(chain[i].path.as_str()));
            kinds.push(chain[i].kind);
        }
        i += 1;
    }
    assert(chain@.take(i as int) =~= chain@);
    let mut used: Vec<bool> = Vec::new();
    let mut u: usize = 0;
    while u < rows.len()
        invariant
            u <= rows@.len(),
            used@ == Seq::new(u as nat, |i: int| false),
        decreases rows@.len() - u,
    {
        used.push(false);
        assert(used@ =~= Seq::new((u + 1) as nat, |i: int| false));
        u += 1;
    }
    let mut ordered: Vec<(String, StageStat)> = Vec::new();
    let mut k: usize = 0;
    assert(rows_of(ordered@) =~= placed(filters, measured, 0).shown);
    assert(used@ =~= placed(filters, measured, 0).used);
    while k < names.len()
        invariant
            k <= names@.len(),
            filters.len() == names@.len(),
            kinds@.len() == names@.len(),
            measured == rows_of(rows@),
            used@.len() == rows@.len(),
            forall|i: int|
                0 <= i < filters.len() ==> (#[trigger] filters[i]).name == names@[i]@ && filters[i].kind == kinds@[i],
            rows_of(ordered@) == placed(filters, measured, k as int).shown,
            used@ == placed(filters, measured, k as int).used,
        decreases names@.len() - k,
    {
        let n: usize = names.len();
        let total: usize = count_name(&names, n, names[k].as_str());
        let occurrence: usize = count_name(&names, k + 1, names[k].as_str());
        assert(filters.take(n as int) =~= filters);
        assert(total == name_count(filters.take(n as int), filters[k as int].name));
        assert(occurrence == name_count(filters.take(k + 1), filters[k as int].name));
        let mut found: Option<usize> = None;
        let mut j: usize = 0;
        while j < rows.len() && found.is_none()
            invariant
                j <= rows@.len(),
                k < names@.len(),
                filters.len() == names@.len(),
                kinds@.len() == names@.len(),
                measured == rows_of(rows@),
                used@.len() == rows@.len(),
                filters[k as int].name == names@[k as int]@,
                filters[k as int].kind == kinds@[k as int],
                total == name_count(filters, filters[k as int].name),
                occurrence == name_count(filters.take(k + 1), filters[k as int].name),
                match found {
                    Some(i) => i < rows@.len() && first_match(filters, k as int, measured, used@, 0) == Some(
                        i as int,
                    ),
                    None => first_match(filters, k as int, measured, used@, 0) == first_match(
                        filters,
                        k as int,
                        measured,
                        used@,
                        j as int,
                    ),
                },
            decreases
                    rows@.len() - j + (if found is None {
                        1int
                    } else {
                        0
                    }),
        {
            assert(measured[j as int] == row_of(rows@[j as int]));
            if !used[j] {
                let label = rows[j].0.as_str();
                let base = metric_row_base_name(label);
                let same_filter = eq_ignore_ascii_case(base.as_str(), names[k].as_str()) || (kinds[k]
                    == StageKind::Flow && eq_ignore_ascii_case(label, "Frame interpolation"));
                let right_one = total <= 1 || match metric_row_occurrence(label) {
                    Some(number) => number == occurrence,
                    None => false,
                };
                if same_filter && right_one {
                    assert(row_matches(filters, k as int, measured[j as int].label));
                    found = Some(j);
                } else {
                    assert(!row_matches(filters, k as int, measured[j as int].label));
                }
            }
            if found.is_none() {
                j += 1;
            }
        }
        let ghost before = rows_of(ordered@);
        match found {
            Some(index) => {
                ordered.push(clone_row(&rows[index]));
                assert(rows_of(ordered@) =~= before.push(measured[index as int]));
                used.set(index, true);
            },
            None => {
                let kind = match kinds[k] {
                    StageKind::Glsl => "glsl",
                    StageKind::Onnx => "onnx",
                    StageKind::Flow => "gpu",
                };
                ordered.push((names[k].clone(), StageStat { kind: kind.to_owned(), ms: UNMEASURED }));
                assert(rows_of(ordered@) =~= before.push(unmeasured_row(filters[k as int])));
            },
        }
        k += 1;
    }
    let ghost shown = rows_of(ordered@);
    let mut r: usize = 0;
    assert(shown + unused_rows(measured, used@, 0) =~= shown);
    while r < rows.len()
        invariant
            r <= rows@.len(),
            used@.len() == rows@.len(),
            measured == rows_of(rows@),
            rows_of(ordered@) == shown + unused_rows(measured, used@, r as int),
        decreases rows@.len() - r,
    {
        if !used[r] {
            let ghost before = rows_of(ordered@);
            ordered.push(clone_row(&rows[r]));
            assert(rows_of(ordered@) =~= before.push(measured[r as int]));
        }
        assert(rows_of(ordered@) =~= shown + unused_rows(measured, used@, r + 1));
        r += 1;
    }
    ordered
}

// ---------------------------------------------------------------------------------------
// Lines

/// A row to be shown; the time is spelt with two decimals, or missing.
pub struct ShownRow {
    pub time: Option<String>,
    pub kind: String,
    pub name: String,
}

/// The line of a stage: its time, its kind in brackets, and its name.
pub open spec fn stat_line(time: Seq<char>, kind: Seq<char>, name: Seq<char>) -> Seq<char> {
    "  "@ + time + "ms  ["@ + kind + "] "@ + name
}

pub open spec fn time_or_dashes(time: Option<String>) -> Seq<char> {
    match time {
        Some(t) => t@,
        None => "--.--"@,
    }
}

/// The name of a kind in a line without a measurement.
pub open spec fn kind_word(kind: StageKind) -> Seq<char> {
    match kind {
        StageKind::Glsl => "Glsl"@,
        StageKind::Onnx => "Onnx"@,
        StageKind::Flow => "Flow"@,
    }
}

pub open spec fn row_lines(rows: Seq<ShownRow>) -> Seq<Seq<char>> {
    rows.map_values(|r: ShownRow| stat_line(time_or_dashes(r.time), r.kind@, r.name@))
}

/// The lines of the enabled stages while nothing is measured.
pub open spec fn waiting_lines(chain: Seq<StageSpec>) -> Seq<Seq<char>>
    decreases chain.len(),
{
    if chain.len() == 0 {
        Seq::empty()
    } else {
        let rest = waiting_lines(chain.drop_last());
        let stage = chain.last();
        if stage.enabled {
            rest.push(stat_line("--.--"@, kind_word(stage.kind), file_name(stage.path@)))
        } else {
            rest
        }
    }
}

/// The lines of the statistics: one for each row, or for each enabled stage as long as there
/// is no row.
pub open spec fn shown_lines(chain: Seq<StageSpec>, rows: Seq<ShownRow>) -> Seq<Seq<char>> {
    if rows.len() == 0 {
        waiting_lines(chain)
    } else {
        row_lines(rows)
    }
}

fn line_of(time: &str, kind: &str, name: &str) -> (line: String)
    ensures
        line@ == stat_line(time@, kind@, name@),
{
    let mut line = String::from_str("  ");
    line.append(time);
    line.append("ms  [");
    line.append(kind);
    line.append("] ");
    line.append(name);
    line
}

/// The lines of the statistics.
pub fn stats_lines(chain: &[StageSpec], rows: &[ShownRow]) -> (lines: Vec<String>)
    ensures
        texts(lines@) == shown_lines(chain@, rows@),
{
    let mut lines: Vec<String> = Vec::new();
    let mut i: usize = 0;
    if rows.len() == 0 {
        assert(texts(lines@) =~= waiting_lines(chain@.take(0)));
        while i < chain.len()
            invariant
                i <= chain@.len(),
                texts(lines@) == waiting_lines(chain@.take(i as int)),
            decreases chain@.len() - i,
        {
            let ghost before = texts(lines@);
            assert(chain@.take(i + 1).drop_last() =~= chain@.take(i as int));
            if chain[i].enabled {
                let kind = match chain[i].kind {
                    StageKind::Glsl => "Glsl",
                    StageKind::Onnx => "Onnx",
                    StageKind::Flow => "Flow",
                };
                let name = stage_file_name(chain[i].path.as_str());
                let line = line_of("--.--", kind, name.as_str());
                let ghost text = line@;
                lines.push(line);
                assert(texts(lines@) =~= before.push(text));
            }
            i += 1;
        }
        assert(chain@.take(i as int) =~= chain@);
    } else {
        assert(texts(lines@) =~= row_lines(rows@.take(0)));
        while i < rows.len()
            invariant
                i <= rows@.len(),
                texts(lines@) == row_lines(rows@.take(i as int)),
            decreases rows@.len() - i,
        {
            let ghost before = texts(lines@);
            let row = &rows[i];
            let line = match &row.time {
                Some(time) => line_of(time.as_str(), row.kind.as_str(), row.name.as_str()),
                None => line_of("--.--", row.kind.as_str(), row.name.as_str()),
            };
            let ghost text = line@;
            lines.push(line);
            assert(texts(lines@) =~= before.push(text));
            assert(row_lines(rows@.take(i + 1)) =~= before.push(text));
            i += 1;
        }
        assert(rows@.take(i as int) =~= rows@);
    }
    lines
}

// ---------------------------------------------------------------------------------------
// What the statistics are for

/// The file name of a path is what stands behind its last slash, of either kind, in an ordinary
/// path of folders.
pub proof fn a_file_name_stands_behind_the_last_slash(folder: Seq<char>, file: Seq<char>)
    requires
        folder.len() > 0,
        folder[0] != '/' && folder[0] != '\\',
        folder.len() > 1 ==> folder[1] != ':',
        file.len() > 0,
        !file.contains('/'),
        !file.contains('\\'),
        file != "."@,
        file != ".."@,
    ensures
        file_name(folder.push('/') + file) == file,
        file_name(folder.push('\\') + file) == file,
{
    lemma_named_behind(folder, '/', file);
    lemma_named_behind(folder, '\\', file);
}

proof fn lemma_named_behind(folder: Seq<char>, slash: char, file: Seq<char>)
    requires
        slash == '/' || slash == '\\',
        folder.len() > 0,
        folder[0] != '/' && folder[0] != '\\',
        folder.len() > 1 ==> folder[1] != ':',
        file.len() > 0,
        !file.contains('/'),
        !file.contains('\\'),
        file != "."@,
        file != ".."@,
    ensures
        file_name(folder.push(slash) + file) == file,
{
    let path = folder.push(slash) + file;
    assert(path[0] == folder[0]);
    assert(path[1] != ':') by {
        if folder.len() > 1 {
            assert(path[1] == folder[1]);
        }
    }
    assert(prefix_length(path) == 0);
    assert(body_start(path) == 0);
    assert(path.skip(0) =~= path);
    let slashed = forward_slashes(path);
    let front = forward_slashes(folder);
    assert(forward_slashes(file) =~= file) by {
        assert forall|i: int| 0 <= i < file.len() implies forward_slashes(file)[i] == file[i] by {
            assert(file.contains(file[i]));
        }
    }
    assert(slashed =~= front.push('/') + file);
    lemma_last_piece(front, file);
    let pieces = split_on(slashed, '/');
    assert(pieces.last() == file);
    assert(pieces.len() > 0);
}

proof fn lemma_last_piece(front: Seq<char>, file: Seq<char>)
    requires
        !file.contains('/'),
    ensures
        split_on(front.push('/') + file, '/').len() > 0,
        split_on(front.push('/') + file, '/').last() == file,
    decreases file.len(),
{
    let whole = front.push('/') + file;
    if file.len() == 0 {
        assert(whole =~= front.push('/'));
        assert(whole.last() == '/');
        assert(file =~= Seq::<char>::empty());
    } else {
        let rest = file.drop_last();
        assert(!rest.contains('/')) by {
            if rest.contains('/') {
                let k = choose|k: int| 0 <= k < rest.len() && rest[k] == '/';
                assert(file[k] == '/');
            }
        }
        lemma_last_piece(front, rest);
        assert(whole.drop_last() =~= front.push('/') + rest);
        assert(file.contains(file.last()));
        assert(whole.last() == file.last());
        assert(rest.push(file.last()) =~= file);
    }
}

/// The rows that a chain waits for are those of the filters that are switched on, in their order,
/// each by the name of its file.
pub proof fn a_chain_waits_for_its_filters(chain: Seq<StageSpec>, next: StageSpec)
    ensures
        next.enabled ==> enabled_filters(chain.push(next)) == enabled_filters(chain).push(
            Filter { kind: next.kind, name: file_name(next.path@) },
        ),
        !next.enabled ==> enabled_filters(chain.push(next)) == enabled_filters(chain),
        enabled_filters(Seq::empty()).len() == 0,
{
    assert(chain.push(next).drop_last() =~= chain);
}

/// Filters with one name are counted one by one, whatever the case of its letters.
pub proof fn filters_of_a_name_are_counted(filters: Seq<Filter>, next: Filter, name: Seq<char>)
    ensures
        lower_text(next.name) == lower_text(name) ==> name_count(filters.push(next), name) == name_count(filters, name)
            + 1,
        lower_text(next.name) != lower_text(name) ==> name_count(filters.push(next), name) == name_count(filters, name),
        name_count(Seq::empty(), name) == 0,
{
    assert(filters.push(next).drop_last() =~= filters);
}

/// A filter shows the first of the measured rows that belong to it and that no filter before it
/// shows; only where there is none it shows that it has no measurement.
pub proof fn a_filter_shows_its_first_free_row(filters: Seq<Filter>, rows: Seq<StatRow>, k: int, i: int)
    requires
        0 <= k < filters.len(),
        0 <= i < rows.len(),
    ensures
        ({
            let before = placed(filters, rows, k);
            let after = placed(filters, rows, k + 1);
            &&& !before.used[i] && row_matches(filters, k, rows[i].label) && (forall|j: int|
                0 <= j < i && !before.used[j] ==> !row_matches(filters, k, #[trigger] rows[j].label)) ==> after.shown
                == before.shown.push(rows[i]) && after.used == before.used.update(i, true)
            &&& (forall|j: int|
                0 <= j < rows.len() && !before.used[j] ==> !row_matches(filters, k, #[trigger] rows[j].label))
                ==> after.shown == before.shown.push(
                StatRow {
                    label: filters[k].name,
                    kind: (match filters[k].kind {
                        StageKind::Glsl => "glsl"@,
                        StageKind::Onnx => "onnx"@,
                        StageKind::Flow => "gpu"@,
                    }),
                    ms: 0xbff0_0000_0000_0000,
                },
            ) && after.used == before.used
            &&& !placed(filters, rows, 0).used[i]
            &&& placed(filters, rows, 0).shown.len() == 0
        }),
{
    let before = placed(filters, rows, k);
    lemma_first_match(filters, k, rows, before.used, 0);
    match first_match(filters, k, rows, before.used, 0) {
        Some(m) => {
            lemma_no_earlier_match(filters, k, rows, before.used, 0);
            if !before.used[i] && row_matches(filters, k, rows[i].label) && (forall|j: int|
                0 <= j < i && !before.used[j] ==> !row_matches(filters, k, #[trigger] rows[j].label)) {
                if m < i {
                    assert(!row_matches(filters, k, rows[m].label));
                }
                if i < m {
                    assert(!row_matches(filters, k, rows[i].label));
                }
                assert(m == i);
            }
        },
        None => {},
    }
}

proof fn lemma_no_earlier_match(filters: Seq<Filter>, k: int, rows: Seq<StatRow>, used: Seq<bool>, from: int)
    requires
        0 <= from,
    ensures
        first_match(filters, k, rows, used, from) matches Some(i) ==> forall|j: int|
            from <= j < i && !used[j] ==> !row_matches(filters, k, #[trigger] rows[j].label),
    decreases rows.len() - from,
{
    if from < rows.len() && !(!used[from] && row_matches(filters, k, rows[from].label)) {
        lemma_no_earlier_match(filters, k, rows, used, from + 1);
    }
}

/// The rows of no filter follow behind, in the order in which they came.
pub proof fn other_rows_follow_in_their_order(filters: Seq<Filter>, rows: Seq<StatRow>, used: Seq<bool>, n: int)
    requires
        0 <= n < rows.len(),
    ensures
        used[n] ==> unused_rows(rows, used, n + 1) == unused_rows(rows, used, n),
        !used[n] ==> unused_rows(rows, used, n + 1) == unused_rows(rows, used, n).push(rows[n]),
        unused_rows(rows, used, 0).len() == 0,
        chain_order(filters, rows).take(filters.len() as int) == placed(filters, rows, filters.len() as int).shown,
        chain_order(filters, rows).skip(filters.len() as int) == unused_rows(
            rows,
            placed(filters, rows, filters.len() as int).used,
            rows.len() as int,
        ),
{
    let p = placed(filters, rows, filters.len() as int);
    lemma_placed_shape(filters, rows, filters.len() as int);
    let rest = unused_rows(rows, p.used, rows.len() as int);
    assert((p.shown + rest).take(filters.len() as int) =~= p.shown);
    assert((p.shown + rest).skip(filters.len() as int) =~= rest);
}

/// A row belongs to a filter by the filter's name; where several filters share it, the row's number
/// must be that of the filter among them. The rows of frame interpolation belong to its stage.
pub proof fn rows_belong_by_name_and_number(filters: Seq<Filter>, k: int, label: Seq<char>)
    requires
        0 <= k < filters.len(),
    ensures
        row_matches(filters, k, label) ==> lower_text(label_filter(label)) == lower_text(filters[k].name) || (
        filters[k].kind == StageKind::Flow && lower_text(label) == lower_text("Frame interpolation"@)),
        lower_text(label_filter(label)) == lower_text(filters[k].name) && name_count(filters, filters[k].name) <= 1
            ==> row_matches(filters, k, label),
        name_count(filters, filters[k].name) > 1 && row_matches(filters, k, label) ==> label_occurrence(label) == Some(
            name_count(filters.take(k + 1), filters[k].name),
        ),
        lower_text(label_filter(label)) == lower_text(filters[k].name) && label_occurrence(label) == Some(
            name_count(filters.take(k + 1), filters[k].name),
        ) ==> row_matches(filters, k, label),
{
}

/// A number behind a name is the number of the row, and the name is the row's without it.
pub proof fn a_number_behind_a_name_counts(name: Seq<char>, n: nat)
    requires
        n <= usize::MAX,
        forall|i: int| 0 <= i < name.len() ==> #[trigger] name[i] != ' ',
    ensures
        label_occurrence(name + " #"@ + decimal(n)) == Some(n),
        label_filter(name + " #"@ + decimal(n)) == name,
{
    reveal_strlit(" #");
    reveal_strlit(" [");
    let d = decimal(n);
    lemma_decimal_is_digits(n);
    let numbered = name + " #"@ + d;
    let at = name.len() as int;
    lemma_no_pattern(name, " ["@);
    assert(numbered.subrange(at, at + 2) =~= " #"@);
    assert(occurs_at(numbered, " #"@, at));
    assert forall|j: int| j > at implies !#[trigger] occurs_at(numbered, " #"@, j) by {
        if occurs_at(numbered, " #"@, j) {
            assert(numbered.subrange(j, j + 2)[0] == numbered[j]);
            if j == at + 1 {
                assert(numbered[j] == '#');
            } else {
                assert(numbered[j] == d[j - at - 2]);
                assert(is_digit(d[j - at - 2]));
            }
        }
    }
    let k = choose|i: int| is_last_occurrence(numbered, " #"@, i);
    assert(is_last_occurrence(numbered, " #"@, at));
    assert(is_last_occurrence(numbered, " #"@, k));
    assert(k == at);
    assert(numbered.skip(at + 2) =~= d);
    assert(label_number(numbered) == Some(d));
    assert(numbered.take(numbered.len() - d.len() - 2) =~= name);
}

/// The word in brackets behind a name is no part of it, and no number.
pub proof fn a_word_in_brackets_is_no_part_of_the_name(name: Seq<char>, provider: Seq<char>)
    requires
        forall|i: int| 0 <= i < name.len() ==> #[trigger] name[i] != ' ',
        forall|i: int| 0 <= i < provider.len() ==> #[trigger] provider[i] != ' ',
    ensures
        label_occurrence(name) is None,
        label_filter(name) == name,
        label_filter(name + " ["@ + provider) == name,
        label_occurrence(name + " ["@ + provider) is None,
{
    reveal_strlit(" #");
    reveal_strlit(" [");
    let at = name.len() as int;
    lemma_no_pattern(name, " #"@);
    lemma_no_pattern(name, " ["@);
    let marked = name + " ["@ + provider;
    assert(!contains_text(marked, " #"@)) by {
        if contains_text(marked, " #"@) {
            let i = choose|i: int| #[trigger] occurs_at(marked, " #"@, i);
            assert(marked.subrange(i, i + 2)[0] == marked[i]);
            assert(marked.subrange(i, i + 2)[1] == marked[i + 1]);
            if i < at {
                assert(name[i] == ' ');
            } else if i > at + 1 {
                assert(provider[i - at - 2] == ' ');
            }
        }
    }
    assert(marked.subrange(at, at + 2) =~= " ["@);
    assert(occurs_at(marked, " ["@, at));
    assert forall|j: int| j < at implies !#[trigger] occurs_at(marked, " ["@, j) by {
        if occurs_at(marked, " ["@, j) {
            assert(marked.subrange(j, j + 2)[0] == marked[j]);
            assert(name[j] == ' ');
        }
    }
    assert(is_first_occurrence(marked, " ["@, at));
    before_first_is_unique(marked, " ["@, at);
    assert(marked.take(at) =~= name);
}

proof fn lemma_no_pattern(name: Seq<char>, pat: Seq<char>)
    requires
        pat.len() == 2,
        pat[0] == ' ',
        forall|i: int| 0 <= i < name.len() ==> #[trigger] name[i] != ' ',
    ensures
        !contains_text(name, pat),
        before_first(name, pat) == name,
{
    if contains_text(name, pat) {
        let i = choose|i: int| #[trigger] occurs_at(name, pat, i);
        assert(name.subrange(i, i + 2)[0] == ' ');
        assert(name[i] == ' ');
    }
}

proof fn lemma_decimal_is_digits(n: nat)
    ensures
        decimal(n).len() > 0,
        all_digits(decimal(n)),
        digits_value(decimal(n)) == n,
    decreases n,
{
    reveal_with_fuel(digits_value, 2);
    if n >= 10 {
        lemma_decimal_is_digits(n / 10);
        assert(decimal(n).drop_last() =~= decimal(n / 10));
    } else {
        assert(decimal(n).drop_last() =~= Seq::<char>::empty());
    }
}

/// A line shows the time, the kind and the name, in this order, and dashes for a time that is not
/// there; the filters that wait have a line each, in the order of the chain.
pub proof fn lines_show_time_kind_and_name(chain: Seq<StageSpec>, next: StageSpec, rows: Seq<ShownRow>, i: int)
    ensures
        0 <= i < rows.len() ==> shown_lines(chain, rows)[i] == "  "@ + (match rows[i].time {
            Some(t) => t@,
            None => "--.--"@,
        }) + "ms  ["@ + rows[i].kind@ + "] "@ + rows[i].name@,
        rows.len() > 0 ==> shown_lines(chain, rows).len() == rows.len(),
        rows.len() == 0 && next.enabled ==> shown_lines(chain.push(next), rows) == shown_lines(chain, rows).push(
            "  "@ + "--.--"@ + "ms  ["@ + (match next.kind {
                StageKind::Glsl => "Glsl"@,
                StageKind::Onnx => "Onnx"@,
                StageKind::Flow => "Flow"@,
            }) + "] "@ + file_name(next.path@),
        ),
        rows.len() == 0 && !next.enabled ==> shown_lines(chain.push(next), rows) == shown_lines(chain, rows),
{
    assert(chain.push(next).drop_last() =~= chain);
}

/// The drive before a path is no part of a file's name, and a path that is only a prefix, a drive or a
/// server with its share, names no file.
pub proof fn a_prefix_names_no_file(letter: char, server: Seq<char>, share: Seq<char>, file: Seq<char>)
    requires
        ('A' <= letter <= 'Z') || ('a' <= letter <= 'z'),
        server.len() > 0,
        share.len() > 0,
        file.len() > 0,
        !server.contains('/') && !server.contains('\\'),
        !share.contains('/') && !share.contains('\\'),
        !file.contains('/') && !file.contains('\\'),
        server[0] != '?' && server[0] != '.',
        file != "."@,
        file != ".."@,
    ensures
        file_name(seq![letter, ':'] + file) == file,
        file_name(seq![letter, ':', '\\'] + file) == file,
        file_name(seq![letter, ':']) == seq![letter, ':'],
        file_name(seq!['\\', '\\'] + server + seq!['\\'] + share) == seq!['\\', '\\'] + server + seq!['\\'] + share,
{
    reveal_strlit(".");
    reveal_strlit("..");
    lemma_plain_name(seq![letter, ':'] + file, 2, file);
    lemma_plain_name(seq![letter, ':', '\\'] + file, 3, file);
    let drive = seq![letter, ':'];
    assert(drive.skip(2) =~= Seq::<char>::empty());
    assert(forward_slashes(Seq::<char>::empty()) =~= Seq::<char>::empty());
    assert(split_on(Seq::<char>::empty(), '/') =~= seq![Seq::<char>::empty()]);
    lemma_no_piece();
    let unc = seq!['\\', '\\'] + server + seq!['\\'] + share;
    let first = 2 + server.len() as int;
    assert(unc[0] == '\\' && unc[1] == '\\' && unc[2] == server[0]);
    lemma_piece_ends(unc, 2, first);
    lemma_piece_ends(unc, first + 1, unc.len() as int);
    assert(piece_end(unc, 2, false) == first);
    assert(piece_end(unc, first + 1, false) == unc.len());
    assert(prefix_length(unc) == unc.len());
    assert(unc.skip(unc.len() as int) =~= Seq::<char>::empty());
}

proof fn lemma_no_piece()
    ensures
        last_named(seq![Seq::<char>::empty()], false) is None,
{
    let pieces = seq![Seq::<char>::empty()];
    assert(pieces.drop_last() =~= Seq::<Seq<char>>::empty());
    reveal_with_fuel(last_named, 2);
}

proof fn lemma_piece_ends(path: Seq<char>, from: int, to: int)
    requires
        0 <= from <= to <= path.len(),
        forall|i: int| from <= i < to ==> #[trigger] path[i] != '/' && path[i] != '\\',
        to < path.len() ==> path[to] == '/' || path[to] == '\\',
    ensures
        piece_end(path, from, false) == to,
    decreases to - from,
{
    if from < to {
        lemma_piece_ends(path, from + 1, to);
    }
}

proof fn lemma_plain_name(path: Seq<char>, start: int, file: Seq<char>)
    requires
        body_start(path) == start || (start == 2 && path.len() > 2),
        0 <= start <= path.len(),
        path.len() >= 3,
        path[1] == ':',
        ('A' <= path[0] <= 'Z') || ('a' <= path[0] <= 'z'),
        path.skip(start) =~= file,
        start == 2 || (start == 3 && path[2] == '\\'),
        file.len() > 0,
        !file.contains('/') && !file.contains('\\'),
        file != "."@,
        file != ".."@,
    ensures
        file_name(path) == file,
{
    assert(prefix_length(path) == 2);
    if start == 2 {
        assert(path[2] == file[0]);
        assert(file.contains(file[0]));
    }
    assert(body_start(path) == start);
    assert(forward_slashes(file) =~= file) by {
        assert forall|i: int| 0 <= i < file.len() implies forward_slashes(file)[i] == file[i] by {
            assert(file.contains(file[i]));
        }
    }
    lemma_one_piece(file);
    let pieces = split_on(file, '/');
    assert(pieces.last() == file);
}

proof fn lemma_one_piece(file: Seq<char>)
    requires
        !file.contains('/'),
    ensures
        split_on(file, '/') == seq![file],
    decreases file.len(),
{
    if file.len() > 0 {
        let rest = file.drop_last();
        assert(!rest.contains('/')) by {
            if rest.contains('/') {
                let k = choose|k: int| 0 <= k < rest.len() && rest[k] == '/';
                assert(file[k] == '/');
            }
        }
        lemma_one_piece(rest);
        assert(file.contains(file.last()));
        assert(rest.push(file.last()) =~= file);
        assert(split_on(file, '/') =~= seq![file]);
    } else {
        assert(file =~= Seq::<char>::empty());
    }
}

/// Nothing of a measured row is out of sight of the contracts.
pub proof fn measured_rows_are_seen_whole(rows: Seq<(String, StageStat)>, i: int)
    requires
        0 <= i < rows.len(),
    ensures
        rows_of(rows).len() == rows.len(),
        rows_of(rows)[i].label == rows[i].0@,
        rows_of(rows)[i].kind == rows[i].1.kind@,
        rows_of(rows)[i].ms == rows[i].1.ms,
{
}

} // verus!
