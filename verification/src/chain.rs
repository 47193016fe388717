//! The filter chain: its stages, their parameters, and the edits of the chain editor.
use vstd::prelude::*;
use crate::text::{chars_of, contains, same_text, starts_with, string_of, to_ascii_lowercase};
use crate::text::{contains_text, lower_char, lower_text};

verus! {

/// What runs a stage.
#[derive(Clone, Copy, Debug, PartialEq, Eq, Structural)]
pub enum StageKind {
    Glsl,
    Onnx,
    Flow,
}

/// One stage of a chain. A parameter's value is the bit pattern of a single-precision number.
#[derive(Debug)]
pub struct StageSpec {
    pub kind: StageKind,
    pub path: String,
    pub enabled: bool,
    pub params: Vec<(String, u32)>,
}

/// A stage as a mathematical value.
pub struct Stage {
    pub kind: StageKind,
    pub path: Seq<char>,
    pub enabled: bool,
    pub params: Map<Seq<char>, u32>,
}

/// The parameters that a list of pairs stands for; the last pair with a name counts.
pub open spec fn params_map(list: Seq<(String, u32)>) -> Map<Seq<char>, u32>
    decreases list.len(),
{
    if list.len() == 0 {
        Map::empty()
    } else {
        params_map(list.drop_last()).insert(list.last().0@, list.last().1)
    }
}

impl View for StageSpec {
    type V = Stage;

    open spec fn view(&self) -> Stage {
        Stage { kind: self.kind, path: self.path@, enabled: self.enabled, params: params_map(self.params@) }
    }
}

/// The stages of a chain.
pub open spec fn stages(chain: Seq<StageSpec>) -> Seq<Stage> {
    chain.map_values(|s: StageSpec| s@)
}

impl Clone for StageSpec {
    fn clone(&self) -> (r: Self)
        ensures
            r@ == self@,
    {
        let mut params: Vec<(String, u32)> = Vec::new();
        let mut i: usize = 0;
        while i < self.params.len()
            invariant
                i <= self.params@.len(),
                params@ == self.params@.take(i as int),
            decreases self.params@.len() - i,
        {
            params.push((self.params[i].0.clone(), self.params[i].1));
            assert(params@ =~= self.params@.take(i + 1));
            i += 1;
        }
        assert(params@ =~= self.params@);
        StageSpec { kind: self.kind, path: self.path.clone(), enabled: self.enabled, params }
    }
}

/// A copy of a chain.
pub fn clone_chain(chain: &[StageSpec]) -> (r: Vec<StageSpec>)
    ensures
        stages(r@) == stages(chain@),
{
    let mut r: Vec<StageSpec> = Vec::new();
    let mut i: usize = 0;
    while i < chain.len()
        invariant
            i <= chain@.len(),
            stages(r@) == stages(chain@).take(i as int),
        decreases chain@.len() - i,
    {
        let ghost before = stages(r@);
        r.push(chain[i].clone());
        assert(stages(r@) =~= before.push(chain@[i as int]@));
        assert(stages(r@) =~= stages(chain@).take(i + 1));
        i += 1;
    }
    assert(stages(r@) =~= stages(chain@));
    r
}

// ---------------------------------------------------------------------------------------
// Parameters

/// The parameter of the resize shaders.
pub open spec fn resize_scale_name() -> Seq<char> {
    "RESIZE_SCALE"@
}

/// Bit patterns of 0.25, 0.75 and 4.0.
pub const RESIZE_SCALE_MIN: u32 = 0x3e80_0000;
pub const RESIZE_SCALE_DEFAULT: u32 = 0x3f40_0000;
pub const RESIZE_SCALE_MAX: u32 = 0x4080_0000;

/// Whether a bit pattern is no number.
pub open spec fn is_nan_bits(bits: u32) -> bool {
    bits % 0x8000_0000 > 0x7f80_0000
}

/// A single-precision number held to the range from 0.25 to 4.0. What is no number stays as
/// it is; the patterns of positive numbers are ordered as the numbers are.
pub open spec fn clamped_scale(bits: u32) -> u32 {
    if is_nan_bits(bits) {
        bits
    } else if bits >= 0x8000_0000 || bits < RESIZE_SCALE_MIN {
        RESIZE_SCALE_MIN
    } else if bits > RESIZE_SCALE_MAX {
        RESIZE_SCALE_MAX
    } else {
        bits
    }
}

pub fn clamp_resize_scale(bits: u32) -> (r: u32)
    ensures
        r == clamped_scale(bits),
{
    if bits % 0x8000_0000 > 0x7f80_0000 {
        bits
    } else if bits >= 0x8000_0000 || bits < RESIZE_SCALE_MIN {
        RESIZE_SCALE_MIN
    } else if bits > RESIZE_SCALE_MAX {
        RESIZE_SCALE_MAX
    } else {
        bits
    }
}

/// Holding a value to its range twice changes nothing more.
pub proof fn clamping_the_scale_is_idempotent(bits: u32)
    ensures
        clamped_scale(clamped_scale(bits)) == clamped_scale(bits),
        !is_nan_bits(bits) ==> RESIZE_SCALE_MIN <= clamped_scale(bits) <= RESIZE_SCALE_MAX,
{
}

/// The pairs with another name.
spec fn without(list: Seq<(String, u32)>, name: Seq<char>) -> Seq<(String, u32)>
    decreases list.len(),
{
    if list.len() == 0 {
        list
    } else if list.last().0@ == name {
        without(list.drop_last(), name)
    } else {
        without(list.drop_last(), name).push(list.last())
    }
}

proof fn lemma_params_without(list: Seq<(String, u32)>, name: Seq<char>)
    ensures
        params_map(without(list, name)) == params_map(list).remove(name),
    decreases list.len(),
{
    if list.len() > 0 {
        lemma_params_without(list.drop_last(), name);
        let before = without(list.drop_last(), name);
        assert(before.push(list.last()).drop_last() =~= before);
    }
    assert(params_map(without(list, name)) =~= params_map(list).remove(name));
}

impl StageSpec {
    /// The value of a parameter.
    pub fn param(&self, name: &str) -> (value: Option<u32>)
        ensures
            value == (if self@.params.contains_key(name@) {
                Some(self@.params[name@])
            } else {
                None
            }),
    {
        let mut value: Option<u32> = None;
        let mut i: usize = 0;
        while i < self.params.len()
            invariant
                i <= self.params@.len(),
                value == (if params_map(self.params@.take(i as int)).contains_key(name@) {
                    Some(params_map(self.params@.take(i as int))[name@])
                } else {
                    None
                }),
            decreases self.params@.len() - i,
        {
            assert(self.params@.take(i + 1).drop_last() =~= self.params@.take(i as int));
            if same_text(self.params[i].0.as_str(), name) {
                value = Some(self.params[i].1);
            }
            i += 1;
        }
        assert(self.params@.take(i as int) =~= self.params@);
        value
    }

    /// Gives a parameter a value.
    pub fn set_param(&mut self, name: &str, value: u32)
        ensures
            final(self)@ == (Stage { params: old(self)@.params.insert(name@, value), ..old(self)@ }),
    {
        let ghost list = self.params@;
        let mut params: Vec<(String, u32)> = Vec::new();
        let mut i: usize = 0;
        while i < self.params.len()
            invariant
                i <= self.params@.len(),
                list == self.params@,
                params@ == without(list.take(i as int), name@),
                *self == *old(self),
            decreases self.params@.len() - i,
        {
            assert(list.take(i + 1).drop_last() =~= list.take(i as int));
            if !same_text(self.params[i].0.as_str(), name) {
                params.push((self.params[i].0.clone(), self.params[i].1));
            }
            i += 1;
        }
        let ghost kept = params@;
        proof {
            assert(list.take(i as int) =~= list);
            lemma_params_without(list, name@);
        }
        params.push((name.to_owned(), value));
        proof {
            assert(params@.drop_last() =~= kept);
            assert(params_map(params@) =~= params_map(list).insert(name@, value));
        }
        self.params = params;
    }
}

// ---------------------------------------------------------------------------------------
// Kinds of stages

/// A path with forward slashes only.
pub open spec fn forward_slashes(s: Seq<char>) -> Seq<char> {
    s.map_values(
        |c: char|
            if c == '\\' {
                '/'
            } else {
                c
            },
    )
}

/// The path leads to one of the resize shaders.
pub open spec fn is_resize_path(path: Seq<char>) -> bool {
    "shaders/resize/"@.is_prefix_of(lower_text(forward_slashes(path)))
}

/// A path with forward slashes in place of backslashes.
pub fn to_forward_slashes(path: &str) -> (slashed: String)
    ensures
        slashed@ == forward_slashes(path@),
{
    let mut slashed = String::new();
    for c in it: path.chars()
        invariant
            it.seq() == path@,
            slashed@ == forward_slashes(path@.take(it.index() as int)),
    {
        let ghost before = slashed@;
        if c == '\\' {
            slashed.push('/');
        } else {
            slashed.push(c);
        }
        assert(forward_slashes(path@.take(it.index() + 1)) =~= before.push(slashed@.last()));
    }
    assert(path@.take(path@.len() as int) =~= path@);
    slashed
}

/// Whether a path leads to one of the resize shaders, whatever its case and slashes.
pub fn is_resize_shader_path(path: &str) -> (r: bool)
    ensures
        r == is_resize_path(path@),
{
    starts_with(to_ascii_lowercase(to_forward_slashes(path).as_str()).as_str(), "shaders/resize/")
}

/// A stage that no longer runs.
pub open spec fn is_frozen(stage: Stage) -> bool {
    stage.kind == StageKind::Flow || contains_text(lower_text(stage.path), "neoflow"@)
}

/// Built-in frame interpolation that is kept out of use.
pub fn is_frozen_neoflow_stage(stage: &StageSpec) -> (r: bool)
    ensures
        r == is_frozen(stage@),
{
    stage.kind == StageKind::Flow || contains(to_ascii_lowercase(stage.path.as_str()).as_str(), "neoflow")
}

/// What stands behind the last slash of either kind.
pub open spec fn after_last_slash(s: Seq<char>) -> Seq<char>
    decreases s.len(),
{
    if s.len() == 0 {
        s
    } else if s.last() == '/' || s.last() == '\\' {
        Seq::empty()
    } else {
        after_last_slash(s.drop_last()).push(s.last())
    }
}

/// The name under which a built-in stage is shown.
pub open spec fn builtin_name(name: Seq<char>) -> Seq<char> {
    if "neoflow"@.is_prefix_of(lower_text(name)) {
        "NeoFlow"@
    } else {
        name
    }
}

/// The name of a stage in the chain editor.
pub open spec fn stage_title(path: Seq<char>) -> Seq<char> {
    if "builtin:"@.is_prefix_of(path) {
        builtin_name(path.skip("builtin:"@.len() as int))
    } else {
        after_last_slash(path)
    }
}

pub fn builtin_display_name(name: &str) -> (r: String)
    ensures
        r@ == builtin_name(name@),
{
    if starts_with(to_ascii_lowercase(name).as_str(), "neoflow") {
        String::from_str("NeoFlow")
    } else {
        name.to_owned()
    }
}

/// The text behind a prefix, if the text has it.
pub fn strip_prefix(s: &str, prefix: &str) -> (r: Option<String>)
    ensures
        match r {
            Some(rest) => prefix@.is_prefix_of(s@) && rest@ == s@.skip(prefix@.len() as int),
            None => !prefix@.is_prefix_of(s@),
        },
{
    if !starts_with(s, prefix) {
        return None;
    }
    let v = chars_of(s);
    let n: usize = prefix.unicode_len();
    let rest = string_of(v.as_slice(), n, v.len());
    assert(rest@ =~= s@.skip(n as int));
    Some(rest)
}

proof fn lemma_after_last_slash(s: Seq<char>, from: int)
    requires
        0 <= from <= s.len(),
        from > 0 ==> s[from - 1] == '/' || s[from - 1] == '\\',
        forall|i: int| from <= i < s.len() ==> #[trigger] s[i] != '/' && s[i] != '\\',
    ensures
        after_last_slash(s) == s.skip(from),
    decreases s.len(),
{
    if s.len() == 0 {
        assert(s.skip(from) =~= s);
    } else if from == s.len() {
        assert(s.skip(from) =~= Seq::<char>::empty());
    } else {
        assert(s[s.len() - 1] != '/' && s[s.len() - 1] != '\\');
        assert forall|i: int| from <= i < s.drop_last().len() implies #[trigger] s.drop_last()[i] != '/'
            && s.drop_last()[i] != '\\' by {
            assert(s[i] != '/');
        }
        lemma_after_last_slash(s.drop_last(), from);
        assert(s.drop_last().skip(from).push(s.last()) =~= s.skip(from));
    }
}

/// The name of a stage in the chain editor: the built-in name, or the file name.
pub fn stage_display_name(path: &str) -> (r: String)
    ensures
        r@ == stage_title(path@),
{
    if let Some(name) = strip_prefix(path, "builtin:") {
        return builtin_display_name(name.as_str());
    }
    let v = chars_of(path);
    let mut from: usize = v.len();
    while from > 0 && v[from - 1] != '/' && v[from - 1] != '\\'
        invariant
            from <= v@.len(),
            v@ == path@,
            forall|i: int| from <= i < v@.len() ==> #[trigger] path@[i] != '/' && path@[i] != '\\',
        decreases from,
    {
        from -= 1;
    }
    proof {
        lemma_after_last_slash(path@, from as int);
    }
    let r = string_of(v.as_slice(), from, v.len());
    assert(r@ =~= path@.skip(from as int));
    r
}

/// The badge in front of a stage's name.
pub fn stage_badge(kind: StageKind) -> (badge: &'static str)
    ensures
        badge@ == (match kind {
            StageKind::Glsl => "GLSL"@,
            StageKind::Onnx => "ONNX"@,
            StageKind::Flow => "FG"@,
        }),
{
    match kind {
        StageKind::Glsl => "GLSL",
        StageKind::Onnx => "ONNX",
        StageKind::Flow => "FG",
    }
}

// ---------------------------------------------------------------------------------------
// Edits

/// A new stage: enabled, and with the default scale if it is a resize shader.
pub open spec fn new_stage(kind: StageKind, path: Seq<char>) -> Stage {
    Stage {
        kind,
        path,
        enabled: true,
        params: if is_resize_path(path) {
            Map::<Seq<char>, u32>::empty().insert(resize_scale_name(), RESIZE_SCALE_DEFAULT)
        } else {
            Map::empty()
        },
    }
}

/// Adds a stage at the end and returns its place.
pub fn append_filter_stage(chain: &mut Vec<StageSpec>, kind: StageKind, path: String) -> (index: usize)
    ensures
        index == old(chain)@.len(),
        stages(final(chain)@) == stages(old(chain)@).push(new_stage(kind, path@)),
{
    let index: usize = chain.len();
    let mut stage = StageSpec { kind, path, enabled: true, params: Vec::new() };
    if is_resize_shader_path(stage.path.as_str()) {
        stage.set_param("RESIZE_SCALE", RESIZE_SCALE_DEFAULT);
    }
    let ghost before = stages(chain@);
    assert(stage@ == new_stage(kind, path@));
    chain.push(stage);
    assert(stages(chain@) =~= before.push(new_stage(kind, path@)));
    index
}

/// The list with the item at `from` dropped in front of the item at `to`.
pub open spec fn dropped<T>(list: Seq<T>, from: int, to: int) -> Seq<T> {
    let at = if to > from {
        to - 1
    } else {
        to
    };
    if at != from && from < list.len() {
        let rest = list.remove(from);
        rest.insert(
            if at < rest.len() {
                at
            } else {
                rest.len() as int
            },
            list[from],
        )
    } else {
        list
    }
}

/// Drops the item at `from` in front of the item at `to`, and tells whether that moved it.
pub fn drop_item<T>(list: &mut Vec<T>, from: usize, to: usize) -> (moved: bool)
    ensures
        final(list)@ == dropped(old(list)@, from as int, to as int),
        moved == (from < old(list)@.len() && to != from && to != from + 1),
{
    let at: usize = if to > from {
        to - 1
    } else {
        to
    };
    if at != from && from < list.len() {
        let item = list.remove(from);
        let n: usize = list.len();
        list.insert(
            if at < n {
                at
            } else {
                n
            },
            item,
        );
        true
    } else {
        false
    }
}

/// Reordering loses nothing and adds nothing.
pub proof fn dropping_keeps_the_items<T>(list: Seq<T>, from: int, to: int)
    requires
        0 <= from,
        0 <= to,
    ensures
        dropped(list, from, to).to_multiset() == list.to_multiset(),
        dropped(list, from, to).len() == list.len(),
{
    let at = if to > from {
        to - 1
    } else {
        to
    };
    if at != from && from < list.len() {
        let rest = list.remove(from);
        let place = if at < rest.len() {
            at
        } else {
            rest.len() as int
        };
        broadcast use vstd::seq_lib::group_to_multiset_ensures;

        assert(rest.to_multiset() =~= list.to_multiset().remove(list[from]));
        assert(rest.insert(place, list[from]).to_multiset() =~= rest.to_multiset().insert(list[from]));
        assert(list.to_multiset().remove(list[from]).insert(list[from]) =~= list.to_multiset()) by {
            assert(list.to_multiset().count(list[from]) > 0) by {
                assert(list.contains(list[from]));
            }
        }
    }
}

/// Exchanges an item with the one behind it.
pub fn move_down<T>(list: &mut Vec<T>, index: usize)
    requires
        index + 1 < old(list)@.len(),
    ensures
        final(list)@ == old(list)@.update(index as int, old(list)@[index + 1]).update(
            index + 1,
            old(list)@[index as int],
        ),
        final(list)@ == swapped(old(list)@, index as int),
{
    let _bound: usize = list.len();
    let next: usize = index + 1;
    let item = list.remove(index);
    list.insert(next, item);
    assert(list@ =~= old(list)@.update(index as int, old(list)@[index + 1]).update(
        index + 1,
        old(list)@[index as int],
    ));
}

/// Exchanges an item with the one in front of it.
pub fn move_up<T>(list: &mut Vec<T>, index: usize)
    requires
        0 < index < old(list)@.len(),
    ensures
        final(list)@ == old(list)@.update(index as int, old(list)@[index - 1]).update(
            index - 1,
            old(list)@[index as int],
        ),
        final(list)@ == swapped(old(list)@, index - 1),
{
    let item = list.remove(index);
    list.insert(index - 1, item);
    assert(list@ =~= swapped(old(list)@, index - 1));
    assert(list@ =~= old(list)@.update(index as int, old(list)@[index - 1]).update(
        index - 1,
        old(list)@[index as int],
    ));
}

pub open spec fn row_below(pointer_above_middle: Seq<bool>) -> nat
    decreases pointer_above_middle.len(),
{
    if pointer_above_middle.len() == 0 || pointer_above_middle[0] {
        0
    } else {
        1 + row_below(pointer_above_middle.skip(1))
    }
}

/// A dragged row is dropped in front of the first row whose middle lies below the pointer, and
/// there is no other such place.
pub proof fn a_row_is_dropped_before_the_first_below(above: Seq<bool>, row: int)
    requires
        0 <= row <= above.len(),
    ensures
        row == row_below(above) <==> (forall|i: int| 0 <= i < row ==> !#[trigger] above[i]) && (row < above.len()
            ==> above[row]),
    decreases above.len(),
{
    if above.len() > 0 && !above[0] && row > 0 {
        let rest = above.skip(1);
        a_row_is_dropped_before_the_first_below(rest, row - 1);
        if forall|i: int| 0 <= i < row - 1 ==> !#[trigger] rest[i] {
            assert forall|i: int| 0 <= i < row implies !#[trigger] above[i] by {
                if i > 0 {
                    assert(!rest[i - 1]);
                }
            }
        } else {
            let i = choose|i: int| 0 <= i < row - 1 && #[trigger] rest[i];
            assert(above[i + 1]);
        }
    } else if above.len() > 0 && above[0] && row > 0 {
        assert(above[0]);
    }
}

/// The row in front of which a dragged row is dropped: the first whose middle lies below the
/// pointer, or the end of the list.
pub fn drop_row(pointer_above_middle: &[bool]) -> (row: usize)
    ensures
        row <= pointer_above_middle@.len(),
        forall|i: int| 0 <= i < row ==> !#[trigger] pointer_above_middle@[i],
        row < pointer_above_middle@.len() ==> pointer_above_middle@[row as int],
        row == row_below(pointer_above_middle@),
{
    let mut row: usize = 0;
    while row < pointer_above_middle.len() && !pointer_above_middle[row]
        invariant
            row <= pointer_above_middle@.len(),
            forall|i: int| 0 <= i < row ==> !#[trigger] pointer_above_middle@[i],
        decreases pointer_above_middle@.len() - row,
    {
        row += 1;
    }
    proof {
        a_row_is_dropped_before_the_first_below(pointer_above_middle@, row as int);
    }
    row
}

/// The value that the scale editor opens with.
pub open spec fn editor_scale(stage: Stage) -> u32 {
    clamped_scale(
        if stage.params.contains_key(resize_scale_name()) {
            stage.params[resize_scale_name()]
        } else {
            RESIZE_SCALE_DEFAULT
        },
    )
}

pub fn resize_scale_of(stage: &StageSpec) -> (bits: u32)
    ensures
        bits == editor_scale(stage@),
{
    match stage.param("RESIZE_SCALE") {
        Some(bits) => clamp_resize_scale(bits),
        None => clamp_resize_scale(RESIZE_SCALE_DEFAULT),
    }
}

pub open spec fn rescaled(chain: Seq<Stage>, index: int, bits: u32) -> Seq<Stage> {
    if index < chain.len() {
        chain.update(
            index,
            Stage { params: chain[index].params.insert(resize_scale_name(), clamped_scale(bits)), ..chain[index] },
        )
    } else {
        chain
    }
}

/// Takes over the value of the scale editor, and tells whether the stage was still there.
pub fn apply_resize_scale(chain: &mut Vec<StageSpec>, index: usize, bits: u32) -> (applied: bool)
    ensures
        applied == (index < old(chain)@.len()),
        final(chain)@.len() == old(chain)@.len(),
        forall|i: int|
            0 <= i < old(chain)@.len() ==> #[trigger] final(chain)@[i]@ == (if i == index {
                Stage {
                    params: old(chain)@[i]@.params.insert(resize_scale_name(), clamped_scale(bits)),
                    ..old(chain)@[i]@
                }
            } else {
                old(chain)@[i]@
            }),
        stages(final(chain)@) == rescaled(stages(old(chain)@), index as int, bits),
{
    if index < chain.len() {
        let mut stage = chain[index].clone();
        stage.set_param("RESIZE_SCALE", clamp_resize_scale(bits));
        chain.set(index, stage);
        assert(stages(chain@) =~= rescaled(stages(old(chain)@), index as int, bits));
        true
    } else {
        false
    }
}

/// What was applied is what the editor opens with next time.
pub proof fn applied_scale_is_shown_again(stage: Stage, bits: u32)
    ensures
        editor_scale(Stage { params: stage.params.insert(resize_scale_name(), clamped_scale(bits)), ..stage })
            == clamped_scale(bits),
{
    clamping_the_scale_is_idempotent(bits);
}

// ---------------------------------------------------------------------------------------
// Long-press dragging

/// How long a row is held before it can be moved, in nanoseconds.
pub const DRAG_HOLD_NS: u64 = 300_000_000;

/// The list that is being reordered.
#[derive(Clone, Copy, Debug, PartialEq, Eq, Structural)]
pub enum DragList {
    Presets,
    Chain,
}

/// A row that is held.
#[derive(Clone, Copy, Debug, PartialEq, Eq, Structural)]
pub struct Drag {
    pub list: DragList,
    pub from: usize,
    pub since: u64,
    pub active: bool,
}

/// What a frame shows and does of a held row.
#[derive(Clone, Copy, Debug, PartialEq, Eq, Structural)]
pub struct DragFrame {
    pub next: Option<Drag>,
    /// Show the grabbing cursor and the insertion line.
    pub insertion: bool,
    /// The row is let go: move it to where the pointer is.
    pub drop: bool,
}

pub open spec fn has_been_held(drag: Drag, now: u64) -> bool {
    now >= drag.since + DRAG_HOLD_NS
}

/// A row held long enough follows the pointer; letting go of it moves it, letting go before
/// that does nothing.
pub fn drag_frame(drag: Drag, now: u64, pointer_down: bool) -> (r: DragFrame)
    ensures
        r.insertion == (has_been_held(drag, now) && pointer_down),
        r.drop == (!pointer_down && drag.active),
        r.next == (if !pointer_down {
            None
        } else {
            Some(Drag { active: drag.active || has_been_held(drag, now), ..drag })
        }),
{
    let held = now >= drag.since && now - drag.since >= DRAG_HOLD_NS;
    if pointer_down {
        DragFrame {
            next: Some(Drag { list: drag.list, from: drag.from, since: drag.since, active: drag.active || held }),
            insertion: held,
            drop: false,
        }
    } else {
        DragFrame { next: None, insertion: false, drop: drag.active }
    }
}

/// What was done to the chain in one frame.
#[derive(Clone, Copy, Debug)]
pub struct ChainEdits {
    /// A stage was switched on or off.
    pub toggled: bool,
    /// A stage was dragged from a row and dropped before another.
    pub dropped: Option<(usize, usize)>,
    /// The scale of a stage is to be edited.
    pub edit_scale: Option<usize>,
    /// A stage goes down by one row: its row, where it has one below.
    pub move_down: Option<usize>,
    /// A stage goes up by one row: its row, where it has one above.
    pub move_up: Option<usize>,
    pub remove: Option<usize>,
}

pub open spec fn swapped<T>(list: Seq<T>, i: int) -> Seq<T> {
    list.update(i, list[i + 1]).update(i + 1, list[i])
}

/// The rows of the edits are rows of the chain, and a stage moves one way only.
pub open spec fn edits_fit(edits: ChainEdits, len: int) -> bool {
    &&& edits.edit_scale matches Some(i) ==> i < len
    &&& edits.move_down matches Some(i) ==> i + 1 < len
    &&& edits.move_up matches Some(i) ==> 0 < i < len
    &&& edits.remove matches Some(i) ==> i < len
    &&& edits.move_down is None || edits.move_up is None
}

/// The chain after a drop.
pub open spec fn after_drop<T>(list: Seq<T>, edits: ChainEdits) -> Seq<T> {
    match edits.dropped {
        Some((from, to)) => dropped(list, from as int, to as int),
        None => list,
    }
}

/// The chain after all edits of a frame: the drop comes first, then the step, then the removal.
pub open spec fn after_edits<T>(list: Seq<T>, edits: ChainEdits) -> Seq<T> {
    let moved = after_drop(list, edits);
    let stepped = match edits.move_down {
        Some(i) => swapped(moved, i as int),
        None => match edits.move_up {
            Some(i) => swapped(moved, i - 1),
            None => moved,
        },
    };
    match edits.remove {
        Some(i) => stepped.remove(i as int),
        None => stepped,
    }
}

/// Whether a running capture has to be told.
pub open spec fn edits_change(edits: ChainEdits, len: int) -> bool {
    edits.toggled || (edits.dropped matches Some((from, to)) && from < len && to != from && to != from + 1)
        || edits.move_down is Some || edits.move_up is Some || edits.remove is Some
}

/// Carries out the edits of a frame. The result says whether a running capture has to be told,
/// and which stage's scale is edited, with its value.
pub fn apply_chain_edits(chain: &mut Vec<StageSpec>, edits: ChainEdits) -> (r: (bool, Option<(usize, u32)>))
    requires
        edits_fit(edits, old(chain)@.len() as int),
    ensures
        final(chain)@ == after_edits(old(chain)@, edits),
        r.0 == edits_change(edits, old(chain)@.len() as int),
        r.1 == (match edits.edit_scale {
            Some(i) => Some((i, editor_scale(after_drop(old(chain)@, edits)[i as int]@))),
            None => None,
        }),
{
    let mut changed = edits.toggled;
    if let Some((from, to)) = edits.dropped {
        let moved = drop_item(chain, from, to);
        changed = changed || moved;
    }
    assert(chain@ == after_drop(old(chain)@, edits));
    assert(chain@.len() == old(chain)@.len());
    let editor = match edits.edit_scale {
        Some(i) => Some((i, resize_scale_of(&chain[i]))),
        None => None,
    };
    if let Some(i) = edits.move_down {
        move_down(chain, i);
        changed = true;
    }
    if let Some(i) = edits.move_up {
        let ghost before = chain@;
        move_up(chain, i);
        assert(chain@ =~= swapped(before, i - 1));
        changed = true;
    }
    if let Some(i) = edits.remove {
        let _ = chain.remove(i);
        changed = true;
    }
    (changed, editor)
}

/// Editing a chain loses no stage but the one that is removed.
pub proof fn edits_keep_the_other_stages<T>(list: Seq<T>, edits: ChainEdits)
    requires
        edits_fit(edits, list.len() as int),
    ensures
        edits.remove is None ==> after_edits(list, edits).to_multiset() =~= list.to_multiset(),
        after_edits(list, edits).len() == list.len() - (if edits.remove is Some {
            1int
        } else {
            0
        }),
{
    broadcast use vstd::seq_lib::group_to_multiset_ensures;

    let moved = after_drop(list, edits);
    if edits.dropped is Some {
        let (from, to) = edits.dropped->0;
        dropping_keeps_the_items(list, from as int, to as int);
    }
    if edits.move_down is Some {
        lemma_swapped(moved, edits.move_down->0 as int);
    } else if edits.move_up is Some {
        lemma_swapped(moved, edits.move_up->0 - 1);
    }
}

proof fn lemma_swapped<T>(list: Seq<T>, i: int)
    requires
        0 <= i,
        i + 1 < list.len(),
    ensures
        swapped(list, i).to_multiset() =~= list.to_multiset(),
        swapped(list, i).len() == list.len(),
{
    broadcast use vstd::seq_lib::group_to_multiset_ensures;

    vstd::seq_lib::to_multiset_update(list, i, list[i + 1]);
    vstd::seq_lib::to_multiset_update(list.update(i, list[i + 1]), i + 1, list[i]);
}

// ---------------------------------------------------------------------------------------
// What editing a chain is for

/// An item that is dropped stands directly in front of the one that it was dropped before, or
/// last where it was dropped behind all; the others keep their order.
pub proof fn an_item_lands_where_it_is_dropped<T>(list: Seq<T>, from: int, to: int)
    requires
        0 <= from < list.len(),
        0 <= to <= list.len(),
    ensures
        to < from ==> dropped(list, from, to) == list.take(to) + seq![list[from]] + list.subrange(to, from) + list.skip(
            from + 1,
        ),
        to > from ==> dropped(list, from, to) == list.take(from) + list.subrange(from + 1, to) + seq![list[from]]
            + list.skip(to),
        to == from || to == from + 1 ==> dropped(list, from, to) == list,
        to < from ==> dropped(list, from, to)[to] == list[from] && dropped(list, from, to)[to + 1] == list[to],
        from + 1 < to < list.len() ==> dropped(list, from, to)[to - 1] == list[from] && dropped(list, from, to)[to]
            == list[to],
        to == list.len() ==> dropped(list, from, to).last() == list[from],
        dropped(list, from, to).remove(
            if to > from {
                to - 1
            } else {
                to
            },
        ) == list.remove(from),
{
    let after = dropped(list, from, to);
    if to < from {
        assert(after =~= list.take(to) + seq![list[from]] + list.subrange(to, from) + list.skip(from + 1));
        assert(after.remove(to) =~= list.remove(from));
    } else if to > from + 1 {
        assert(after =~= list.take(from) + list.subrange(from + 1, to) + seq![list[from]] + list.skip(to));
        assert(after.remove(to - 1) =~= list.remove(from));
    } else if to == from + 1 {
        assert(after =~= list.take(from) + list.subrange(from + 1, to) + seq![list[from]] + list.skip(to));
    }
}

/// A drop far behind the end is a drop at the end, and a row that is not there moves nothing.
pub proof fn drops_outside_the_list<T>(list: Seq<T>, from: int, to: int)
    requires
        0 <= from,
        0 <= to,
    ensures
        from >= list.len() ==> dropped(list, from, to) == list,
        to >= list.len() > from ==> dropped(list, from, to) == dropped(list, from, list.len() as int),
{
    if to >= list.len() > from {
        assert(dropped(list, from, to) =~= dropped(list, from, list.len() as int));
    }
}

/// A step exchanges a stage with its neighbour and nothing else, and the step back undoes it.
pub proof fn a_step_exchanges_two_neighbours<T>(list: Seq<T>, i: int, k: int)
    requires
        0 <= i,
        i + 1 < list.len(),
        0 <= k < list.len(),
    ensures
        swapped(list, i).len() == list.len(),
        swapped(list, i)[i] == list[i + 1],
        swapped(list, i)[i + 1] == list[i],
        k != i && k != i + 1 ==> swapped(list, i)[k] == list[k],
        swapped(swapped(list, i), i) == list,
{
    assert(swapped(swapped(list, i), i) =~= list);
}

/// The edits of one frame are carried out one after the other: the drop first, then the step on
/// what that leaves, and the removal last; each does to the chain what it would do alone.
pub proof fn edits_come_one_after_the_other<T>(list: Seq<T>, edits: ChainEdits)
    requires
        edits_fit(edits, list.len() as int),
    ensures
        ({
            let none = ChainEdits {
                toggled: false,
                dropped: None,
                edit_scale: None,
                move_down: None,
                move_up: None,
                remove: None,
            };
            let a = after_edits(list, ChainEdits { dropped: edits.dropped, ..none });
            let b = after_edits(a, ChainEdits { move_down: edits.move_down, move_up: edits.move_up, ..none });
            let c = after_edits(b, ChainEdits { remove: edits.remove, ..none });
            &&& after_edits(list, none) == list
            &&& edits.dropped matches Some((from, to)) ==> a == dropped(list, from as int, to as int)
            &&& edits.dropped is None ==> a == list
            &&& edits.move_down matches Some(i) ==> b.len() == a.len() && b[i as int] == a[i + 1] && b[i + 1]
                == a[i as int] && forall|k: int| 0 <= k < a.len() && k != i && k != i + 1 ==> #[trigger] b[k] == a[k]
            &&& edits.move_up matches Some(i) ==> b.len() == a.len() && b[i as int] == a[i - 1] && b[i - 1]
                == a[i as int] && forall|k: int| 0 <= k < a.len() && k != i && k != i - 1 ==> #[trigger] b[k] == a[k]
            &&& edits.move_down is None && edits.move_up is None ==> b == a
            &&& edits.remove matches Some(i) ==> c == b.take(i as int) + b.skip(i + 1)
            &&& edits.remove is None ==> c == b
            &&& after_edits(list, edits) == c
            &&& after_drop(list, edits) == a
        }),
{
    if let Some((from, to)) = edits.dropped {
        dropping_keeps_the_items(list, from as int, to as int);
    }
    let moved = after_drop(list, edits);
    let stepped = match edits.move_down {
        Some(i) => swapped(moved, i as int),
        None => match edits.move_up {
            Some(i) => swapped(moved, i - 1),
            None => moved,
        },
    };
    if let Some(i) = edits.remove {
        assert(stepped.remove(i as int) =~= stepped.take(i as int) + stepped.skip(i + 1));
    }
}

/// A running capture is told of every edit that changes the chain: where it is not told, no stage
/// was switched and the chain is the same.
pub proof fn every_change_of_the_chain_is_told<T>(list: Seq<T>, edits: ChainEdits)
    requires
        edits_fit(edits, list.len() as int),
    ensures
        !edits_change(edits, list.len() as int) ==> !edits.toggled && after_edits(list, edits) == list,
        edits.toggled || edits.move_down is Some || edits.move_up is Some || edits.remove is Some ==> edits_change(
            edits,
            list.len() as int,
        ),
        !edits.toggled && edits.dropped is None && edits.move_down is None && edits.move_up is None && edits.remove
            is None ==> !edits_change(edits, list.len() as int),
{
}

/// A scale within its range, from a quarter to four, is kept as it is; a smaller one, and a
/// negative one, becomes a quarter and a larger one four. The numbers are bits.
pub proof fn a_scale_in_range_is_kept(bits: u32)
    ensures
        0x3e80_0000 <= bits <= 0x4080_0000 ==> clamped_scale(bits) == bits,
        bits < 0x3e80_0000 || 0x8000_0000 <= bits <= 0xff80_0000 ==> clamped_scale(bits) == 0x3e80_0000,
        0x4080_0000 < bits <= 0x7f80_0000 ==> clamped_scale(bits) == 0x4080_0000,
        0x7f80_0000 < bits < 0x8000_0000 || 0xff80_0000 < bits ==> clamped_scale(bits) == bits,
{
}

/// The editor opens with the stage's own scale, and with three quarters where it has none.
pub proof fn the_editor_shows_the_stages_scale(stage: Stage)
    ensures
        !stage.params.contains_key("RESIZE_SCALE"@) ==> editor_scale(stage) == 0x3f40_0000,
        stage.params.contains_key("RESIZE_SCALE"@) ==> editor_scale(stage) == clamped_scale(
            stage.params["RESIZE_SCALE"@],
        ),
{
}

/// A stage that is added is switched on and is what was chosen; a resize filter, and no other,
/// gets a scale, of three quarters.
pub proof fn an_added_stage_runs(kind: StageKind, path: Seq<char>)
    ensures
        new_stage(kind, path).kind == kind,
        new_stage(kind, path).path == path,
        new_stage(kind, path).enabled,
        is_resize_path(path) ==> new_stage(kind, path).params == Map::<Seq<char>, u32>::empty().insert(
            "RESIZE_SCALE"@,
            0x3f40_0000,
        ),
        !is_resize_path(path) ==> new_stage(kind, path).params == Map::<Seq<char>, u32>::empty(),
{
}

/// A resize filter is told by its folder, whatever the case of the letters and the kind of the
/// slashes.
pub proof fn resize_filters_are_told_by_their_folder(path: Seq<char>, file: Seq<char>)
    ensures
        is_resize_path("shaders/resize/"@ + file),
        is_resize_path(path) ==> path.len() >= 15 && lower_text(path.take(7)) == "shaders"@ && lower_text(
            path.subrange(8, 14),
        ) == "resize"@ && (path[7] == '/' || path[7] == '\\') && (path[14] == '/' || path[14] == '\\'),
{
    let folder = "shaders/resize/"@;
    reveal_strlit("shaders/resize/");
    reveal_strlit("shaders");
    reveal_strlit("resize");
    assert(folder.len() == 15);
    let whole = lower_text(forward_slashes(folder + file));
    assert(whole.take(15) =~= folder);
    assert(folder.is_prefix_of(whole)) by {
        assert(folder =~= whole.subrange(0, folder.len() as int));
    }
    if is_resize_path(path) {
        let slashed = lower_text(forward_slashes(path));
        assert(slashed.subrange(0, 15) =~= folder);
        assert forall|i: int| 0 <= i < 15 implies folder[i] == lower_char(#[trigger] forward_slashes(path)[i]) by {
            assert(slashed.subrange(0, 15)[i] == slashed[i]);
        }
        assert forall|i: int| 0 <= i < 15 implies (path[i] != '\\' ==> folder[i] == lower_char(#[trigger] path[i])) && (
        path[i] == '\\' ==> folder[i] == '/') by {
            assert(folder[i] == lower_char(forward_slashes(path)[i]));
        }
        assert(lower_text(path.take(7)) =~= "shaders"@);
        assert(lower_text(path.subrange(8, 14)) =~= "resize"@);
    }
}

/// A stage is shown by the last part of its path, which has no slash in it; a built-in one by its
/// name.
pub proof fn a_stage_is_shown_by_its_file_name(folder: Seq<char>, file: Seq<char>)
    requires
        !file.contains('/'),
        !file.contains('\\'),
    ensures
        after_last_slash(folder.push('/') + file) == file,
        after_last_slash(folder.push('\\') + file) == file,
        after_last_slash(file) == file,
    decreases file.len(),
{
    if file.len() == 0 {
        assert(folder.push('/') + file =~= folder.push('/'));
        assert(folder.push('\\') + file =~= folder.push('\\'));
        assert(file =~= Seq::<char>::empty());
    } else {
        let rest = file.drop_last();
        assert forall|c: char| rest.contains(c) implies file.contains(c) by {
            let i = choose|i: int| 0 <= i < rest.len() && rest[i] == c;
            assert(file[i] == c);
        }
        a_stage_is_shown_by_its_file_name(folder, rest);
        assert((folder.push('/') + file).drop_last() =~= folder.push('/') + rest);
        assert((folder.push('\\') + file).drop_last() =~= folder.push('\\') + rest);
        assert(file.contains(file.last()));
        assert(rest.push(file.last()) =~= file);
        assert((folder.push('/') + file).last() == file.last());
        assert((folder.push('\\') + file).last() == file.last());
    }
}

/// A row is held once the pointer has been down on it for three tenths of a second.
pub proof fn a_row_is_held_after_a_while(drag: Drag, now: u64)
    ensures
        has_been_held(drag, now) <==> now - drag.since >= 300_000_000,
{
}

/// Nothing of a stage is out of sight of its contracts, and of several entries of one parameter
/// the last counts.
pub proof fn stages_are_seen_whole(stage: StageSpec, list: Seq<(String, u32)>, name: String, value: u32)
    ensures
        stage@.kind == stage.kind,
        stage@.path == stage.path@,
        stage@.enabled == stage.enabled,
        stage@.params == params_map(stage.params@),
        params_map(list.push((name, value))).contains_key(name@),
        params_map(list.push((name, value)))[name@] == value,
        params_map(list.push((name, value))).remove(name@) == params_map(list).remove(name@),
        params_map(Seq::empty()) == Map::<Seq<char>, u32>::empty(),
{
    assert(list.push((name, value)).drop_last() =~= list);
    assert(params_map(list.push((name, value))).remove(name@) =~= params_map(list).remove(name@));
}

/// A built-in stage is shown by its name, which for interpolation is one name in all its spellings;
/// slashes of either kind are one in comparisons, and nothing else of a path is.
pub proof fn a_built_in_stage_is_shown_by_its_name(name: Seq<char>, path: Seq<char>, i: int)
    ensures
        "neoflow"@.is_prefix_of(lower_text(name)) ==> stage_title("builtin:"@ + name) == "NeoFlow"@,
        !"neoflow"@.is_prefix_of(lower_text(name)) ==> stage_title("builtin:"@ + name) == name,
        !"builtin:"@.is_prefix_of(path) ==> stage_title(path) == after_last_slash(path),
        forward_slashes(path).len() == path.len(),
        0 <= i < path.len() && path[i] == '\\' ==> forward_slashes(path)[i] == '/',
        0 <= i < path.len() && path[i] != '\\' ==> forward_slashes(path)[i] == path[i],
{
    let whole = "builtin:"@ + name;
    assert("builtin:"@ =~= whole.subrange(0, "builtin:"@.len() as int));
    assert(whole.skip("builtin:"@.len() as int) =~= name);
}

/// A stage that no longer runs is told by its kind, and by its name wherever that stands in the path.
pub proof fn frozen_stages_are_told(stage: Stage, before: Seq<char>, after: Seq<char>)
    ensures
        stage.kind == StageKind::Flow ==> is_frozen(stage),
        lower_text(stage.path) == before + "neoflow"@ + after ==> is_frozen(stage),
        is_frozen(stage) && stage.kind != StageKind::Flow ==> stage.path.len() >= 7,
{
    reveal_strlit("neoflow");
    let words = "neoflow"@;
    if lower_text(stage.path) == before + words + after {
        let at = before.len() as int;
        assert((before + words + after).subrange(at, at + words.len()) =~= words);
        assert(crate::text::occurs_at(lower_text(stage.path), words, at));
    }
}

/// The scale editor sets the scale of its own stage; the stage's other values stay, and so do all
/// other stages. A stage that is gone changes nothing.
pub proof fn a_scale_belongs_to_its_stage(chain: Seq<Stage>, index: int, bits: u32, k: int, name: Seq<char>)
    requires
        0 <= index,
        0 <= k < chain.len(),
    ensures
        ({
            let r = rescaled(chain, index, bits);
            &&& index >= chain.len() ==> r == chain
            &&& r.len() == chain.len()
            &&& k != index ==> r[k] == chain[k]
            &&& r[k].kind == chain[k].kind && r[k].path == chain[k].path && r[k].enabled == chain[k].enabled
            &&& name != "RESIZE_SCALE"@ ==> r[k].params.contains_key(name) == chain[k].params.contains_key(name)
                && r[k].params[name] == chain[k].params[name]
            &&& k == index && 0x3e80_0000 <= bits <= 0x4080_0000 ==> r[k].params["RESIZE_SCALE"@] == bits
            &&& k == index ==> editor_scale(r[k]) == clamped_scale(bits)
        }),
{
    if k == index {
        applied_scale_is_shown_again(chain[k], bits);
    }
}

} // verus!
