//! Presets: choosing, saving and deleting them, and telling whether what is edited differs from
//! what is saved.
use vstd::prelude::*;
use crate::backend::CaptureCrop;
use crate::chain::{Stage, StageKind, StageSpec, clone_chain, is_frozen, is_frozen_neoflow_stage, is_nan_bits, stages};
use crate::resolution::CaptureResolution;
use crate::text::same_text;
use crate::text::{contains_text, lower_text};

verus! {

/// How the aspect ratio is corrected.
#[derive(Clone, Copy, Debug, PartialEq, Eq, Structural)]
pub enum AspectCorrectionMode {
    Manual,
    Auto4x3,
    Auto16x9,
}

/// The correction of the aspect ratio. The scales are bits of 32-bit floating-point numbers.
#[derive(Clone, Copy, Debug, PartialEq, Eq, Structural)]
pub struct AspectCorrection {
    pub enabled: bool,
    pub mode: AspectCorrectionMode,
    pub width_scale: u32,
    pub height_scale: u32,
}

/// The bits of 0.5, the least scale of a correction.
pub const ASPECT_CORRECTION_SCALE_MIN: u32 = 0x3f00_0000;

/// The bits of 2.0, the greatest.
pub const ASPECT_CORRECTION_SCALE_MAX: u32 = 0x4000_0000;

/// The bits of 1.0, the scale that changes nothing.
pub const ASPECT_CORRECTION_NO_SCALE: u32 = 0x3f80_0000;

impl AspectCorrection {
    /// No correction: it is off, and would change nothing if its scales were used.
    pub fn off(mode: AspectCorrectionMode) -> (none: Self)
        ensures
            none == (AspectCorrection {
                enabled: false,
                mode,
                width_scale: ASPECT_CORRECTION_NO_SCALE,
                height_scale: ASPECT_CORRECTION_NO_SCALE,
            }),
    {
        AspectCorrection {
            enabled: false,
            mode,
            width_scale: ASPECT_CORRECTION_NO_SCALE,
            height_scale: ASPECT_CORRECTION_NO_SCALE,
        }
    }
}

/// What is edited and what a preset keeps.
pub struct Draft {
    pub chain: Vec<StageSpec>,
    pub aspect: AspectCorrection,
    pub crop: CaptureCrop,
    pub resolution: Option<CaptureResolution>,
}

/// A draft as a mathematical value.
pub struct DraftState {
    pub chain: Seq<Stage>,
    pub aspect: AspectCorrection,
    pub crop: CaptureCrop,
    pub resolution: Option<CaptureResolution>,
}

impl View for Draft {
    type V = DraftState;

    open spec fn view(&self) -> DraftState {
        DraftState { chain: stages(self.chain@), aspect: self.aspect, crop: self.crop, resolution: self.resolution }
    }
}

impl Clone for Draft {
    fn clone(&self) -> (r: Self)
        ensures
            r@ == self@,
    {
        Draft {
            chain: clone_chain(self.chain.as_slice()),
            aspect: self.aspect,
            crop: self.crop,
            resolution: self.resolution,
        }
    }
}

/// A saved preset. An old one may lack all but its chain.
pub struct Preset {
    pub name: String,
    pub chain: Vec<StageSpec>,
    pub aspect: Option<AspectCorrection>,
    pub crop: Option<CaptureCrop>,
    pub resolution: Option<CaptureResolution>,
}

/// A preset as a mathematical value.
pub struct PresetState {
    pub name: Seq<char>,
    pub chain: Seq<Stage>,
    pub aspect: Option<AspectCorrection>,
    pub crop: Option<CaptureCrop>,
    pub resolution: Option<CaptureResolution>,
}

impl View for Preset {
    type V = PresetState;

    open spec fn view(&self) -> PresetState {
        PresetState {
            name: self.name@,
            chain: stages(self.chain@),
            aspect: self.aspect,
            crop: self.crop,
            resolution: self.resolution,
        }
    }
}

/// The presets and the name of the one in use.
pub struct PresetStore {
    pub presets: Vec<Preset>,
    pub active: String,
}

pub open spec fn preset_states(presets: Seq<Preset>) -> Seq<PresetState> {
    presets.map_values(|p: Preset| p@)
}

/// What is edited, and the saved state that it is compared with.
pub struct Workbench {
    pub current: Draft,
    pub saved: Draft,
}

// ---------------------------------------------------------------------------------------
// Comparing

/// Two bit patterns stand for equal numbers: the two zeros are equal, and what is no number
/// equals nothing.
pub open spec fn equal_numbers(a: u32, b: u32) -> bool {
    !is_nan_bits(a) && !is_nan_bits(b) && (a == b || (a % 0x8000_0000 == 0 && b % 0x8000_0000 == 0))
}

fn numbers_equal(a: u32, b: u32) -> (r: bool)
    ensures
        r == equal_numbers(a, b),
{
    a % 0x8000_0000 <= 0x7f80_0000 && b % 0x8000_0000 <= 0x7f80_0000 && (a == b || (a % 0x8000_0000 == 0 && b
        % 0x8000_0000 == 0))
}

pub open spec fn same_params(a: Map<Seq<char>, u32>, b: Map<Seq<char>, u32>) -> bool {
    &&& forall|k: Seq<char>| #[trigger] a.contains_key(k) == b.contains_key(k)
    &&& forall|k: Seq<char>| #[trigger] a.contains_key(k) ==> equal_numbers(a[k], b[k])
}

pub open spec fn same_stage(a: Stage, b: Stage) -> bool {
    a.kind == b.kind && a.path == b.path && a.enabled == b.enabled && same_params(a.params, b.params)
}

pub open spec fn same_chain(a: Seq<Stage>, b: Seq<Stage>) -> bool {
    a.len() == b.len() && forall|i: int| 0 <= i < a.len() ==> same_stage(#[trigger] a[i], b[i])
}

pub open spec fn same_aspect(a: AspectCorrection, b: AspectCorrection) -> bool {
    a.enabled == b.enabled && a.mode == b.mode && equal_numbers(a.width_scale, b.width_scale) && equal_numbers(
        a.height_scale,
        b.height_scale,
    )
}

/// Nothing differs.
pub open spec fn same_draft(a: DraftState, b: DraftState) -> bool {
    same_chain(a.chain, b.chain) && same_aspect(a.aspect, b.aspect) && a.crop == b.crop && a.resolution
        == b.resolution
}

proof fn lemma_params_names(list: Seq<(String, u32)>)
    ensures
        forall|i: int|
            0 <= i < list.len() ==> crate::chain::params_map(list).contains_key((#[trigger] list[i]).0@),
        forall|k: Seq<char>| #[trigger]
            crate::chain::params_map(list).contains_key(k) ==> exists|i: int|
                0 <= i < list.len() && (#[trigger] list[i]).0@ == k,
    decreases list.len(),
{
    if list.len() > 0 {
        let shorter = list.drop_last();
        lemma_params_names(shorter);
        assert forall|i: int| 0 <= i < list.len() implies crate::chain::params_map(list).contains_key(
            (#[trigger] list[i]).0@,
        ) by {
            if i < list.len() - 1 {
                assert(shorter[i] == list[i]);
            }
        }
        assert forall|k: Seq<char>| #[trigger] crate::chain::params_map(list).contains_key(k) implies exists|i: int|
            0 <= i < list.len() && (#[trigger] list[i]).0@ == k by {
            if k == list.last().0@ {
                assert(list[list.len() - 1].0@ == k);
            } else {
                assert(crate::chain::params_map(shorter).contains_key(k));
                let i = choose|i: int| 0 <= i < shorter.len() && (#[trigger] shorter[i]).0@ == k;
                assert(list[i].0@ == k);
            }
        }
    }
}

/// Every parameter of the first is one of the second, with an equal value.
spec fn params_in(a: Map<Seq<char>, u32>, b: Map<Seq<char>, u32>) -> bool {
    forall|k: Seq<char>| #[trigger] a.contains_key(k) ==> b.contains_key(k) && equal_numbers(a[k], b[k])
}

fn params_are_in(a: &StageSpec, b: &StageSpec) -> (r: bool)
    ensures
        r == params_in(a@.params, b@.params),
{
    proof {
        lemma_params_names(a.params@);
    }
    let mut i: usize = 0;
    while i < a.params.len()
        invariant
            i <= a.params@.len(),
            forall|j: int|
                0 <= j < a.params@.len() ==> crate::chain::params_map(a.params@).contains_key(
                    (#[trigger] a.params@[j]).0@,
                ),
            forall|j: int|
                0 <= j < i ==> b@.params.contains_key((#[trigger] a.params@[j]).0@) && equal_numbers(
                    a@.params[a.params@[j].0@],
                    b@.params[a.params@[j].0@],
                ),
        decreases a.params@.len() - i,
    {
        let name = a.params[i].0.as_str();
        let held = match (a.param(name), b.param(name)) {
            (Some(x), Some(y)) => numbers_equal(x, y),
            _ => false,
        };
        if !held {
            proof {
                assert(a@.params.contains_key(a.params@[i as int].0@));
            }
            return false;
        }
        i += 1;
    }
    proof {
        assert forall|k: Seq<char>| #[trigger] a@.params.contains_key(k) implies b@.params.contains_key(k)
            && equal_numbers(a@.params[k], b@.params[k]) by {
            let j = choose|j: int| 0 <= j < a.params@.len() && (#[trigger] a.params@[j]).0@ == k;
            assert(a.params@[j].0@ == k);
        }
    }
    true
}

fn stages_equal(a: &StageSpec, b: &StageSpec) -> (r: bool)
    ensures
        r == same_stage(a@, b@),
{
    let params = params_are_in(a, b) && params_are_in(b, a);
    proof {
        if same_params(a@.params, b@.params) {
            assert(params_in(a@.params, b@.params));
            assert(params_in(b@.params, a@.params)) by {
                assert forall|k: Seq<char>| #[trigger] b@.params.contains_key(k) implies a@.params.contains_key(k)
                    && equal_numbers(b@.params[k], a@.params[k]) by {
                    assert(a@.params.contains_key(k));
                }
            }
        }
        if params_in(a@.params, b@.params) && params_in(b@.params, a@.params) {
            assert forall|k: Seq<char>| #[trigger] a@.params.contains_key(k) == b@.params.contains_key(k) by {
                if b@.params.contains_key(k) {
                    assert(a@.params.contains_key(k));
                }
            }
            assert(same_params(a@.params, b@.params));
        }
    }
    a.kind == b.kind && same_text(a.path.as_str(), b.path.as_str()) && a.enabled == b.enabled && params
}

/// Whether two chains are equal.
pub fn chains_equal(a: &[StageSpec], b: &[StageSpec]) -> (r: bool)
    ensures
        r == same_chain(stages(a@), stages(b@)),
{
    if a.len() != b.len() {
        return false;
    }
    let mut i: usize = 0;
    while i < a.len()
        invariant
            a@.len() == b@.len(),
            i <= a@.len(),
            forall|j: int| 0 <= j < i ==> same_stage(#[trigger] stages(a@)[j], stages(b@)[j]),
        decreases a@.len() - i,
    {
        if !stages_equal(&a[i], &b[i]) {
            proof {
                assert(!same_stage(stages(a@)[i as int], stages(b@)[i as int]));
            }
            return false;
        }
        i += 1;
    }
    true
}

impl Workbench {
    /// Whether what is edited differs from what is saved.
    pub fn dirty(&self) -> (r: bool)
        ensures
            r == !same_draft(self.current@, self.saved@),
    {
        let a = &self.current;
        let b = &self.saved;
        let aspect = a.aspect.enabled == b.aspect.enabled && a.aspect.mode == b.aspect.mode && numbers_equal(
            a.aspect.width_scale,
            b.aspect.width_scale,
        ) && numbers_equal(a.aspect.height_scale, b.aspect.height_scale);
        !(chains_equal(a.chain.as_slice(), b.chain.as_slice()) && aspect && a.crop == b.crop && a.resolution
            == b.resolution)
    }

    /// The preset's name as the closed list shows it, marked where something is not saved.
    pub fn display_name(&self, active: &str) -> (name: String)
        ensures
            name@ == (if same_draft(self.current@, self.saved@) {
                active@
            } else {
                active@ + " *"@
            }),
    {
        let mut name = active.to_owned();
        if self.dirty() {
            name.append(" *");
        }
        name
    }

    /// What is edited becomes what is saved.
    pub fn mark_saved(&mut self)
        ensures
            final(self).current == old(self).current,
            final(self).saved@ == old(self).current@,
    {
        self.saved = self.current.clone();
    }

    /// A blank preset was made: its chain is empty, the rest is as it is edited.
    pub fn clear_for_new_preset(&mut self)
        ensures
            final(self).current@ == (DraftState { chain: Seq::empty(), ..old(self).current@ }),
            final(self).saved@ == final(self).current@,
    {
        self.current.chain = Vec::new();
        proof {
            assert(stages(self.current.chain@) =~= Seq::empty());
        }
        self.saved = self.current.clone();
    }
}

/// The numbers of a draft are numbers.
pub open spec fn has_numbers(d: DraftState) -> bool {
    &&& !is_nan_bits(d.aspect.width_scale)
    &&& !is_nan_bits(d.aspect.height_scale)
    &&& forall|i: int, k: Seq<char>|
        0 <= i < d.chain.len() && (#[trigger] d.chain[i]).params.contains_key(k) ==> !is_nan_bits(
            #[trigger] d.chain[i].params[k],
        )
}

/// A draft is equal to itself, so that saving leaves nothing unsaved.
pub proof fn saving_leaves_nothing_unsaved(d: DraftState)
    requires
        has_numbers(d),
    ensures
        same_draft(d, d),
{
    assert forall|i: int| 0 <= i < d.chain.len() implies same_stage(#[trigger] d.chain[i], d.chain[i]) by {
        assert forall|k: Seq<char>| #[trigger] d.chain[i].params.contains_key(k) implies equal_numbers(
            d.chain[i].params[k],
            d.chain[i].params[k],
        ) by {
            assert(!is_nan_bits(d.chain[i].params[k]));
        }
    }
}

/// Comparing does not depend on which of the two is which.
pub proof fn comparing_is_symmetric(a: DraftState, b: DraftState)
    requires
        same_draft(a, b),
    ensures
        same_draft(b, a),
{
    assert forall|i: int| 0 <= i < b.chain.len() implies same_stage(#[trigger] b.chain[i], a.chain[i]) by {
        assert(same_stage(a.chain[i], b.chain[i]));
        assert forall|k: Seq<char>| #[trigger] b.chain[i].params.contains_key(k) implies a.chain[i].params.contains_key(
            k,
        ) && equal_numbers(b.chain[i].params[k], a.chain[i].params[k]) by {
            assert(a.chain[i].params.contains_key(k));
        }
    }
}

// ---------------------------------------------------------------------------------------
// Choosing

/// A chain without the stages that no longer run.
pub open spec fn without_frozen(chain: Seq<Stage>) -> Seq<Stage>
    decreases chain.len(),
{
    if chain.len() == 0 {
        chain
    } else if is_frozen(chain.last()) {
        without_frozen(chain.drop_last())
    } else {
        without_frozen(chain.drop_last()).push(chain.last())
    }
}

/// A copy of a chain without the stages that no longer run.
pub fn active_chain(chain: &[StageSpec]) -> (r: Vec<StageSpec>)
    ensures
        stages(r@) == without_frozen(stages(chain@)),
{
    let mut r: Vec<StageSpec> = Vec::new();
    let mut i: usize = 0;
    proof {
        assert(stages(r@) =~= Seq::empty());
        assert(stages(chain@).take(0) =~= Seq::empty());
    }
    while i < chain.len()
        invariant
            i <= chain@.len(),
            stages(r@) == without_frozen(stages(chain@).take(i as int)),
        decreases chain@.len() - i,
    {
        let ghost before = stages(r@);
        proof {
            assert(stages(chain@).take(i + 1).drop_last() =~= stages(chain@).take(i as int));
            assert(stages(chain@).take(i + 1).last() == chain@[i as int]@);
        }
        if !is_frozen_neoflow_stage(&chain[i]) {
            r.push(chain[i].clone());
            proof {
                assert(stages(r@) =~= before.push(chain@[i as int]@));
            }
        }
        i += 1;
    }
    proof {
        assert(stages(chain@).take(chain@.len() as int) =~= stages(chain@));
    }
    r
}

/// The first preset of a name.
pub open spec fn preset_index(presets: Seq<PresetState>, name: Seq<char>) -> Option<int>
    decreases presets.len(),
{
    if presets.len() == 0 {
        None
    } else {
        match preset_index(presets.drop_last(), name) {
            Some(i) => Some(i),
            None => if presets.last().name == name {
                Some(presets.len() - 1)
            } else {
                None
            },
        }
    }
}

proof fn lemma_preset_index(presets: Seq<PresetState>, name: Seq<char>)
    ensures
        match preset_index(presets, name) {
            Some(i) => 0 <= i < presets.len() && presets[i].name == name && forall|j: int|
                0 <= j < i ==> (#[trigger] presets[j]).name != name,
            None => forall|j: int| 0 <= j < presets.len() ==> (#[trigger] presets[j]).name != name,
        },
    decreases presets.len(),
{
    if presets.len() > 0 {
        let shorter = presets.drop_last();
        lemma_preset_index(shorter, name);
        assert(forall|j: int| 0 <= j < shorter.len() ==> shorter[j] == #[trigger] presets[j]);
    }
}

impl PresetStore {
    /// Where the first preset of a name stands.
    pub fn position(&self, name: &str) -> (r: Option<usize>)
        ensures
            match r {
                Some(i) => preset_index(preset_states(self.presets@), name@) == Some(i as int) && i
                    < self.presets@.len(),
                None => preset_index(preset_states(self.presets@), name@) is None,
            },
    {
        let ghost all = preset_states(self.presets@);
        proof {
            lemma_preset_index(all, name@);
        }
        let mut i: usize = 0;
        while i < self.presets.len()
            invariant
                i <= self.presets@.len(),
                all == preset_states(self.presets@),
                match preset_index(all, name@) {
                    Some(k) => 0 <= k < all.len() && all[k].name == name@ && forall|j: int|
                        0 <= j < k ==> (#[trigger] all[j]).name != name@,
                    None => forall|j: int| 0 <= j < all.len() ==> (#[trigger] all[j]).name != name@,
                },
                forall|j: int| 0 <= j < i ==> (#[trigger] all[j]).name != name@,
            decreases self.presets@.len() - i,
        {
            proof {
                assert(all[i as int] == self.presets@[i as int]@);
            }
            if same_text(self.presets[i].name.as_str(), name) {
                return Some(i);
            }
            i += 1;
        }
        None
    }
}

/// What choosing a preset makes of the workbench: the preset's own values, where an old preset
/// lacks the correction and the crop the given one and none, and the capture resolution of the
/// moment where the preset has none.
pub open spec fn chosen(
    preset: PresetState,
    resolution: Option<CaptureResolution>,
    fallback: AspectCorrection,
) -> (DraftState, DraftState) {
    let saved = DraftState {
        chain: preset.chain,
        aspect: match preset.aspect {
            Some(aspect) => aspect,
            None => fallback,
        },
        crop: match preset.crop {
            Some(crop) => crop,
            None => CaptureCrop { enabled: false, left: 0, top: 0, right: 0, bottom: 0 },
        },
        resolution: if preset.resolution is Some {
            preset.resolution
        } else {
            resolution
        },
    };
    (DraftState { chain: without_frozen(preset.chain), ..saved }, saved)
}

/// Chooses a preset by its name. `Some` says that there is one, and whether it sets a capture
/// resolution of its own, which a running capture then takes.
pub fn select_preset(
    store: &mut PresetStore,
    bench: &mut Workbench,
    name: &str,
    fallback: AspectCorrection,
) -> (r: Option<bool>)
    ensures
        final(store).presets == old(store).presets,
        match preset_index(preset_states(old(store).presets@), name@) {
            Some(i) => ({
                let preset = preset_states(old(store).presets@)[i];
                &&& r == Some(preset.resolution is Some)
                &&& final(store).active@ == name@
                &&& (final(bench).current@, final(bench).saved@) == chosen(
                    preset,
                    old(bench).current.resolution,
                    fallback,
                )
            }),
            None => r is None && *final(store) == *old(store) && *final(bench) == *old(bench),
        },
{
    let index = match store.position(name) {
        Some(index) => index,
        None => {
            return None;
        },
    };
    let preset = &store.presets[index];
    let specified = preset.resolution.is_some();
    let resolution = if specified {
        preset.resolution
    } else {
        bench.current.resolution
    };
    let aspect = match preset.aspect {
        Some(aspect) => aspect,
        None => fallback,
    };
    let crop = match preset.crop {
        Some(crop) => crop,
        None => CaptureCrop { enabled: false, left: 0, top: 0, right: 0, bottom: 0 },
    };
    proof {
        assert(preset_states(store.presets@)[index as int] == preset@);
    }
    let chain = active_chain(preset.chain.as_slice());
    let saved_chain = clone_chain(preset.chain.as_slice());
    bench.current = Draft { chain, aspect, crop, resolution };
    bench.saved = Draft { chain: saved_chain, aspect, crop, resolution };
    store.active = name.to_owned();
    Some(specified)
}

/// A preset without a capture resolution keeps the one of the moment, and choosing a preset
/// whose stages all run leaves nothing unsaved.
pub proof fn choosing_leaves_nothing_unsaved(
    preset: PresetState,
    resolution: Option<CaptureResolution>,
    fallback: AspectCorrection,
)
    requires
        forall|i: int| 0 <= i < preset.chain.len() ==> !is_frozen(#[trigger] preset.chain[i]),
        has_numbers(chosen(preset, resolution, fallback).1),
    ensures
        same_draft(chosen(preset, resolution, fallback).0, chosen(preset, resolution, fallback).1),
        preset.resolution is None ==> chosen(preset, resolution, fallback).0.resolution == resolution,
{
    lemma_nothing_frozen(preset.chain);
    saving_leaves_nothing_unsaved(chosen(preset, resolution, fallback).1);
}

proof fn lemma_nothing_frozen(chain: Seq<Stage>)
    requires
        forall|i: int| 0 <= i < chain.len() ==> !is_frozen(#[trigger] chain[i]),
    ensures
        without_frozen(chain) == chain,
    decreases chain.len(),
{
    if chain.len() > 0 {
        let shorter = chain.drop_last();
        assert(forall|i: int| 0 <= i < shorter.len() ==> shorter[i] == #[trigger] chain[i]);
        lemma_nothing_frozen(shorter);
        assert(shorter.push(chain.last()) =~= chain);
    }
}

/// The stages that no longer run are never on the workbench after choosing.
pub proof fn frozen_stages_are_never_edited(chain: Seq<Stage>)
    ensures
        forall|i: int| 0 <= i < without_frozen(chain).len() ==> !is_frozen(
            #[trigger] without_frozen(chain)[i],
        ),
    decreases chain.len(),
{
    if chain.len() > 0 {
        frozen_stages_are_never_edited(chain.drop_last());
        let shorter = without_frozen(chain.drop_last());
        assert forall|i: int| 0 <= i < without_frozen(chain).len() implies !is_frozen(
            #[trigger] without_frozen(chain)[i],
        ) by {
            if i < shorter.len() {
                assert(without_frozen(chain)[i] == shorter[i]);
            }
        }
    }
}

/// What is edited and what is saved at startup, of the preset in use and the settings.
pub open spec fn startup_drafts(
    preset: Option<PresetState>,
    aspect: AspectCorrection,
    crop: CaptureCrop,
    resolution: Option<CaptureResolution>,
    fallback: AspectCorrection,
) -> (DraftState, DraftState) {
    match preset {
        Some(p) => {
            let (edited, saved) = chosen(p, resolution, fallback);
            (
                DraftState {
                    aspect: if p.aspect is Some {
                        edited.aspect
                    } else {
                        aspect
                    },
                    crop: if p.crop is Some {
                        edited.crop
                    } else {
                        crop
                    },
                    resolution,
                    ..edited
                },
                DraftState { chain: edited.chain, ..saved },
            )
        },
        None => (
            DraftState { chain: Seq::empty(), aspect, crop, resolution },
            DraftState {
                chain: Seq::empty(),
                aspect: fallback,
                crop: CaptureCrop { enabled: false, left: 0, top: 0, right: 0, bottom: 0 },
                resolution,
            },
        ),
    }
}

/// The workbench at startup. The settings keep their correction and crop where the preset in
/// use has none, and keep their capture resolution in any case; a preset's own resolution is
/// what it is compared with.
pub fn startup_workbench(
    preset: Option<&Preset>,
    aspect: AspectCorrection,
    crop: CaptureCrop,
    resolution: Option<CaptureResolution>,
    fallback: AspectCorrection,
) -> (bench: Workbench)
    ensures
        (bench.current@, bench.saved@) == startup_drafts(
            match preset {
                Some(p) => Some(p@),
                None => None,
            },
            aspect,
            crop,
            resolution,
            fallback,
        ),
        ({
            let chain = match preset {
                Some(p) => without_frozen(stages(p.chain@)),
                None => Seq::empty(),
            };
            let own_aspect = match preset {
                Some(p) => p.aspect,
                None => None,
            };
            let own_crop = match preset {
                Some(p) => p.crop,
                None => None,
            };
            &&& bench.current@ == (DraftState {
                chain,
                aspect: match own_aspect {
                    Some(own) => own,
                    None => aspect,
                },
                crop: match own_crop {
                    Some(own) => own,
                    None => crop,
                },
                resolution,
            })
            &&& bench.saved@ == (DraftState {
                chain,
                aspect: match own_aspect {
                    Some(own) => own,
                    None => fallback,
                },
                crop: match own_crop {
                    Some(own) => own,
                    None => CaptureCrop { enabled: false, left: 0, top: 0, right: 0, bottom: 0 },
                },
                resolution: match preset {
                    Some(p) => if p.resolution is Some {
                        p.resolution
                    } else {
                        resolution
                    },
                    None => resolution,
                },
            })
        }),
{
    let none = CaptureCrop { enabled: false, left: 0, top: 0, right: 0, bottom: 0 };
    match preset {
        None => {
            let chain: Vec<StageSpec> = Vec::new();
            let saved_chain: Vec<StageSpec> = Vec::new();
            proof {
                assert(stages(chain@) =~= Seq::empty());
                assert(stages(saved_chain@) =~= Seq::empty());
            }
            Workbench {
                current: Draft { chain, aspect, crop, resolution },
                saved: Draft { chain: saved_chain, aspect: fallback, crop: none, resolution },
            }
        },
        Some(p) => {
            let chain = active_chain(p.chain.as_slice());
            let saved_chain = clone_chain(chain.as_slice());
            let (current_aspect, saved_aspect) = match p.aspect {
                Some(own) => (own, own),
                None => (aspect, fallback),
            };
            let (current_crop, saved_crop) = match p.crop {
                Some(own) => (own, own),
                None => (crop, none),
            };
            let saved_resolution = if p.resolution.is_some() {
                p.resolution
            } else {
                resolution
            };
            Workbench {
                current: Draft { chain, aspect: current_aspect, crop: current_crop, resolution },
                saved: Draft {
                    chain: saved_chain,
                    aspect: saved_aspect,
                    crop: saved_crop,
                    resolution: saved_resolution,
                },
            }
        },
    }
}

// ---------------------------------------------------------------------------------------
// Saving and deleting

/// The preset in use with the edited values.
pub open spec fn overwritten(preset: PresetState, draft: DraftState) -> PresetState {
    PresetState {
        name: preset.name,
        chain: draft.chain,
        aspect: Some(draft.aspect),
        crop: Some(draft.crop),
        resolution: draft.resolution,
    }
}

/// The presets with the edited values in the one of that name.
pub open spec fn saved_over(presets: Seq<PresetState>, name: Seq<char>, draft: DraftState) -> Seq<PresetState> {
    match preset_index(presets, name) {
        Some(i) => presets.update(i, overwritten(presets[i], draft)),
        None => presets,
    }
}

/// Saves what is edited in the preset in use; `false` if there is none.
pub fn save_active(store: &mut PresetStore, bench: &mut Workbench) -> (saved: bool)
    ensures
        final(store).active == old(store).active,
        final(bench).current == old(bench).current,
        match preset_index(preset_states(old(store).presets@), old(store).active@) {
            Some(_) => saved && preset_states(final(store).presets@) == saved_over(
                preset_states(old(store).presets@),
                old(store).active@,
                old(bench).current@,
            ) && final(bench).saved@ == old(bench).current@,
            None => !saved && *final(store) == *old(store) && *final(bench) == *old(bench),
        },
{
    let index = match store.position(store.active.as_str()) {
        Some(index) => index,
        None => {
            return false;
        },
    };
    let preset = Preset {
        name: store.presets[index].name.clone(),
        chain: clone_chain(bench.current.chain.as_slice()),
        aspect: Some(bench.current.aspect),
        crop: Some(bench.current.crop),
        resolution: bench.current.resolution,
    };
    let ghost before = preset_states(store.presets@);
    proof {
        assert(before[index as int] == store.presets@[index as int]@);
        assert(preset@ == overwritten(before[index as int], bench.current@));
    }
    store.presets.set(index, preset);
    proof {
        assert(preset_states(store.presets@) =~= before.update(index as int, preset@));
    }
    bench.mark_saved();
    true
}

/// The presets with another name.
pub open spec fn others(presets: Seq<PresetState>, name: Seq<char>) -> Seq<PresetState>
    decreases presets.len(),
{
    if presets.len() == 0 {
        presets
    } else if presets.last().name == name {
        others(presets.drop_last(), name)
    } else {
        others(presets.drop_last(), name).push(presets.last())
    }
}

/// The delete button asks only where another preset is left.
pub fn may_delete(count: usize) -> (r: bool)
    ensures
        r == (count > 1),
{
    count > 1
}

fn remove_named(presets: &mut Vec<Preset>, name: &str)
    ensures
        preset_states(final(presets)@) == others(preset_states(old(presets)@), name@),
{
    let ghost all = preset_states(presets@);
    let ghost mut seen: int = 0;
    let mut kept: usize = 0;
    proof {
        assert(all.take(0) =~= Seq::empty());
        assert(preset_states(presets@).take(0) =~= Seq::empty());
        assert(all.skip(0) =~= preset_states(presets@).skip(0));
    }
    while kept < presets.len()
        invariant
            0 <= seen <= all.len(),
            kept <= presets@.len(),
            preset_states(presets@).take(kept as int) == others(all.take(seen), name@),
            preset_states(presets@).skip(kept as int) == all.skip(seen),
        decreases presets@.len() - kept,
    {
        let ghost before = preset_states(presets@);
        proof {
            assert(before.skip(kept as int).len() == all.skip(seen).len());
            assert(before.skip(kept as int)[0] == all.skip(seen)[0]);
            assert(before[kept as int] == all[seen]);
            assert(before[kept as int] == presets@[kept as int]@);
            assert(all.take(seen + 1).drop_last() =~= all.take(seen));
            assert(all.take(seen + 1).last() == all[seen]);
            assert(all.skip(seen + 1) =~= all.skip(seen).skip(1));
        }
        if same_text(presets[kept].name.as_str(), name) {
            let ghost listed = presets@;
            let _ = presets.remove(kept);
            proof {
                assert(presets@ =~= listed.remove(kept as int));
                assert(preset_states(presets@) =~= before.remove(kept as int));
                assert(preset_states(presets@).take(kept as int) =~= before.take(kept as int));
                assert(preset_states(presets@).skip(kept as int) =~= before.skip(kept as int).skip(1));
            }
        } else {
            proof {
                assert(before.take(kept + 1) =~= before.take(kept as int).push(before[kept as int]));
                assert(before.skip(kept + 1) =~= before.skip(kept as int).skip(1));
            }
            kept += 1;
        }
        proof {
            seen = seen + 1;
        }
    }
    proof {
        let states = preset_states(presets@);
        assert(states.skip(kept as int).len() == 0);
        assert(all.skip(seen).len() == 0);
        assert(states.take(kept as int) =~= states);
        assert(all.take(seen) =~= all);
    }
}

/// The preset that is in use once those of a name are gone.
pub open spec fn next_in_use(presets: Seq<PresetState>, name: Seq<char>) -> Option<PresetState> {
    let rest = others(presets, name);
    if rest.len() == 0 {
        None
    } else {
        Some(rest[0])
    }
}

/// Deletes the preset in use and chooses the first of the others. The result is that of
/// choosing, or `None` where none is left.
pub fn delete_active(store: &mut PresetStore, bench: &mut Workbench, fallback: AspectCorrection) -> (r: Option<bool>)
    ensures
        ({
            let rest = others(preset_states(old(store).presets@), old(store).active@);
            &&& preset_states(final(store).presets@) == rest
            &&& match next_in_use(preset_states(old(store).presets@), old(store).active@) {
                None => r is None && final(store).active == old(store).active && *final(bench) == *old(bench),
                Some(next) => r == Some(next.resolution is Some) && final(store).active@ == next.name && (
                final(bench).current@,
                final(bench).saved@,
                ) == chosen(next, old(bench).current.resolution, fallback),
            }
        }),
{
    let active = store.active.clone();
    remove_named(&mut store.presets, active.as_str());
    if store.presets.len() == 0 {
        return None;
    }
    let first = store.presets[0].name.clone();
    proof {
        let rest = preset_states(store.presets@);
        assert(rest[0] == store.presets@[0]@);
        lemma_preset_index(rest, first@);
    }
    select_preset(store, bench, first.as_str(), fallback)
}

/// Deleting takes away the preset in use and no other.
pub proof fn deleting_keeps_the_other_presets(presets: Seq<PresetState>, name: Seq<char>)
    ensures
        forall|i: int| 0 <= i < others(presets, name).len() ==> (#[trigger] others(presets, name)[i]).name != name,
        forall|p: PresetState| #[trigger] presets.contains(p) && p.name != name ==> others(presets, name).contains(p),
    decreases presets.len(),
{
    if presets.len() > 0 {
        let shorter = presets.drop_last();
        deleting_keeps_the_other_presets(shorter, name);
        assert forall|p: PresetState| #[trigger] presets.contains(p) && p.name != name implies others(
            presets,
            name,
        ).contains(p) by {
            let i = choose|i: int| 0 <= i < presets.len() && presets[i] == p;
            if i < presets.len() - 1 {
                assert(shorter[i] == p);
                assert(shorter.contains(p));
                let j = choose|j: int|
                    0 <= j < others(shorter, name).len() && others(shorter, name)[j] == p;
                assert(others(presets, name)[j] == p);
            } else {
                assert(others(presets, name).last() == p);
                assert(others(presets, name)[others(presets, name).len() - 1] == p);
            }
        }
    }
}

// ---------------------------------------------------------------------------------------
// The dialog that names a preset

/// Why a name is not taken.
#[derive(Clone, Copy, Debug, PartialEq, Eq, Structural)]
pub enum PresetEditError {
    EmptyName,
    NameInUse,
    ActivePresetMissing,
}

/// The dialog.
pub struct SaveAsDialog {
    pub open: bool,
    pub name: String,
    pub error: Option<PresetEditError>,
}

impl SaveAsDialog {
    /// Opens with the name in use.
    pub fn open(&mut self, active: &str)
        ensures
            final(self).open,
            final(self).name@ == active@,
            final(self).error is None,
    {
        self.open = true;
        self.name = active.to_owned();
        self.error = None;
    }

    /// The name was typed at: an old complaint is gone.
    pub fn edited(&mut self)
        ensures
            *final(self) == (SaveAsDialog { error: None, ..*old(self) }),
    {
        self.error = None;
    }

    /// One of the two save buttons was pressed; `outcome` is what the store said. The dialog
    /// closes and the workbench is saved exactly when the store took the name.
    pub fn saved(&mut self, bench: &mut Workbench, outcome: Result<(), PresetEditError>) -> (taken: bool)
        ensures
            taken == (outcome is Ok),
            final(bench).current == old(bench).current,
            match outcome {
                Ok(_) => *final(self) == (SaveAsDialog { open: false, error: None, ..*old(self) })
                    && final(bench).saved@ == old(bench).current@,
                Err(error) => *final(self) == (SaveAsDialog { error: Some(error), ..*old(self) }) && *final(bench)
                    == *old(bench),
            },
    {
        match outcome {
            Ok(_) => {
                bench.mark_saved();
                self.open = false;
                self.error = None;
                true
            },
            Err(error) => {
                self.error = Some(error);
                false
            },
        }
    }

    /// The dialog was closed.
    pub fn cancel(&mut self)
        ensures
            *final(self) == (SaveAsDialog { open: false, error: None, ..*old(self) }),
    {
        self.open = false;
        self.error = None;
    }
}

/// A chain handed to a running capture.
pub struct ChainCommand {
    pub chain: Vec<StageSpec>,
    pub aspect: AspectCorrection,
    pub crop: CaptureCrop,
}

/// What is sent after an edit: the whole chain, while a capture runs. The two scales come
/// within their bounds.
pub fn apply_live(running: bool, draft: &Draft, width_scale: u32, height_scale: u32) -> (command: Option<ChainCommand>)
    ensures
        match command {
            Some(c) => running && stages(c.chain@) == draft@.chain && c.crop == draft.crop && c.aspect == (
            AspectCorrection { width_scale, height_scale, ..draft.aspect }),
            None => !running,
        },
{
    if running {
        Some(
            ChainCommand {
                chain: clone_chain(draft.chain.as_slice()),
                aspect: AspectCorrection {
                    enabled: draft.aspect.enabled,
                    mode: draft.aspect.mode,
                    width_scale,
                    height_scale,
                },
                crop: draft.crop,
            },
        )
    } else {
        None
    }
}

// ---------------------------------------------------------------------------------------
// What choosing, saving and deleting are for

/// A preset that is chosen gives the workbench its own values: its crop, its correction, its
/// capture resolution and its filters. Where it has none of the first it is no crop, where none
/// of the second the one that stands in, where none of the third the one of the moment.
pub proof fn a_chosen_preset_gives_its_own_values(
    preset: PresetState,
    resolution: Option<CaptureResolution>,
    fallback: AspectCorrection,
)
    ensures
        ({
            let (edited, saved) = chosen(preset, resolution, fallback);
            &&& preset.crop matches Some(crop) ==> edited.crop == crop && saved.crop == crop
            &&& preset.crop is None ==> !edited.crop.enabled && edited.crop.left == 0 && edited.crop.top == 0
                && edited.crop.right == 0 && edited.crop.bottom == 0 && saved.crop == edited.crop
            &&& preset.aspect matches Some(aspect) ==> edited.aspect == aspect && saved.aspect == aspect
            &&& preset.aspect is None ==> edited.aspect == fallback && saved.aspect == fallback
            &&& preset.resolution is Some ==> edited.resolution == preset.resolution && saved.resolution
                == preset.resolution
            &&& preset.resolution is None ==> edited.resolution == resolution && saved.resolution == resolution
            &&& saved.chain == preset.chain
            &&& forall|stage: Stage| #[trigger] edited.chain.contains(stage) <==> preset.chain.contains(stage)
                && !is_frozen(stage)
        }),
{
    lemma_running_stages(preset.chain);
}

proof fn lemma_running_stages(chain: Seq<Stage>)
    ensures
        forall|stage: Stage| #[trigger] without_frozen(chain).contains(stage) <==> chain.contains(stage) && !is_frozen(
            stage,
        ),
    decreases chain.len(),
{
    if chain.len() > 0 {
        let rest = chain.drop_last();
        lemma_running_stages(rest);
        assert(chain =~= rest.push(chain.last()));
        assert forall|stage: Stage| #[trigger] without_frozen(chain).contains(stage) <==> chain.contains(stage)
            && !is_frozen(stage) by {
            lemma_push_contains(rest, chain.last(), stage);
            lemma_push_contains(without_frozen(rest), chain.last(), stage);
            assert(without_frozen(rest).contains(stage) <==> rest.contains(stage) && !is_frozen(stage));
        }
    }
}

proof fn lemma_push_contains<T>(list: Seq<T>, item: T, other: T)
    ensures
        list.push(item).contains(other) <==> list.contains(other) || other == item,
{
    if list.contains(other) {
        let i = choose|i: int| 0 <= i < list.len() && list[i] == other;
        assert(list.push(item)[i] == other);
    }
    assert(list.push(item)[list.len() as int] == item);
    if list.push(item).contains(other) {
        let i = choose|i: int| 0 <= i < list.push(item).len() && list.push(item)[i] == other;
        if i < list.len() {
            assert(list[i] == other);
        }
    }
}

/// The filters that run keep their order: those of a chain in two parts are those of the one
/// before those of the other; and a single one is kept or left out by what it is.
pub proof fn running_stages_keep_their_order(a: Seq<Stage>, b: Seq<Stage>, stage: Stage)
    ensures
        without_frozen(a + b) == without_frozen(a) + without_frozen(b),
        without_frozen(seq![stage]) == (if stage.kind == StageKind::Flow || contains_text(
            lower_text(stage.path),
            "neoflow"@,
        ) {
            Seq::<Stage>::empty()
        } else {
            seq![stage]
        }),
    decreases b.len(),
{
    let one = seq![stage];
    assert(one.drop_last() =~= Seq::<Stage>::empty());
    assert(Seq::<Stage>::empty().push(stage) =~= one);
    reveal_with_fuel(without_frozen, 2);
    if b.len() == 0 {
        assert(a + b =~= a);
        assert(without_frozen(a) + without_frozen(b) =~= without_frozen(a));
    } else {
        running_stages_keep_their_order(a, b.drop_last(), stage);
        assert((a + b).drop_last() =~= a + b.drop_last());
        assert((a + b).last() == b.last());
        assert(without_frozen(a + b) =~= without_frozen(a) + without_frozen(b));
    }
}

/// What was saved comes back: choosing a preset after the draft was saved in it gives that draft
/// again, its crop, correction, capture resolution and filters; and a saved preset keeps its
/// name. A draft without a capture resolution keeps the one of the moment when it is chosen.
pub proof fn a_saved_draft_comes_back(
    preset: PresetState,
    draft: DraftState,
    resolution: Option<CaptureResolution>,
    fallback: AspectCorrection,
)
    ensures
        ({
            let kept = overwritten(preset, draft);
            let (edited, saved) = chosen(kept, resolution, fallback);
            &&& kept.name == preset.name
            &&& saved.chain == draft.chain
            &&& saved.aspect == draft.aspect
            &&& saved.crop == draft.crop
            &&& draft.resolution is Some || draft.resolution == resolution ==> saved == draft
            &&& (forall|i: int| 0 <= i < draft.chain.len() ==> !is_frozen(#[trigger] draft.chain[i])) ==> edited
                == saved
        }),
{
    if forall|i: int| 0 <= i < draft.chain.len() ==> !is_frozen(#[trigger] draft.chain[i]) {
        lemma_nothing_frozen(draft.chain);
    }
}

/// A preset is found by its name: the first that has it, and none where no preset has it.
pub proof fn a_preset_is_found_by_its_name(presets: Seq<PresetState>, name: Seq<char>)
    ensures
        match preset_index(presets, name) {
            Some(i) => 0 <= i < presets.len() && presets[i].name == name && forall|j: int|
                0 <= j < i ==> (#[trigger] presets[j]).name != name,
            None => forall|j: int| 0 <= j < presets.len() ==> (#[trigger] presets[j]).name != name,
        },
{
    lemma_preset_index(presets, name);
}

/// Deleting takes the presets with that name away, and the others keep their order.
pub proof fn deleting_keeps_the_order(a: Seq<PresetState>, b: Seq<PresetState>, preset: PresetState, name: Seq<char>)
    ensures
        others(a + b, name) == others(a, name) + others(b, name),
        preset.name == name ==> others(seq![preset], name).len() == 0,
        preset.name != name ==> others(seq![preset], name) == seq![preset],
    decreases b.len(),
{
    let one = seq![preset];
    assert(one.drop_last() =~= Seq::<PresetState>::empty());
    assert(Seq::<PresetState>::empty().push(preset) =~= one);
    reveal_with_fuel(others, 2);
    if b.len() == 0 {
        assert(a + b =~= a);
        assert(others(a, name) + others(b, name) =~= others(a, name));
    } else {
        deleting_keeps_the_order(a, b.drop_last(), preset, name);
        assert((a + b).drop_last() =~= a + b.drop_last());
        assert((a + b).last() == b.last());
        assert(others(a + b, name) =~= others(a, name) + others(b, name));
    }
}

/// Nothing that differs passes for saved: drafts that compare as the same have the same crop and
/// capture resolution, the same filters in the same order, each on or off alike and with the same
/// parameters, and the same correction, where numbers are the same by their value.
pub proof fn a_difference_is_unsaved(a: DraftState, b: DraftState)
    ensures
        same_draft(a, b) ==> {
            &&& a.crop == b.crop
            &&& a.resolution == b.resolution
            &&& a.chain.len() == b.chain.len()
            &&& a.aspect.enabled == b.aspect.enabled
            &&& a.aspect.mode == b.aspect.mode
            &&& equal_numbers(a.aspect.width_scale, b.aspect.width_scale)
            &&& equal_numbers(a.aspect.height_scale, b.aspect.height_scale)
            &&& forall|i: int|
                0 <= i < a.chain.len() ==> (#[trigger] a.chain[i]).kind == b.chain[i].kind && a.chain[i].path
                    == b.chain[i].path && a.chain[i].enabled == b.chain[i].enabled && a.chain[i].params.dom()
                    == b.chain[i].params.dom()
            &&& forall|i: int, k: Seq<char>|
                0 <= i < a.chain.len() && (#[trigger] a.chain[i]).params.contains_key(k) ==> equal_numbers(
                    #[trigger] a.chain[i].params[k],
                    b.chain[i].params[k],
                )
        },
{
    if same_draft(a, b) {
        assert forall|i: int| 0 <= i < a.chain.len() implies (#[trigger] a.chain[i]).kind == b.chain[i].kind
            && a.chain[i].path == b.chain[i].path && a.chain[i].enabled == b.chain[i].enabled
            && a.chain[i].params.dom() == b.chain[i].params.dom() by {
            assert(same_stage(a.chain[i], b.chain[i]));
            assert forall|k: Seq<char>| #[trigger] a.chain[i].params.dom().contains(k) == b.chain[i].params.dom().contains(
                k,
            ) by {
                assert(a.chain[i].params.contains_key(k) == b.chain[i].params.contains_key(k));
            }
            assert(a.chain[i].params.dom() =~= b.chain[i].params.dom());
        }
        assert forall|i: int, k: Seq<char>|
            0 <= i < a.chain.len() && (#[trigger] a.chain[i]).params.contains_key(k) implies equal_numbers(
            #[trigger] a.chain[i].params[k],
            b.chain[i].params[k],
        ) by {
            assert(same_stage(a.chain[i], b.chain[i]));
        }
    }
}

/// Two bit patterns are the same number when they are equal, or both zero, with either sign; the
/// patterns that are no number are not even the same as themselves.
pub proof fn numbers_are_compared_by_value(a: u32, b: u32)
    ensures
        equal_numbers(a, b) == equal_numbers(b, a),
        (0x7f80_0000 < a < 0x8000_0000 || 0xff80_0000 < a) ==> !equal_numbers(a, b),
        a <= 0x7f80_0000 || 0x8000_0000 <= a <= 0xff80_0000 ==> equal_numbers(a, a),
        equal_numbers(0, 0x8000_0000),
        a != b && a != 0 && a != 0x8000_0000 ==> !equal_numbers(a, b),
{
}

/// At startup the settings hold what was edited last, and the preset in use what it is compared
/// with: a preset's own crop and correction come back as they were saved, settings without such a
/// preset are kept as they are, and the capture resolution is always that of the settings.
pub proof fn startup_restores_the_preset_in_use(
    preset: PresetState,
    aspect: AspectCorrection,
    crop: CaptureCrop,
    resolution: Option<CaptureResolution>,
    fallback: AspectCorrection,
)
    ensures
        ({
            let (edited, saved) = startup_drafts(Some(preset), aspect, crop, resolution, fallback);
            let (chosen_edited, chosen_saved) = chosen(preset, resolution, fallback);
            &&& edited.chain == chosen_edited.chain && saved.chain == edited.chain
            &&& preset.crop matches Some(own) ==> edited.crop == own && saved.crop == own
            &&& preset.crop is None ==> edited.crop == crop && saved.crop == chosen_saved.crop
            &&& preset.aspect matches Some(own) ==> edited.aspect == own && saved.aspect == own
            &&& preset.aspect is None ==> edited.aspect == aspect && saved.aspect == fallback
            &&& edited.resolution == resolution
            &&& saved.resolution == chosen_saved.resolution
        }),
        ({
            let (edited, saved) = startup_drafts(None, aspect, crop, resolution, fallback);
            &&& edited.chain.len() == 0 && saved.chain.len() == 0
            &&& edited.crop == crop && !saved.crop.enabled && saved.crop.left == 0 && saved.crop.top == 0
                && saved.crop.right == 0 && saved.crop.bottom == 0
            &&& edited.aspect == aspect && saved.aspect == fallback
            &&& edited.resolution == resolution && saved.resolution == resolution
        }),
{
}

/// Nothing of a draft or a preset is out of sight of its contracts: every value is what it is in
/// the data, and every filter with all that belongs to it.
pub proof fn drafts_and_presets_are_seen_whole(draft: Draft, preset: Preset, i: int)
    ensures
        draft@.aspect == draft.aspect && draft@.crop == draft.crop && draft@.resolution == draft.resolution,
        draft@.chain.len() == draft.chain@.len(),
        0 <= i < draft.chain@.len() ==> draft@.chain[i] == draft.chain@[i]@,
        preset@.name == preset.name@,
        preset@.aspect == preset.aspect && preset@.crop == preset.crop && preset@.resolution == preset.resolution,
        preset@.chain.len() == preset.chain@.len(),
        0 <= i < preset.chain@.len() ==> preset@.chain[i] == preset.chain@[i]@,
{
}

/// The presets are seen one by one, in their order.
pub proof fn presets_are_seen_in_their_order(presets: Seq<Preset>, i: int)
    ensures
        preset_states(presets).len() == presets.len(),
        0 <= i < presets.len() ==> preset_states(presets)[i] == presets[i]@,
{
}

/// Saving changes the preset in use and no other: it keeps its place and its name, and choosing it
/// again gives back the values that were saved.
pub proof fn saving_changes_the_preset_in_use(
    presets: Seq<PresetState>,
    i: int,
    k: int,
    draft: DraftState,
    resolution: Option<CaptureResolution>,
    fallback: AspectCorrection,
)
    requires
        0 <= i < presets.len(),
        forall|j: int| 0 <= j < i ==> (#[trigger] presets[j]).name != presets[i].name,
        0 <= k < presets.len(),
    ensures
        ({
            let after = saved_over(presets, presets[i].name, draft);
            &&& after.len() == presets.len()
            &&& k != i ==> after[k] == presets[k]
            &&& after[k].name == presets[k].name
            &&& preset_index(after, presets[i].name) == Some(i)
            &&& chosen(after[i], resolution, fallback).1.chain == draft.chain
            &&& chosen(after[i], resolution, fallback).1.aspect == draft.aspect
            &&& chosen(after[i], resolution, fallback).1.crop == draft.crop
            &&& draft.resolution is Some ==> chosen(after[i], resolution, fallback).1.resolution == draft.resolution
        }),
{
    lemma_preset_index(presets, presets[i].name);
    let after = saved_over(presets, presets[i].name, draft);
    lemma_preset_index(after, presets[i].name);
}

/// After the preset in use was deleted the first of those that are left is in use, and none is
/// only where no other was there.
pub proof fn the_first_preset_left_is_in_use(presets: Seq<PresetState>, name: Seq<char>, i: int)
    requires
        0 <= i < presets.len(),
        presets[i].name != name,
        forall|j: int| 0 <= j < i ==> (#[trigger] presets[j]).name == name,
    ensures
        next_in_use(presets, name) == Some(presets[i]),
    decreases presets.len(),
{
    if i == presets.len() - 1 {
        lemma_none_of_the_others(presets.drop_last(), name);
        assert(others(presets, name)[0] == presets[i]);
    } else {
        the_first_preset_left_is_in_use(presets.drop_last(), name, i);
    }
}

proof fn lemma_none_of_the_others(presets: Seq<PresetState>, name: Seq<char>)
    requires
        forall|j: int| 0 <= j < presets.len() ==> (#[trigger] presets[j]).name == name,
    ensures
        others(presets, name).len() == 0,
    decreases presets.len(),
{
    if presets.len() > 0 {
        assert(presets.last() == presets[presets.len() - 1]);
        lemma_none_of_the_others(presets.drop_last(), name);
    }
}

} // verus!
