//! The inference backend: which one runs, when it may be changed, and how it is tied to the
//! crop. One backend builds its engine for one exact shape, so it takes only a crop that is
//! saved with the preset.
use vstd::prelude::*;
use crate::chain::{clone_chain, stages, StageSpec};

verus! {

/// The margins cut off the captured picture.
#[derive(Clone, Copy, Debug, PartialEq, Eq, Structural)]
pub struct CaptureCrop {
    pub enabled: bool,
    pub left: u32,
    pub top: u32,
    pub right: u32,
    pub bottom: u32,
}

impl Default for CaptureCrop {
    fn default() -> (crop: Self)
        ensures
            crop == (CaptureCrop { enabled: false, left: 0, top: 0, right: 0, bottom: 0 }),
    {
        CaptureCrop { enabled: false, left: 0, top: 0, right: 0, bottom: 0 }
    }
}

pub open spec fn same_geometry(a: CaptureCrop, b: CaptureCrop) -> bool {
    a.left == b.left && a.top == b.top && a.right == b.right && a.bottom == b.bottom
}

/// Whether two crops have the same margins, switched on or not.
pub fn capture_crop_geometry_matches(a: CaptureCrop, b: CaptureCrop) -> (r: bool)
    ensures
        r == same_geometry(a, b),
{
    a.left == b.left && a.top == b.top && a.right == b.right && a.bottom == b.bottom
}

/// A crop that the fixed-shape backend may run with: switched off, or with the saved margins.
pub open spec fn fits_saved(current: CaptureCrop, saved: CaptureCrop) -> bool {
    !current.enabled || same_geometry(current, saved)
}

pub fn tensorrt_crop_switch_allowed(current: CaptureCrop, saved: CaptureCrop) -> (r: bool)
    ensures
        r == fits_saved(current, saved),
{
    !current.enabled || capture_crop_geometry_matches(current, saved)
}

/// The inference backends.
#[derive(Clone, Copy, Debug, PartialEq, Eq, Structural)]
pub enum OnnxBackendPreference {
    DirectML,
    TensorRT,
}

/// What was found of the optional backend.
#[derive(Clone, Copy, Debug, PartialEq, Eq, Structural)]
pub struct TensorRtAvailability {
    pub available: bool,
    pub device_id: Option<i32>,
    pub gpu_luid: Option<u64>,
}

impl Default for TensorRtAvailability {
    fn default() -> (r: Self)
        ensures
            r == (TensorRtAvailability { available: false, device_id: None, gpu_luid: None }),
    {
        TensorRtAvailability { available: false, device_id: None, gpu_luid: None }
    }
}

/// The option is shown only where the backend was found.
pub fn tensorrt_option_visible(availability: &TensorRtAvailability) -> (r: bool)
    ensures
        r == availability.available,
{
    availability.available
}

/// Protection of highlights in HDR sources is frozen: the option is hidden and never asked for.
pub const HDR_CAPTURE_OPTION_ENABLED: bool = false;

/// Whether HDR processing is asked for.
pub fn hdr_capture_requested(setting: bool) -> (r: bool)
    ensures
        r == (HDR_CAPTURE_OPTION_ENABLED && setting),
        !r,
{
    HDR_CAPTURE_OPTION_ENABLED && setting
}

/// The backend as the window shows it.
#[derive(Clone, Copy, Debug, PartialEq, Eq, Structural)]
pub struct BackendState {
    /// The backend that the checkbox shows.
    pub selected: OnnxBackendPreference,
    /// A change that the engine has not answered yet.
    pub pending: Option<OnnxBackendPreference>,
    /// The last answer of the engine that was looked at.
    pub revision_seen: u64,
    /// The backend in the settings.
    pub preference: OnnxBackendPreference,
}

/// A change under way is shown as if it had happened.
pub open spec fn shows_request(state: BackendState) -> bool {
    state.pending matches Some(requested) ==> state.selected == requested
}

/// The state at startup: the saved backend where it can run, else the one that always can. A
/// saved choice that only the crop rules out is given up in the settings too.
pub open spec fn startup_state(
    preference: OnnxBackendPreference,
    available: bool,
    crop: CaptureCrop,
    saved: CaptureCrop,
) -> BackendState {
    let wants = preference == OnnxBackendPreference::TensorRT && available;
    BackendState {
        selected: if wants && fits_saved(crop, saved) {
            OnnxBackendPreference::TensorRT
        } else {
            OnnxBackendPreference::DirectML
        },
        pending: None,
        revision_seen: 0,
        preference: if wants && !fits_saved(crop, saved) {
            OnnxBackendPreference::DirectML
        } else {
            preference
        },
    }
}

pub fn startup_backend(
    preference: OnnxBackendPreference,
    available: bool,
    crop: CaptureCrop,
    saved: CaptureCrop,
) -> (state: BackendState)
    ensures
        state == startup_state(preference, available, crop, saved),
        shows_request(state),
{
    let allowed = tensorrt_crop_switch_allowed(crop, saved);
    let wants = preference == OnnxBackendPreference::TensorRT && available;
    if wants && allowed {
        BackendState { selected: OnnxBackendPreference::TensorRT, pending: None, revision_seen: 0, preference }
    } else {
        let kept = if wants {
            OnnxBackendPreference::DirectML
        } else {
            preference
        };
        BackendState { selected: OnnxBackendPreference::DirectML, pending: None, revision_seen: 0, preference: kept }
    }
}

/// Whether a change to this backend may be asked for.
pub open spec fn may_request(
    backend: OnnxBackendPreference,
    available: bool,
    crop: CaptureCrop,
    saved: CaptureCrop,
) -> bool {
    backend == OnnxBackendPreference::TensorRT ==> available && fits_saved(crop, saved)
}

/// The engine's answer is new and grants the change that was asked for.
pub open spec fn confirmed(
    state: BackendState,
    revision: u64,
    active: OnnxBackendPreference,
    failed: bool,
) -> bool {
    revision != state.revision_seen && state.pending == Some(active) && !failed
}

/// The state after an answer of the engine: the checkbox shows what runs, and a granted change
/// reaches the settings.
pub open spec fn after_revision(
    state: BackendState,
    revision: u64,
    active: OnnxBackendPreference,
    failed: bool,
) -> BackendState {
    if revision == state.revision_seen {
        state
    } else {
        BackendState {
            selected: active,
            pending: None,
            revision_seen: revision,
            preference: if confirmed(state, revision, active, failed) {
                active
            } else {
                state.preference
            },
        }
    }
}

/// What the engine is told of a change of the backend.
pub struct SwitchCommand {
    pub backend: OnnxBackendPreference,
    pub trt_device_id: Option<i32>,
    pub chain: Vec<StageSpec>,
}

/// The command of a change that was asked for: the backend, the optional backend's own number of
/// the adapter, and the filters that it is to run.
pub fn switch_command(
    backend: OnnxBackendPreference,
    tensorrt: TensorRtAvailability,
    chain: &[StageSpec],
) -> (command: SwitchCommand)
    ensures
        command.backend == backend,
        command.trt_device_id == tensorrt.device_id,
        stages(command.chain@) == stages(chain@),
{
    SwitchCommand { backend, trt_device_id: tensorrt.device_id, chain: clone_chain(chain) }
}

/// The state after a request.
pub open spec fn after_request(
    state: BackendState,
    backend: OnnxBackendPreference,
    available: bool,
    crop: CaptureCrop,
    saved: CaptureCrop,
) -> BackendState {
    if may_request(backend, available, crop, saved) {
        BackendState { selected: backend, pending: Some(backend), ..state }
    } else {
        state
    }
}

/// The state after a change of the adapter.
pub open spec fn after_gpu_change(state: BackendState, tensorrt_available: bool) -> BackendState {
    if state.selected == OnnxBackendPreference::TensorRT && !tensorrt_available {
        BackendState {
            selected: OnnxBackendPreference::DirectML,
            pending: None,
            preference: OnnxBackendPreference::DirectML,
            ..state
        }
    } else {
        state
    }
}

impl BackendState {
    /// Asks for a backend. The checkbox follows at once; `true` means that the command is to be
    /// sent to the engine.
    pub fn request_onnx_backend_switch(
        &mut self,
        backend: OnnxBackendPreference,
        available: bool,
        crop: CaptureCrop,
        saved: CaptureCrop,
    ) -> (send: bool)
        ensures
            send == may_request(backend, available, crop, saved),
            *final(self) == after_request(*old(self), backend, available, crop, saved),
            shows_request(*old(self)) ==> shows_request(*final(self)),
    {
        if backend == OnnxBackendPreference::TensorRT && !available {
            return false;
        }
        if backend == OnnxBackendPreference::TensorRT && !tensorrt_crop_switch_allowed(crop, saved) {
            return false;
        }
        self.selected = backend;
        self.pending = Some(backend);
        true
    }

    /// Looks at the engine's answer. `true` means that the settings are to be saved.
    pub fn on_engine_revision(&mut self, revision: u64, active: OnnxBackendPreference, failed: bool) -> (save: bool)
        ensures
            save == confirmed(*old(self), revision, active, failed),
            *final(self) == after_revision(*old(self), revision, active, failed),
            shows_request(*old(self)) ==> shows_request(*final(self)),
    {
        if revision == self.revision_seen {
            return false;
        }
        self.revision_seen = revision;
        match self.pending {
            Some(requested) => {
                self.pending = None;
                self.selected = active;
                if !failed && active == requested {
                    self.preference = requested;
                    true
                } else {
                    false
                }
            },
            None => {
                self.selected = active;
                false
            },
        }
    }

    /// A change of the adapter that leaves the selected backend without a device falls back to
    /// the one that always runs. Returns the backend that the engine is told.
    pub fn on_gpu_change(&mut self, tensorrt_available: bool) -> (backend: OnnxBackendPreference)
        ensures
            *final(self) == after_gpu_change(*old(self), tensorrt_available),
            backend == final(self).selected,
            shows_request(*old(self)) ==> shows_request(*final(self)),
    {
        if self.selected == OnnxBackendPreference::TensorRT && !tensorrt_available {
            self.selected = OnnxBackendPreference::DirectML;
            self.pending = None;
            self.preference = OnnxBackendPreference::DirectML;
        }
        self.selected
    }

    /// Whether a change is under way.
    pub fn switching(&self, engine_switching: bool) -> (r: bool)
        ensures
            r == (self.pending is Some || engine_switching),
    {
        self.pending.is_some() || engine_switching
    }
}

/// A failed change rolls the checkbox back to what the engine runs, and only a confirmed one
/// reaches the settings.
pub proof fn only_confirmed_changes_are_saved(
    before: BackendState,
    revision: u64,
    active: OnnxBackendPreference,
    failed: bool,
)
    requires
        revision != before.revision_seen,
    ensures
        ({
            let after = after_revision(before, revision, active, failed);
            &&& after.selected == active
            &&& after.pending is None
            &&& after.preference != before.preference ==> confirmed(before, revision, active, failed)
            &&& failed ==> after.preference == before.preference
        }),
{
}

// ---------------------------------------------------------------------------------------
// Controls

/// The margins can be edited only while the fixed-shape backend is neither shown, nor running,
/// nor on its way.
pub open spec fn crop_locked(
    selected: OnnxBackendPreference,
    active: OnnxBackendPreference,
    switching: bool,
) -> bool {
    selected == OnnxBackendPreference::TensorRT || active == OnnxBackendPreference::TensorRT || switching
}

pub fn tensorrt_crop_locked(
    selected: OnnxBackendPreference,
    active: OnnxBackendPreference,
    switching: bool,
) -> (r: bool)
    ensures
        r == crop_locked(selected, active, switching),
{
    selected == OnnxBackendPreference::TensorRT || active == OnnxBackendPreference::TensorRT || switching
}

/// The margins can be typed and dragged.
pub fn crop_values_editable(crop_enabled: bool, locked: bool) -> (r: bool)
    ensures
        r == (crop_enabled && !locked),
{
    crop_enabled && !locked
}

pub open spec fn toggled_crop(crop: CaptureCrop, enabled: bool, locked: bool, saved: CaptureCrop) -> CaptureCrop {
    if enabled && locked {
        CaptureCrop { enabled: true, ..saved }
    } else {
        CaptureCrop { enabled, ..crop }
    }
}

/// Switching the crop on or off. While the margins are locked, switching on brings the saved
/// margins back.
pub fn toggle_crop(crop: CaptureCrop, enabled: bool, locked: bool, saved: CaptureCrop) -> (r: CaptureCrop)
    ensures
        r == toggled_crop(crop, enabled, locked, saved),
        locked ==> fits_saved(r, saved),
{
    if enabled && locked {
        CaptureCrop { enabled: true, left: saved.left, top: saved.top, right: saved.right, bottom: saved.bottom }
    } else {
        CaptureCrop { enabled, left: crop.left, top: crop.top, right: crop.right, bottom: crop.bottom }
    }
}

/// Whether the checkbox of the backend can be used.
pub open spec fn checkbox_enabled(
    selected: OnnxBackendPreference,
    switching: bool,
    crop: CaptureCrop,
    saved: CaptureCrop,
) -> bool {
    !switching && (selected == OnnxBackendPreference::TensorRT || fits_saved(crop, saved))
}

pub fn tensorrt_control_enabled(
    selected: OnnxBackendPreference,
    switching: bool,
    crop: CaptureCrop,
    saved: CaptureCrop,
) -> (r: bool)
    ensures
        r == checkbox_enabled(selected, switching, crop, saved),
{
    !switching && (selected == OnnxBackendPreference::TensorRT || tensorrt_crop_switch_allowed(crop, saved))
}

pub open spec fn asked_for(
    selected: OnnxBackendPreference,
    changed_to: Option<bool>,
    clicked: bool,
) -> Option<OnnxBackendPreference> {
    match changed_to {
        Some(true) => Some(OnnxBackendPreference::TensorRT),
        Some(false) => Some(OnnxBackendPreference::DirectML),
        None => if !clicked {
            None
        } else if selected == OnnxBackendPreference::TensorRT {
            Some(OnnxBackendPreference::DirectML)
        } else {
            Some(OnnxBackendPreference::TensorRT)
        },
    }
}

/// What the checkbox asks for: its new value if it changed, the other backend if it was only
/// clicked, else nothing.
pub fn requested_backend(
    selected: OnnxBackendPreference,
    changed_to: Option<bool>,
    clicked: bool,
) -> (r: Option<OnnxBackendPreference>)
    ensures
        r == asked_for(selected, changed_to, clicked),
{
    match changed_to {
        Some(on) => if on {
            Some(OnnxBackendPreference::TensorRT)
        } else {
            Some(OnnxBackendPreference::DirectML)
        },
        None => if !clicked {
            None
        } else if selected == OnnxBackendPreference::TensorRT {
            Some(OnnxBackendPreference::DirectML)
        } else {
            Some(OnnxBackendPreference::TensorRT)
        },
    }
}

/// A backend that is on can always be switched off once no change is under way, and what the
/// checkbox asks for then is never refused.
pub proof fn the_backend_can_always_be_left(crop: CaptureCrop, saved: CaptureCrop, available: bool)
    ensures
        checkbox_enabled(OnnxBackendPreference::TensorRT, false, crop, saved),
        may_request(OnnxBackendPreference::DirectML, available, crop, saved),
{
}

/// A crop that was edited and not saved never becomes a shape of the fixed-shape backend: it
/// can neither be entered with such a crop nor start with it.
pub proof fn unsaved_margins_never_reach_the_fixed_shape_backend(
    preference: OnnxBackendPreference,
    available: bool,
    crop: CaptureCrop,
    saved: CaptureCrop,
)
    requires
        crop.enabled,
        !same_geometry(crop, saved),
    ensures
        !may_request(OnnxBackendPreference::TensorRT, available, crop, saved),
        startup_state(preference, available, crop, saved).selected == OnnxBackendPreference::DirectML,
        !checkbox_enabled(OnnxBackendPreference::DirectML, false, crop, saved),
{
}

// ---------------------------------------------------------------------------------------
// When the fixed-shape backend may be entered

/// A crop may enter the backend with the margins that are saved, or switched off with any; one
/// that is on with a single other margin may not.
pub proof fn only_saved_margins_may_enter(crop: CaptureCrop, saved: CaptureCrop)
    ensures
        !crop.enabled ==> fits_saved(crop, saved),
        crop.left == saved.left && crop.top == saved.top && crop.right == saved.right && crop.bottom == saved.bottom
            ==> fits_saved(crop, saved) && same_geometry(crop, saved),
        crop.left != saved.left || crop.top != saved.top || crop.right != saved.right || crop.bottom != saved.bottom
            ==> !same_geometry(crop, saved) && (crop.enabled ==> !fits_saved(crop, saved)),
{
}

/// The saved backend comes back at startup where it can run with the crop of the moment; a
/// preference is given up only where it could run but for the crop.
pub proof fn the_saved_backend_comes_back(
    preference: OnnxBackendPreference,
    available: bool,
    crop: CaptureCrop,
    saved: CaptureCrop,
)
    ensures
        ({
            let state = startup_state(preference, available, crop, saved);
            &&& state.selected == OnnxBackendPreference::TensorRT <==> preference == OnnxBackendPreference::TensorRT
                && available && fits_saved(crop, saved)
            &&& state.pending is None
            &&& state.revision_seen == 0
            &&& state.preference != preference <==> preference == OnnxBackendPreference::TensorRT && available
                && !fits_saved(crop, saved)
        }),
{
}

/// The backend that takes any shape may always be asked for; the other only where it was found and
/// the crop may enter it.
pub proof fn the_fixed_shape_backend_must_be_there(
    available: bool,
    crop: CaptureCrop,
    saved: CaptureCrop,
)
    ensures
        may_request(OnnxBackendPreference::DirectML, available, crop, saved),
        may_request(OnnxBackendPreference::TensorRT, available, crop, saved) <==> available && fits_saved(crop, saved),
{
}

/// After an answer of the engine the checkbox shows what runs and nothing is under way; the
/// settings take over exactly a change that was asked for and granted.
pub proof fn the_checkbox_shows_what_runs(
    state: BackendState,
    revision: u64,
    active: OnnxBackendPreference,
    failed: bool,
)
    ensures
        revision == state.revision_seen ==> after_revision(state, revision, active, failed) == state,
        revision != state.revision_seen ==> {
            let next = after_revision(state, revision, active, failed);
            &&& next.selected == active
            &&& next.pending is None
            &&& next.revision_seen == revision
            &&& state.pending == Some(active) && !failed ==> next.preference == active
            &&& state.pending != Some(active) || failed ==> next.preference == state.preference
        },
        confirmed(state, revision, active, failed) <==> revision != state.revision_seen && state.pending == Some(active)
            && !failed,
{
}

/// Margins are locked while the fixed-shape backend is chosen, runs or is being changed to; the
/// checkbox can be used where nothing is under way and it would be switched off, or the crop may
/// enter.
pub proof fn the_controls_follow_the_backend(
    selected: OnnxBackendPreference,
    active: OnnxBackendPreference,
    switching: bool,
    crop: CaptureCrop,
    saved: CaptureCrop,
)
    ensures
        !crop_locked(selected, active, switching) <==> selected == OnnxBackendPreference::DirectML && active
            == OnnxBackendPreference::DirectML && !switching,
        switching ==> !checkbox_enabled(selected, switching, crop, saved),
        !switching && selected == OnnxBackendPreference::TensorRT ==> checkbox_enabled(selected, switching, crop, saved),
        !switching && selected == OnnxBackendPreference::DirectML ==> (checkbox_enabled(
            selected,
            switching,
            crop,
            saved,
        ) <==> fits_saved(crop, saved)),
{
}

/// A request that may be made is shown and waits for the engine, whose answer decides: a
/// confirmation makes it the saved choice, a failure leaves what was saved. One that may not be
/// made changes nothing.
pub proof fn a_request_waits_for_its_answer(
    state: BackendState,
    backend: OnnxBackendPreference,
    available: bool,
    crop: CaptureCrop,
    saved: CaptureCrop,
    revision: u64,
    active: OnnxBackendPreference,
    failed: bool,
)
    requires
        revision != state.revision_seen,
    ensures
        ({
            let asked = after_request(state, backend, available, crop, saved);
            &&& backend == OnnxBackendPreference::TensorRT && !available ==> asked == state
            &&& backend == OnnxBackendPreference::TensorRT && !fits_saved(crop, saved) ==> asked == state
            &&& backend == OnnxBackendPreference::DirectML || (available && fits_saved(crop, saved)) ==> {
                let answered = after_revision(asked, revision, active, failed);
                &&& asked.selected == backend && asked.pending == Some(backend)
                &&& asked.preference == state.preference && asked.revision_seen == state.revision_seen
                &&& answered.selected == active && answered.pending is None && answered.revision_seen == revision
                &&& !failed && active == backend ==> answered.preference == backend
                &&& failed || active != backend ==> answered.preference == state.preference
            }
        }),
{
}

/// An adapter without the fixed-shape backend ends it at once, in the settings too; any other
/// change of the adapter leaves the backend alone, and a second look changes nothing more.
pub proof fn an_adapter_without_the_backend_ends_it(state: BackendState, available: bool)
    ensures
        available ==> after_gpu_change(state, available) == state,
        state.selected == OnnxBackendPreference::DirectML ==> after_gpu_change(state, available) == state,
        !available ==> after_gpu_change(state, available).selected == OnnxBackendPreference::DirectML,
        !available && state.selected == OnnxBackendPreference::TensorRT ==> after_gpu_change(state, available).pending
            is None && after_gpu_change(state, available).preference == OnnxBackendPreference::DirectML,
        after_gpu_change(state, available).revision_seen == state.revision_seen,
        after_gpu_change(after_gpu_change(state, available), available) == after_gpu_change(state, available),
{
}

/// Switching the crop sets the switch; its margins stay as they are, but for a locked crop that is
/// switched on, which gets the saved ones.
pub proof fn a_switched_crop_keeps_its_margins(crop: CaptureCrop, enabled: bool, locked: bool, saved: CaptureCrop)
    ensures
        ({
            let r = toggled_crop(crop, enabled, locked, saved);
            &&& r.enabled == enabled
            &&& !locked || !enabled ==> r.left == crop.left && r.top == crop.top && r.right == crop.right && r.bottom
                == crop.bottom
            &&& locked && enabled ==> r.left == saved.left && r.top == saved.top && r.right == saved.right && r.bottom
                == saved.bottom
        }),
{
}

/// The checkbox asks for the backend that it shows, a bare click for the one that is not selected,
/// and an untouched one for nothing.
pub proof fn a_click_asks_for_the_other_backend(selected: OnnxBackendPreference, on: bool, clicked: bool)
    ensures
        asked_for(selected, Some(on), clicked) == Some(
            if on {
                OnnxBackendPreference::TensorRT
            } else {
                OnnxBackendPreference::DirectML
            },
        ),
        asked_for(selected, None, false) is None,
        asked_for(selected, None, true) matches Some(other) && other != selected,
{
}

} // verus!
