//! The choice of the graphics adapter: what the selector offers, what a choice means for the
//! inference backend, and what is settled once the renderer runs.
use vstd::prelude::*;
use crate::backend::{BackendState, OnnxBackendPreference, TensorRtAvailability, after_gpu_change};
use crate::gpu::{GpuAdapter, adapter_for_luid, device_id_for_luid, lookup};

verus! {

/// The PCI number of the vendor whose adapters the optional backend runs on.
pub const TENSORRT_VENDOR: u32 = 0x10de;

/// The selector is shown where there is something to select.
pub fn gpu_selector_visible(adapters: &[GpuAdapter]) -> (r: bool)
    ensures
        r == (adapters@.len() >= 2),
{
    adapters.len() >= 2
}

pub open spec fn compute_luid(requested: Option<u64>, render: Option<u64>) -> Option<u64> {
    if requested is Some {
        requested
    } else {
        render
    }
}

/// The adapter that computes: an explicit choice is kept even where the renderer stays on
/// another adapter; without one, the renderer's own adapter.
pub fn resolve_compute_gpu_luid(requested: Option<u64>, render: Option<u64>) -> (r: Option<u64>)
    ensures
        r == compute_luid(requested, render),
{
    if requested.is_some() {
        requested
    } else {
        render
    }
}

/// Whether computing and rendering are known to be on different adapters.
pub fn cross_gpu_compute_active(requested: Option<u64>, render: Option<u64>) -> (r: bool)
    ensures
        r == (requested is Some && render is Some && requested != render),
{
    match (requested, render) {
        (Some(requested), Some(render)) => requested != render,
        _ => false,
    }
}

/// One entry of the selector: an adapter, or none for the automatic choice, and whether its
/// filters go through Vulkan.
#[derive(Clone, Copy, Debug, PartialEq, Eq, Structural)]
pub struct GpuChoice {
    pub luid: Option<u64>,
    pub force_vulkan: bool,
}

/// There is no automatic choice through Vulkan.
pub open spec fn is_sound(choice: GpuChoice) -> bool {
    choice.force_vulkan ==> choice.luid is Some
}

/// What a saved choice is at startup: an adapter that is gone leaves the automatic choice.
pub open spec fn restored_choice(saved: GpuChoice, adapters: Seq<GpuAdapter>) -> GpuChoice {
    if saved.luid is Some && lookup(adapters, saved.luid) is None {
        GpuChoice { luid: None, force_vulkan: false }
    } else {
        GpuChoice { luid: saved.luid, force_vulkan: saved.force_vulkan && saved.luid is Some }
    }
}

/// The choice at startup, and whether the settings are to be saved.
pub fn startup_selection(saved: GpuChoice, adapters: &[GpuAdapter]) -> (r: (GpuChoice, bool))
    ensures
        r.0 == restored_choice(saved, adapters@),
        r.1 == (r.0 != saved),
        is_sound(r.0),
        r.0.luid is Some ==> lookup(adapters@, r.0.luid) is Some,
{
    if saved.luid.is_some() && adapter_for_luid(adapters, saved.luid).is_none() {
        (GpuChoice { luid: None, force_vulkan: false }, true)
    } else if saved.luid.is_none() && saved.force_vulkan {
        (GpuChoice { luid: None, force_vulkan: false }, true)
    } else {
        (saved, false)
    }
}

/// The choice that the selector marks.
pub fn current_choice(luid: Option<u64>, force_vulkan: bool) -> (r: GpuChoice)
    ensures
        r == (GpuChoice { luid, force_vulkan: force_vulkan && luid is Some }),
        is_sound(r),
{
    GpuChoice { luid, force_vulkan: force_vulkan && luid.is_some() }
}

pub open spec fn vulkan_label(name: Seq<char>) -> Seq<char> {
    name + " [Vulkan]"@
}

/// What the closed selector shows.
pub open spec fn choice_text(adapters: Seq<GpuAdapter>, choice: GpuChoice, auto: Seq<char>) -> Seq<char> {
    match lookup(adapters, choice.luid) {
        Some(adapter) => if choice.force_vulkan {
            vulkan_label(adapter.name@)
        } else {
            adapter.name@
        },
        None => auto,
    }
}

pub fn selected_text(adapters: &[GpuAdapter], choice: GpuChoice, auto: &str) -> (text: String)
    ensures
        text@ == choice_text(adapters@, choice, auto@),
{
    match adapter_for_luid(adapters, choice.luid) {
        Some(adapter) => {
            let mut text = adapter.name.clone();
            if choice.force_vulkan {
                text.append(" [Vulkan]");
            }
            text
        },
        None => auto.to_owned(),
    }
}

/// One row of the open selector.
#[derive(Debug, PartialEq, Eq)]
pub struct GpuRow {
    pub choice: GpuChoice,
    pub label: String,
}

/// The row at a position: the automatic choice, then each adapter, then each adapter through
/// Vulkan.
pub open spec fn is_row(adapters: Seq<GpuAdapter>, auto: Seq<char>, i: int, row: GpuRow) -> bool {
    if i == 0 {
        row.choice == (GpuChoice { luid: None, force_vulkan: false }) && row.label@ == auto
    } else if i <= adapters.len() {
        row.choice == (GpuChoice { luid: Some(adapters[i - 1].luid), force_vulkan: false }) && row.label@
            == adapters[i - 1].name@
    } else {
        let adapter = adapters[i - 1 - adapters.len()];
        row.choice == (GpuChoice { luid: Some(adapter.luid), force_vulkan: true }) && row.label@ == vulkan_label(
            adapter.name@,
        )
    }
}

/// The rows of the open selector. The separator stands before row `1 + adapters.len()`.
pub fn selector_rows(adapters: &[GpuAdapter], auto: &str) -> (rows: Vec<GpuRow>)
    ensures
        rows@.len() == 1 + 2 * adapters@.len(),
        forall|i: int| 0 <= i < rows@.len() ==> #[trigger] is_row(adapters@, auto@, i, rows@[i]),
        forall|i: int| 0 <= i < rows@.len() ==> is_sound((#[trigger] rows@[i]).choice),
{
    let mut rows: Vec<GpuRow> = Vec::new();
    rows.push(GpuRow { choice: GpuChoice { luid: None, force_vulkan: false }, label: auto.to_owned() });
    let mut i: usize = 0;
    while i < adapters.len()
        invariant
            i <= adapters@.len(),
            rows@.len() == 1 + i,
            forall|j: int| 0 <= j < rows@.len() ==> #[trigger] is_row(adapters@, auto@, j, rows@[j]),
            forall|j: int| 0 <= j < rows@.len() ==> is_sound((#[trigger] rows@[j]).choice),
        decreases adapters@.len() - i,
    {
        rows.push(
            GpuRow {
                choice: GpuChoice { luid: Some(adapters[i].luid), force_vulkan: false },
                label: adapters[i].name.clone(),
            },
        );
        i += 1;
    }
    i = 0;
    while i < adapters.len()
        invariant
            i <= adapters@.len(),
            rows@.len() == 1 + adapters@.len() + i,
            forall|j: int| 0 <= j < rows@.len() ==> #[trigger] is_row(adapters@, auto@, j, rows@[j]),
            forall|j: int| 0 <= j < rows@.len() ==> is_sound((#[trigger] rows@[j]).choice),
        decreases adapters@.len() - i,
    {
        let mut label = adapters[i].name.clone();
        label.append(" [Vulkan]");
        rows.push(GpuRow { choice: GpuChoice { luid: Some(adapters[i].luid), force_vulkan: true }, label });
        i += 1;
    }
    rows
}

/// Choosing a row of distinct adapters shows the row's own label afterwards.
pub proof fn a_chosen_row_is_shown(adapters: Seq<GpuAdapter>, auto: Seq<char>, i: int, row: GpuRow)
    requires
        crate::gpu::distinct_luids(adapters),
        0 <= i < 1 + 2 * adapters.len(),
        is_row(adapters, auto, i, row),
    ensures
        choice_text(adapters, row.choice, auto) == row.label@,
{
    if i > 0 {
        let k = if i <= adapters.len() {
            i - 1
        } else {
            i - 1 - adapters.len()
        };
        crate::gpu::lookup_is_unique(adapters, adapters[k].luid, k);
        crate::gpu::lookup_is_first(adapters, adapters[k].luid, k);
    }
}

// ---------------------------------------------------------------------------------------
// A change

pub open spec fn vendor_count(adapters: Seq<GpuAdapter>, vendor: u32) -> nat
    decreases adapters.len(),
{
    if adapters.len() == 0 {
        0
    } else {
        vendor_count(adapters.drop_last(), vendor) + (if adapters.last().vendor_id == vendor {
            1nat
        } else {
            0nat
        })
    }
}

fn count_vendor(adapters: &[GpuAdapter], vendor: u32) -> (n: usize)
    ensures
        n == vendor_count(adapters@, vendor),
{
    let mut n: usize = 0;
    let mut i: usize = 0;
    while i < adapters.len()
        invariant
            n <= i <= adapters@.len(),
            n == vendor_count(adapters@.take(i as int), vendor),
        decreases adapters@.len() - i,
    {
        proof {
            assert(adapters@.take(i + 1).drop_last() =~= adapters@.take(i as int));
        }
        if adapters[i].vendor_id == vendor {
            n += 1;
        }
        i += 1;
    }
    proof {
        assert(adapters@.take(adapters@.len() as int) =~= adapters@);
    }
    n
}

/// What follows from a new choice before the optional backend is looked for again.
#[derive(Clone, Copy, Debug, PartialEq, Eq, Structural)]
pub struct SelectionChange {
    /// The adapter that computes.
    pub effective: Option<u64>,
    /// Its ordinal.
    pub gpu_adapter: Option<i32>,
    /// What is known of the optional backend still holds.
    pub reuse_tensorrt: bool,
}

/// What is known of the optional backend holds on for the same physical adapter. An automatic
/// choice names one only where there is a single adapter of that vendor.
pub open spec fn same_tensorrt_gpu(
    adapters: Seq<GpuAdapter>,
    requested: Option<u64>,
    render: Option<u64>,
    tensorrt: TensorRtAvailability,
) -> bool {
    tensorrt.available && (requested is Some || vendor_count(adapters, TENSORRT_VENDOR) == 1) && tensorrt.gpu_luid
        == compute_luid(requested, render)
}

pub open spec fn device_of(adapters: Seq<GpuAdapter>, luid: Option<u64>) -> Option<i32> {
    match lookup(adapters, luid) {
        Some(adapter) => Some(adapter.device_id),
        None => None,
    }
}

pub open spec fn change_of(
    adapters: Seq<GpuAdapter>,
    current: GpuChoice,
    choice: GpuChoice,
    render: Option<u64>,
    tensorrt: TensorRtAvailability,
) -> Option<SelectionChange> {
    if choice == current {
        None
    } else {
        Some(
            SelectionChange {
                effective: compute_luid(choice.luid, render),
                gpu_adapter: device_of(adapters, compute_luid(choice.luid, render)),
                reuse_tensorrt: same_tensorrt_gpu(adapters, choice.luid, render, tensorrt),
            },
        )
    }
}

/// Takes a choice; nothing follows from choosing what was chosen already.
pub fn selection_change(
    adapters: &[GpuAdapter],
    current: GpuChoice,
    choice: GpuChoice,
    render: Option<u64>,
    tensorrt: TensorRtAvailability,
) -> (change: Option<SelectionChange>)
    ensures
        change == change_of(adapters@, current, choice, render, tensorrt),
{
    if choice == current {
        return None;
    }
    let effective = resolve_compute_gpu_luid(choice.luid, render);
    let unambiguous = choice.luid.is_some() || count_vendor(adapters, TENSORRT_VENDOR) == 1;
    let reuse_tensorrt = tensorrt.available && unambiguous && tensorrt.gpu_luid == effective;
    Some(SelectionChange { effective, gpu_adapter: device_id_for_luid(adapters, effective), reuse_tensorrt })
}

/// What the engine is told of a new choice.
#[derive(Clone, Copy, Debug, PartialEq, Eq, Structural)]
pub struct SelectionCommand {
    pub gpu_adapter: Option<i32>,
    pub explicit_gpu_luid: Option<u64>,
    pub force_vulkan_glsl: bool,
    pub backend: OnnxBackendPreference,
    pub trt_device_id: Option<i32>,
}

pub open spec fn selection_command(
    state: BackendState,
    choice: GpuChoice,
    change: SelectionChange,
    tensorrt: TensorRtAvailability,
) -> SelectionCommand {
    SelectionCommand {
        gpu_adapter: change.gpu_adapter,
        explicit_gpu_luid: choice.luid,
        force_vulkan_glsl: choice.force_vulkan,
        backend: after_gpu_change(state, tensorrt.available).selected,
        trt_device_id: tensorrt.device_id,
    }
}

/// Carries a new choice out: the backend falls back where the chosen adapter does not have it,
/// and the engine is told.
pub fn commit_selection(
    state: &mut BackendState,
    choice: GpuChoice,
    change: SelectionChange,
    tensorrt: TensorRtAvailability,
) -> (command: SelectionCommand)
    ensures
        command == selection_command(*old(state), choice, change, tensorrt),
        *final(state) == after_gpu_change(*old(state), tensorrt.available),
        command.backend == OnnxBackendPreference::TensorRT ==> tensorrt.available,
{
    let backend = state.on_gpu_change(tensorrt.available);
    SelectionCommand {
        gpu_adapter: change.gpu_adapter,
        explicit_gpu_luid: choice.luid,
        force_vulkan_glsl: choice.force_vulkan,
        backend,
        trt_device_id: tensorrt.device_id,
    }
}

/// The adapter can be changed only while nothing runs and no change is under way.
pub fn gpu_change_enabled(busy: crate::session::Busy, backend_switching: bool, backend_pending: bool) -> (r: bool)
    ensures
        r == (!busy.starting && !busy.running && !busy.stopping && !busy.preparing && !backend_switching
            && !backend_pending),
{
    !(busy.starting || busy.running || busy.stopping || backend_switching || backend_pending || busy.preparing)
}

/// The adapter that computes follows an explicit choice whatever the renderer does, and the
/// renderer without one; crossing adapters takes an explicit choice.
pub proof fn an_explicit_choice_is_kept(requested: Option<u64>, render: Option<u64>)
    ensures
        requested is Some ==> compute_luid(requested, render) == requested,
        requested is None ==> compute_luid(requested, render) == render,
        compute_luid(requested, render) != render ==> requested is Some,
{
}

// ---------------------------------------------------------------------------------------
// Once the renderer runs

/// How the renderer's adapter compares with the choice.
#[derive(Clone, Copy, Debug, PartialEq, Eq, Structural)]
pub enum SelectionReport {
    Match { luid: u64 },
    Mismatch { requested: u64, actual: u64 },
    Unverified { requested: u64 },
    Auto { render: Option<u64> },
}

pub open spec fn report_of(requested: Option<u64>, actual: Option<u64>) -> SelectionReport {
    match requested {
        None => SelectionReport::Auto { render: actual },
        Some(requested) => match actual {
            None => SelectionReport::Unverified { requested },
            Some(actual) => if requested == actual {
                SelectionReport::Match { luid: requested }
            } else {
                SelectionReport::Mismatch { requested, actual }
            },
        },
    }
}

pub fn selection_report(requested: Option<u64>, actual: Option<u64>) -> (r: SelectionReport)
    ensures
        r == report_of(requested, actual),
{
    match requested {
        None => SelectionReport::Auto { render: actual },
        Some(requested) => match actual {
            None => SelectionReport::Unverified { requested },
            Some(actual) => if requested == actual {
                SelectionReport::Match { luid: requested }
            } else {
                SelectionReport::Mismatch { requested, actual }
            },
        },
    }
}

/// The diagnostic probes.
#[derive(Clone, Copy, Debug, PartialEq, Eq, Structural)]
pub enum ProbeKind {
    Gpu,
    Glsl,
    Image,
}

/// One step of settling.
#[derive(Clone, Copy, Debug, PartialEq, Eq, Structural)]
pub enum FinalizeStep {
    Report(SelectionReport),
    /// Tell the process that was left behind that this one renders.
    SignalHandoff,
    /// Record that the Vulkan route was asked for.
    Breadcrumb,
    Probe { kind: ProbeKind, luid: u64 },
    /// No adapter is known to probe.
    SkipProbe { kind: ProbeKind },
}

/// What was asked for by the environment.
#[derive(Clone, Copy, Debug, PartialEq, Eq, Structural)]
pub struct ProbeWishes {
    pub production: bool,
    pub gpu: bool,
    pub glsl: bool,
    pub image: bool,
}

/// What is settled already.
#[derive(Clone, Copy, Debug, PartialEq, Eq, Structural)]
pub struct StartupChecks {
    pub verified: bool,
    pub signaled: bool,
    pub probed: bool,
}

pub open spec fn all_done(checks: StartupChecks) -> bool {
    checks.verified && checks.signaled && checks.probed
}

pub open spec fn step_if(condition: bool, step: FinalizeStep) -> Seq<FinalizeStep> {
    if condition {
        seq![step]
    } else {
        Seq::empty()
    }
}

pub open spec fn probe_step(kind: ProbeKind, target: Option<u64>) -> FinalizeStep {
    match target {
        Some(luid) => FinalizeStep::Probe { kind, luid },
        None => FinalizeStep::SkipProbe { kind },
    }
}

/// The steps: each part is done once, as soon as the renderer is ready, and the probes go to
/// the adapter that computes.
pub open spec fn finalize_steps(
    checks: StartupChecks,
    ready: bool,
    requested: Option<u64>,
    actual: Option<u64>,
    marker: bool,
    wishes: ProbeWishes,
) -> Seq<FinalizeStep> {
    let target = compute_luid(requested, actual);
    let probing = ready && !checks.probed;
    Seq::<FinalizeStep>::empty() + step_if(
        ready && !checks.verified,
        FinalizeStep::Report(report_of(requested, actual)),
    ) + step_if(ready && !checks.signaled && marker, FinalizeStep::SignalHandoff) + step_if(
        probing && wishes.production,
        FinalizeStep::Breadcrumb,
    ) + step_if(probing && wishes.gpu, probe_step(ProbeKind::Gpu, target)) + step_if(
        probing && wishes.glsl,
        probe_step(ProbeKind::Glsl, target),
    ) + step_if(probing && wishes.image, probe_step(ProbeKind::Image, target))
}

fn push_step(out: &mut Vec<FinalizeStep>, condition: bool, step: FinalizeStep)
    ensures
        final(out)@ == old(out)@ + step_if(condition, step),
{
    if condition {
        out.push(step);
    }
    proof {
        assert(out@ =~= old(out)@ + step_if(condition, step));
    }
}

fn choose_probe(kind: ProbeKind, target: Option<u64>) -> (step: FinalizeStep)
    ensures
        step == probe_step(kind, target),
{
    match target {
        Some(luid) => FinalizeStep::Probe { kind, luid },
        None => FinalizeStep::SkipProbe { kind },
    }
}

impl StartupChecks {
    /// Settles what can be settled now.
    pub fn maybe_finalize_gpu_selection_startup(
        &mut self,
        ready: bool,
        requested: Option<u64>,
        actual: Option<u64>,
        marker: bool,
        wishes: ProbeWishes,
    ) -> (steps: Vec<FinalizeStep>)
        ensures
            steps@ == finalize_steps(*old(self), ready, requested, actual, marker, wishes),
            *final(self) == (if ready {
                StartupChecks { verified: true, signaled: true, probed: true }
            } else {
                *old(self)
            }),
    {
        let mut steps: Vec<FinalizeStep> = Vec::new();
        let target = resolve_compute_gpu_luid(requested, actual);
        let probing = ready && !self.probed;
        push_step(
            &mut steps,
            ready && !self.verified,
            FinalizeStep::Report(selection_report(requested, actual)),
        );
        push_step(&mut steps, ready && !self.signaled && marker, FinalizeStep::SignalHandoff);
        push_step(&mut steps, probing && wishes.production, FinalizeStep::Breadcrumb);
        push_step(&mut steps, probing && wishes.gpu, choose_probe(ProbeKind::Gpu, target));
        push_step(&mut steps, probing && wishes.glsl, choose_probe(ProbeKind::Glsl, target));
        push_step(&mut steps, probing && wishes.image, choose_probe(ProbeKind::Image, target));
        if ready {
            self.verified = true;
            self.signaled = true;
            self.probed = true;
        }
        steps
    }
}

/// Settling happens once: when everything is settled nothing follows.
pub proof fn settling_happens_once(
    checks: StartupChecks,
    ready: bool,
    requested: Option<u64>,
    actual: Option<u64>,
    marker: bool,
    wishes: ProbeWishes,
)
    requires
        all_done(checks),
    ensures
        finalize_steps(checks, ready, requested, actual, marker, wishes) =~= Seq::empty(),
{
}

// ---------------------------------------------------------------------------------------
// What a choice is for

/// A saved choice comes back as it was where its adapter is still there; otherwise it is the
/// automatic one, which never forces a way.
pub proof fn a_saved_choice_comes_back(saved: GpuChoice, adapters: Seq<GpuAdapter>)
    ensures
        saved.luid matches Some(luid) ==> (exists|i: int| 0 <= i < adapters.len() && (#[trigger] adapters[i]).luid
            == luid) ==> restored_choice(saved, adapters) == saved,
        saved.luid matches Some(luid) ==> (forall|i: int| 0 <= i < adapters.len() ==> (#[trigger] adapters[i]).luid
            != luid) ==> restored_choice(saved, adapters).luid is None && !restored_choice(saved, adapters).force_vulkan,
        saved.luid is None ==> restored_choice(saved, adapters).luid is None && !restored_choice(
            saved,
            adapters,
        ).force_vulkan,
{
}

/// The selector shows the name of the chosen adapter, marked where it goes through Vulkan, and the
/// word for the automatic choice where there is none.
pub proof fn the_selector_shows_the_choice(adapters: Seq<GpuAdapter>, choice: GpuChoice, auto: Seq<char>, i: int)
    requires
        0 <= i < adapters.len(),
        forall|j: int| 0 <= j < i ==> (#[trigger] adapters[j]).luid != adapters[i].luid,
    ensures
        choice.luid == Some(adapters[i].luid) && !choice.force_vulkan ==> choice_text(adapters, choice, auto)
            == adapters[i].name@,
        choice.luid == Some(adapters[i].luid) && choice.force_vulkan ==> choice_text(adapters, choice, auto)
            == adapters[i].name@ + " [Vulkan]"@,
        choice.luid is None ==> choice_text(adapters, choice, auto) == auto,
{
    crate::gpu::lookup_is_first(adapters, adapters[i].luid, i);
}

/// A row chooses what it shows: the first the automatic choice, the next the adapters in their
/// order, the last the same adapters through Vulkan.
pub proof fn a_row_chooses_what_it_shows(adapters: Seq<GpuAdapter>, auto: Seq<char>, i: int, row: GpuRow)
    requires
        is_row(adapters, auto, i, row),
        0 <= i <= 2 * adapters.len(),
    ensures
        i == 0 ==> row.choice.luid is None && !row.choice.force_vulkan && row.label@ == auto,
        1 <= i <= adapters.len() ==> row.choice.luid == Some(adapters[i - 1].luid) && !row.choice.force_vulkan
            && row.label@ == adapters[i - 1].name@,
        i > adapters.len() ==> row.choice.luid == Some(adapters[i - 1 - adapters.len()].luid)
            && row.choice.force_vulkan && row.label@ == adapters[i - 1 - adapters.len()].name@ + " [Vulkan]"@,
{
}

/// What is known of the optional backend is kept only for the adapter that it was found on: the
/// chosen one, or without a choice the renderer's where the maker has no second adapter.
pub proof fn the_backend_is_kept_on_its_adapter(
    adapters: Seq<GpuAdapter>,
    requested: Option<u64>,
    render: Option<u64>,
    tensorrt: TensorRtAvailability,
)
    ensures
        same_tensorrt_gpu(adapters, requested, render, tensorrt) ==> tensorrt.available,
        requested is Some && tensorrt.available ==> (same_tensorrt_gpu(adapters, requested, render, tensorrt)
            <==> tensorrt.gpu_luid == requested),
        requested is None && same_tensorrt_gpu(adapters, requested, render, tensorrt) ==> tensorrt.gpu_luid == render,
        requested is None && tensorrt.available && tensorrt.gpu_luid == render && vendor_count(adapters, 0x10de) == 1
            ==> same_tensorrt_gpu(adapters, requested, render, tensorrt),
        requested is None && vendor_count(adapters, 0x10de) != 1 ==> !same_tensorrt_gpu(
            adapters,
            requested,
            render,
            tensorrt,
        ),
{
}

/// Adapters of a maker are counted one by one.
pub proof fn adapters_are_counted(adapters: Seq<GpuAdapter>, next: GpuAdapter, vendor: u32)
    ensures
        next.vendor_id == vendor ==> vendor_count(adapters.push(next), vendor) == vendor_count(adapters, vendor) + 1,
        next.vendor_id != vendor ==> vendor_count(adapters.push(next), vendor) == vendor_count(adapters, vendor),
        vendor_count(Seq::empty(), vendor) == 0,
{
    assert(adapters.push(next).drop_last() =~= adapters);
}

/// The number of an adapter is that of the first with its id, and there is none without one.
pub proof fn an_adapter_has_its_number(adapters: Seq<GpuAdapter>, luid: u64, i: int)
    requires
        0 <= i < adapters.len(),
        adapters[i].luid == luid,
        forall|j: int| 0 <= j < i ==> (#[trigger] adapters[j]).luid != luid,
    ensures
        device_of(adapters, Some(luid)) == Some(adapters[i].device_id),
        device_of(adapters, None) is None,
{
    crate::gpu::lookup_is_first(adapters, luid, i);
}

/// The report says whether the renderer runs on the chosen adapter, and on which it runs.
pub proof fn the_report_compares_the_adapters(requested: Option<u64>, actual: Option<u64>)
    ensures
        report_of(requested, actual) is Auto <==> requested is None,
        report_of(requested, actual) matches SelectionReport::Auto { render } ==> render == actual,
        report_of(requested, actual) is Match <==> requested is Some && requested == actual,
        report_of(requested, actual) matches SelectionReport::Match { luid } ==> Some(luid) == requested,
        report_of(requested, actual) is Mismatch <==> requested is Some && actual is Some && requested != actual,
        report_of(requested, actual) matches SelectionReport::Mismatch { requested: r, actual: a } ==> Some(r)
            == requested && Some(a) == actual,
        report_of(requested, actual) matches SelectionReport::Unverified { requested: r } ==> Some(r) == requested,
{
}

/// Everything that is due once the renderer runs is done in the first frame that it does: the
/// report, the marker for the process that waits, and the probes that are wished for, on the adapter
/// that computes.
#[verifier::rlimit(60)]
pub proof fn the_renderer_settles_what_is_due(
    checks: StartupChecks,
    requested: Option<u64>,
    actual: Option<u64>,
    marker: bool,
    wishes: ProbeWishes,
    luid: u64,
)
    requires
        requested == Some(luid) || (requested is None && actual == Some(luid)),
    ensures
        ({
            let steps = finalize_steps(checks, true, requested, actual, marker, wishes);
            &&& !checks.verified ==> steps.contains(FinalizeStep::Report(report_of(requested, actual)))
            &&& !checks.signaled && marker ==> steps.contains(FinalizeStep::SignalHandoff)
            &&& !checks.probed && wishes.production ==> steps.contains(FinalizeStep::Breadcrumb)
            &&& !checks.probed && wishes.gpu ==> steps.contains(FinalizeStep::Probe { kind: ProbeKind::Gpu, luid })
            &&& !checks.probed && wishes.glsl ==> steps.contains(FinalizeStep::Probe { kind: ProbeKind::Glsl, luid })
            &&& !checks.probed && wishes.image ==> steps.contains(FinalizeStep::Probe { kind: ProbeKind::Image, luid })
        }),
{
    let steps = finalize_steps(checks, true, requested, actual, marker, wishes);
    let target = Some(luid);
    let probing = !checks.probed;
    let s0 = Seq::<FinalizeStep>::empty() + step_if(
        !checks.verified,
        FinalizeStep::Report(report_of(requested, actual)),
    );
    let s1 = s0 + step_if(!checks.signaled && marker, FinalizeStep::SignalHandoff);
    let s2 = s1 + step_if(probing && wishes.production, FinalizeStep::Breadcrumb);
    let s3 = s2 + step_if(probing && wishes.gpu, probe_step(ProbeKind::Gpu, target));
    let s4 = s3 + step_if(probing && wishes.glsl, probe_step(ProbeKind::Glsl, target));
    let s5 = s4 + step_if(probing && wishes.image, probe_step(ProbeKind::Image, target));
    assert(steps == s5);
    if !checks.verified {
        assert(s5[0] == FinalizeStep::Report(report_of(requested, actual)));
    }
    if !checks.signaled && marker {
        assert(s5[s0.len() as int] == FinalizeStep::SignalHandoff);
    }
    if probing && wishes.production {
        assert(s5[s1.len() as int] == FinalizeStep::Breadcrumb);
    }
    if probing && wishes.gpu {
        assert(s5[s2.len() as int] == FinalizeStep::Probe { kind: ProbeKind::Gpu, luid });
    }
    if probing && wishes.glsl {
        assert(s5[s3.len() as int] == FinalizeStep::Probe { kind: ProbeKind::Glsl, luid });
    }
    if probing && wishes.image {
        assert(s5[s4.len() as int] == FinalizeStep::Probe { kind: ProbeKind::Image, luid });
    }
}

/// Nothing is settled before the renderer runs, and what was settled is not settled again: there are
/// as many steps as things are due.
pub proof fn only_what_is_due_is_settled(
    checks: StartupChecks,
    ready: bool,
    requested: Option<u64>,
    actual: Option<u64>,
    marker: bool,
    wishes: ProbeWishes,
)
    ensures
        ({
            let steps = finalize_steps(checks, ready, requested, actual, marker, wishes);
            &&& !ready ==> steps.len() == 0
            &&& ready ==> steps.len() == (if checks.verified { 0int } else { 1 }) + (if !checks.signaled && marker {
                1int
            } else {
                0
            }) + (if checks.probed {
                0int
            } else {
                (if wishes.production { 1int } else { 0 }) + (if wishes.gpu { 1int } else { 0 }) + (
                if wishes.glsl { 1int } else { 0 }) + (if wishes.image { 1int } else { 0 })
            })
        }),
{
}

/// The engine is told the choice itself, the adapter that it leads to and a backend that the adapter
/// has: the one in use where that is one, and the one that always runs otherwise.
pub proof fn a_choice_is_told_to_the_engine(
    state: BackendState,
    choice: GpuChoice,
    change: SelectionChange,
    tensorrt: TensorRtAvailability,
)
    ensures
        ({
            let told = selection_command(state, choice, change, tensorrt);
            &&& told.explicit_gpu_luid == choice.luid
            &&& told.force_vulkan_glsl == choice.force_vulkan
            &&& told.gpu_adapter == change.gpu_adapter
            &&& told.trt_device_id == tensorrt.device_id
            &&& told.backend == OnnxBackendPreference::TensorRT <==> state.selected == OnnxBackendPreference::TensorRT
                && tensorrt.available
        }),
{
}

/// Choosing what is chosen changes nothing. Another choice takes effect: on the adapter that was
/// chosen, or the renderer's without one.
pub proof fn a_new_choice_takes_effect(
    adapters: Seq<GpuAdapter>,
    current: GpuChoice,
    choice: GpuChoice,
    render: Option<u64>,
    tensorrt: TensorRtAvailability,
)
    ensures
        change_of(adapters, choice, choice, render, tensorrt) is None,
        choice.luid != current.luid || choice.force_vulkan != current.force_vulkan ==> change_of(
            adapters,
            current,
            choice,
            render,
            tensorrt,
        ) is Some,
        change_of(adapters, current, choice, render, tensorrt) matches Some(change) ==> {
            &&& choice.luid is Some ==> change.effective == choice.luid
            &&& choice.luid is None ==> change.effective == render
            &&& change.gpu_adapter == device_of(adapters, change.effective)
            &&& change.reuse_tensorrt ==> tensorrt.available && tensorrt.gpu_luid == change.effective
            &&& choice.luid is Some && tensorrt.available && tensorrt.gpu_luid == choice.luid ==> change.reuse_tensorrt
        },
{
}

} // verus!
