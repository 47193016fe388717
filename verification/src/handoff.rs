//! Restarting on another adapter: a temporary per-application preference is written, the
//! program is started again, and the preference that was there before is put back as soon
//! as the new process has its devices.
use vstd::prelude::*;
use crate::gpu::{adapter_for_luid, specific_gpu_preference, GpuAdapter};
use crate::gpu::{has_luid, is_first_with_luid, preference_value};
use crate::text::{push_decimal, push_hex};
use crate::text::{decimal, hexadecimal};

verus! {

/// How long the new process may take to report its devices, in milliseconds.
pub const GPU_HANDOFF_TIMEOUT_MS: u64 = 10_000;

/// The pause between two looks at the ready marker, in milliseconds.
pub const GPU_HANDOFF_POLL_MS: u64 = 20;

/// How a relaunch ended.
#[derive(Clone, Copy, Debug, PartialEq, Eq, Structural)]
pub enum HandoffOutcome {
    /// The new process runs on the automatic choice.
    StartedPlain,
    /// The new process runs and knows of the relaunch, but the preference could not be
    /// overridden.
    StartedMarked,
    /// The new process runs, the previous preference is back; `ready` tells whether the
    /// process reported its devices in time.
    Restored { ready: bool },
    /// The selected adapter is gone.
    AdapterMissing,
    /// The new process could not be started.
    SpawnFailed,
    /// The new process runs, but the previous preference could not be put back.
    RestoreFailed,
}

/// Where a relaunch stands.
#[derive(Debug)]
pub enum HandoffState {
    SpawningPlain,
    /// The preference cannot be used: the new process gets the ready marker all the same, so
    /// that it does not relaunch again, and nothing is waited for or put back.
    SpawningMarkedOnly,
    Reading { temporary: String },
    Overwriting { temporary: String, previous: Option<String> },
    SpawningMarked { previous: Option<String> },
    Waiting { previous: Option<String>, deadline: u64 },
    RestoringAfterFailure { previous: Option<String> },
    Restoring { previous: Option<String>, ready: bool },
    Done { outcome: HandoffOutcome },
}

/// What the caller reports back after it has done what the state asks for.
#[derive(Debug)]
pub enum HandoffEvent {
    /// The start of the new process succeeded at time `now`, or failed.
    Spawned { ok: bool, now: u64 },
    /// The current preference, or a failure to read it.
    PreferenceRead { value: Result<Option<String>, u32> },
    /// A write of the preference succeeded or failed.
    PreferenceWritten { ok: bool },
    /// The time, and whether the ready marker exists.
    Polled { now: u64, ready: bool },
}

/// The state after an event. An event that the state does not wait for changes nothing.
pub open spec fn next_state(state: HandoffState, event: HandoffEvent) -> HandoffState {
    match (state, event) {
        (HandoffState::SpawningPlain, HandoffEvent::Spawned { ok, .. }) => HandoffState::Done {
            outcome: if ok {
                HandoffOutcome::StartedPlain
            } else {
                HandoffOutcome::SpawnFailed
            },
        },
        (HandoffState::SpawningMarkedOnly, HandoffEvent::Spawned { ok, .. }) => HandoffState::Done {
            outcome: if ok {
                HandoffOutcome::StartedMarked
            } else {
                HandoffOutcome::SpawnFailed
            },
        },
        (HandoffState::Reading { temporary }, HandoffEvent::PreferenceRead { value }) => match value {
            Ok(previous) => HandoffState::Overwriting { temporary, previous },
            Err(_) => HandoffState::SpawningMarkedOnly,
        },
        (
            HandoffState::Overwriting { previous, .. },
            HandoffEvent::PreferenceWritten { ok },
        ) => if ok {
            HandoffState::SpawningMarked { previous }
        } else {
            HandoffState::SpawningMarkedOnly
        },
        (HandoffState::SpawningMarked { previous }, HandoffEvent::Spawned { ok, now }) => if ok {
            HandoffState::Waiting { previous, deadline: (now + GPU_HANDOFF_TIMEOUT_MS) as u64 }
        } else {
            HandoffState::RestoringAfterFailure { previous }
        },
        (HandoffState::Waiting { previous, deadline }, HandoffEvent::Polled { now, ready }) => if now
            >= deadline {
            HandoffState::Restoring { previous, ready: false }
        } else if ready {
            HandoffState::Restoring { previous, ready: true }
        } else {
            HandoffState::Waiting { previous, deadline }
        },
        (HandoffState::RestoringAfterFailure { .. }, HandoffEvent::PreferenceWritten { .. }) =>
            HandoffState::Done { outcome: HandoffOutcome::SpawnFailed },
        (HandoffState::Restoring { ready, .. }, HandoffEvent::PreferenceWritten { ok }) =>
            HandoffState::Done {
            outcome: if ok {
                HandoffOutcome::Restored { ready }
            } else {
                HandoffOutcome::RestoreFailed
            },
        },
        (state, _) => state,
    }
}

/// The first state of a relaunch for the selected adapter. `None` is the automatic choice.
pub open spec fn starts_as(selected: Option<u64>, adapters: Seq<GpuAdapter>, state: HandoffState) -> bool {
    match selected {
        None => state == HandoffState::SpawningPlain,
        Some(luid) => if has_luid(adapters, luid) {
            exists|i: int|
                #[trigger] is_first_with_luid(adapters, luid, i) && state is Reading
                    && state->Reading_temporary@ == preference_value(adapters[i])
        } else {
            state == (HandoffState::Done { outcome: HandoffOutcome::AdapterMissing })
        },
    }
}

/// Begins a relaunch for the selected adapter.
pub fn relaunch_for_selection(selected_luid: Option<u64>, adapters: &[GpuAdapter]) -> (state: HandoffState)
    ensures
        starts_as(selected_luid, adapters@, state),
{
    if selected_luid.is_none() {
        return HandoffState::SpawningPlain;
    }
    match adapter_for_luid(adapters, selected_luid) {
        Some(adapter) => {
            let temporary = specific_gpu_preference(adapter);
            proof {
                let i = choose|i: int|
                    #[trigger] is_first_with_luid(adapters@, selected_luid->0, i) && *adapter == adapters@[i];
                assert(is_first_with_luid(adapters@, selected_luid->0, i));
                assert(adapters@[i].luid == selected_luid->0);
                assert(has_luid(adapters@, selected_luid->0));
            }
            HandoffState::Reading { temporary }
        },
        None => HandoffState::Done { outcome: HandoffOutcome::AdapterMissing },
    }
}

/// The state asks for a new process.
pub open spec fn spawns(state: HandoffState) -> bool {
    state is SpawningPlain || state is SpawningMarkedOnly || state is SpawningMarked
}

/// The process that the state asks for gets the ready marker, which tells it that it was
/// relaunched for a selection.
pub open spec fn marks_child(state: HandoffState) -> bool {
    state is SpawningMarkedOnly || state is SpawningMarked
}

impl HandoffState {
    /// Whether the process that this state asks for gets the ready marker.
    pub fn with_marker(&self) -> (r: bool)
        ensures
            r == marks_child(*self),
    {
        match self {
            HandoffState::SpawningMarkedOnly => true,
            HandoffState::SpawningMarked { .. } => true,
            _ => false,
        }
    }

    /// Takes the relaunch one step further.
    pub fn on_event(self, event: HandoffEvent) -> (next: HandoffState)
        requires
            event matches HandoffEvent::Spawned { now, .. } ==> now + GPU_HANDOFF_TIMEOUT_MS <= u64::MAX,
        ensures
            next == next_state(self, event),
    {
        match (self, event) {
            (HandoffState::SpawningPlain, HandoffEvent::Spawned { ok, .. }) => {
                if ok {
                    HandoffState::Done { outcome: HandoffOutcome::StartedPlain }
                } else {
                    HandoffState::Done { outcome: HandoffOutcome::SpawnFailed }
                }
            },
            (HandoffState::SpawningMarkedOnly, HandoffEvent::Spawned { ok, .. }) => {
                if ok {
                    HandoffState::Done { outcome: HandoffOutcome::StartedMarked }
                } else {
                    HandoffState::Done { outcome: HandoffOutcome::SpawnFailed }
                }
            },
            (HandoffState::Reading { temporary }, HandoffEvent::PreferenceRead { value }) => match value {
                Ok(previous) => HandoffState::Overwriting { temporary, previous },
                Err(_) => HandoffState::SpawningMarkedOnly,
            },
            (
                HandoffState::Overwriting { temporary: _, previous },
                HandoffEvent::PreferenceWritten { ok },
            ) => {
                if ok {
                    HandoffState::SpawningMarked { previous }
                } else {
                    HandoffState::SpawningMarkedOnly
                }
            },
            (HandoffState::SpawningMarked { previous }, HandoffEvent::Spawned { ok, now }) => {
                if ok {
                    HandoffState::Waiting { previous, deadline: now + GPU_HANDOFF_TIMEOUT_MS }
                } else {
                    HandoffState::RestoringAfterFailure { previous }
                }
            },
            (HandoffState::Waiting { previous, deadline }, HandoffEvent::Polled { now, ready }) => {
                if now >= deadline {
                    HandoffState::Restoring { previous, ready: false }
                } else if ready {
                    HandoffState::Restoring { previous, ready: true }
                } else {
                    HandoffState::Waiting { previous, deadline }
                }
            },
            (
                HandoffState::RestoringAfterFailure { previous: _ },
                HandoffEvent::PreferenceWritten { ok: _ },
            ) => HandoffState::Done { outcome: HandoffOutcome::SpawnFailed },
            (HandoffState::Restoring { previous: _, ready }, HandoffEvent::PreferenceWritten { ok }) => {
                if ok {
                    HandoffState::Done { outcome: HandoffOutcome::Restored { ready } }
                } else {
                    HandoffState::Done { outcome: HandoffOutcome::RestoreFailed }
                }
            },
            (state, _) => state,
        }
    }
}

pub open spec fn text_of(value: Option<String>) -> Option<Seq<char>> {
    match value {
        Some(s) => Some(s@),
        None => None,
    }
}

/// The preference after the caller has done what `state` asks for and reported `event`.
pub open spec fn preference_after(
    state: HandoffState,
    event: HandoffEvent,
    preference: Option<Seq<char>>,
) -> Option<Seq<char>> {
    match (state, event) {
        (HandoffState::Overwriting { temporary, .. }, HandoffEvent::PreferenceWritten { ok: true }) => Some(
            temporary@,
        ),
        (HandoffState::Restoring { previous, .. }, HandoffEvent::PreferenceWritten { ok: true }) => text_of(
            previous,
        ),
        (
            HandoffState::RestoringAfterFailure { previous },
            HandoffEvent::PreferenceWritten { ok: true },
        ) => text_of(previous),
        _ => preference,
    }
}

/// Whether reading the preference, if that is what `event` reports, told the truth.
pub open spec fn reads_truly(state: HandoffState, event: HandoffEvent, preference: Option<Seq<char>>) -> bool {
    match (state, event) {
        (HandoffState::Reading { .. }, HandoffEvent::PreferenceRead { value: Ok(v) }) => text_of(v)
            == preference,
        _ => true,
    }
}

/// While the user's value is overwritten the state holds it; at every other time, and after
/// a relaunch that ended well, the preference is the user's value.
pub open spec fn keeps_users_value(
    state: HandoffState,
    preference: Option<Seq<char>>,
    users: Option<Seq<char>>,
) -> bool {
    match state {
        HandoffState::SpawningPlain => preference == users,
        HandoffState::SpawningMarkedOnly => preference == users,
        HandoffState::Reading { .. } => preference == users,
        HandoffState::Overwriting { previous, .. } => preference == users && text_of(previous) == users,
        HandoffState::SpawningMarked { previous } => text_of(previous) == users,
        HandoffState::Waiting { previous, .. } => text_of(previous) == users,
        HandoffState::RestoringAfterFailure { previous } => text_of(previous) == users,
        HandoffState::Restoring { previous, .. } => text_of(previous) == users,
        HandoffState::Done { outcome } => match outcome {
            HandoffOutcome::StartedPlain => preference == users,
            HandoffOutcome::StartedMarked => preference == users,
            HandoffOutcome::Restored { .. } => preference == users,
            HandoffOutcome::AdapterMissing => preference == users,
            HandoffOutcome::SpawnFailed => true,
            HandoffOutcome::RestoreFailed => true,
        },
    }
}

/// Every step keeps the user's preference safe: a relaunch that ended with the new process
/// running, or without an adapter, leaves exactly the value that was there before.
pub proof fn handoff_keeps_the_users_preference(
    state: HandoffState,
    event: HandoffEvent,
    preference: Option<Seq<char>>,
    users: Option<Seq<char>>,
)
    requires
        keeps_users_value(state, preference, users),
        reads_truly(state, event, preference),
    ensures
        keeps_users_value(next_state(state, event), preference_after(state, event, preference), users),
{
}

/// A start that failed with the override in place leaves the user's value too, as long as
/// the write that puts it back succeeds.
pub proof fn a_failed_start_puts_the_preference_back(
    previous: Option<String>,
    now: u64,
    preference: Option<Seq<char>>,
    users: Option<Seq<char>>,
)
    requires
        keeps_users_value(HandoffState::SpawningMarked { previous }, preference, users),
    ensures
        ({
            let failed = next_state(
                HandoffState::SpawningMarked { previous },
                HandoffEvent::Spawned { ok: false, now },
            );
            let written = HandoffEvent::PreferenceWritten { ok: true };
            &&& next_state(failed, written) == (HandoffState::Done { outcome: HandoffOutcome::SpawnFailed })
            &&& preference_after(failed, written, preference) == users
        }),
{
}

/// The first state of a relaunch keeps the user's preference.
pub proof fn handoff_begins_with_the_users_preference(
    selected: Option<u64>,
    adapters: Seq<GpuAdapter>,
    state: HandoffState,
    preference: Option<Seq<char>>,
)
    requires
        starts_as(selected, adapters, state),
    ensures
        keeps_users_value(state, preference, preference),
{
}

/// The automatic choice never touches the preference.
pub proof fn automatic_choice_writes_nothing(
    adapters: Seq<GpuAdapter>,
    state: HandoffState,
    event: HandoffEvent,
    preference: Option<Seq<char>>,
)
    requires
        starts_as(None, adapters, state),
    ensures
        preference_after(state, event, preference) == preference,
        next_state(state, event) is SpawningPlain || next_state(state, event) is Done,
{
}

/// A preference that cannot be read or overridden does not stop a relaunch: the new process is
/// asked for, with the ready marker, and whether it starts or not, that ends the relaunch; the
/// preference is never written.
pub proof fn an_unusable_preference_still_marks_the_child(
    state: HandoffState,
    failure: HandoffEvent,
    ok: bool,
    now: u64,
    preference: Option<Seq<char>>,
)
    requires
        (state is Reading && failure matches HandoffEvent::PreferenceRead { value: Err(_) }) || (state is Overwriting
            && failure == (HandoffEvent::PreferenceWritten { ok: false })),
    ensures
        ({
            let spawning = next_state(state, failure);
            let spawned = HandoffEvent::Spawned { ok, now };
            &&& spawns(spawning)
            &&& marks_child(spawning)
            &&& preference_after(state, failure, preference) == preference
            &&& preference_after(spawning, spawned, preference) == preference
            &&& next_state(spawning, spawned) == (HandoffState::Done {
                outcome: if ok {
                    HandoffOutcome::StartedMarked
                } else {
                    HandoffOutcome::SpawnFailed
                },
            })
        }),
{
}

/// The state comes after the new process was asked for.
pub open spec fn after_spawning(state: HandoffState) -> bool {
    state is Waiting || state is RestoringAfterFailure || state is Restoring || state is Done
}

/// A relaunch asks for one process at most: once its start is reported no later state asks for
/// another.
pub proof fn a_relaunch_spawns_at_most_once(state: HandoffState, event: HandoffEvent)
    ensures
        spawns(state) && event is Spawned ==> after_spawning(next_state(state, event)),
        after_spawning(state) ==> after_spawning(next_state(state, event)),
        after_spawning(state) ==> !spawns(state),
{
}

/// A selected adapter always marks the process: only the automatic choice starts one without
/// the ready marker.
pub proof fn only_the_automatic_choice_is_unmarked(
    selected: Option<u64>,
    adapters: Seq<GpuAdapter>,
    first: HandoffState,
    state: HandoffState,
    event: HandoffEvent,
)
    requires
        starts_as(selected, adapters, first),
    ensures
        first is SpawningPlain <==> selected is None,
        next_state(state, event) is SpawningPlain ==> state is SpawningPlain,
{
}

/// Waiting ends at the deadline at the latest.
pub proof fn waiting_ends_at_the_deadline(previous: Option<String>, deadline: u64, now: u64, ready: bool)
    requires
        now >= deadline,
    ensures
        next_state(
            HandoffState::Waiting { previous, deadline },
            HandoffEvent::Polled { now, ready },
        ) == (HandoffState::Restoring { previous, ready: false }),
{
}

// ---------------------------------------------------------------------------------------
// The ready marker

/// A text with carriage returns and line feeds replaced by spaces.
pub open spec fn one_line(s: Seq<char>) -> Seq<char> {
    s.map_values(
        |c: char|
            if c == '\r' || c == '\n' {
                ' '
            } else {
                c
            },
    )
}

/// Appends a text with its line breaks turned into spaces.
pub fn push_one_line(out: &mut String, text: &str)
    ensures
        final(out)@ == old(out)@ + one_line(text@),
{
    let ghost head = out@;
    assert(one_line(text@.take(0)) =~= Seq::empty());
    assert(head + Seq::<char>::empty() =~= head);
    for c in it: text.chars()
        invariant
            it.seq() == text@,
            out@ == head + one_line(text@.take(it.index() as int)),
    {
        let ghost done = one_line(text@.take(it.index() as int));
        if c == '\r' || c == '\n' {
            out.push(' ');
        } else {
            out.push(c);
        }
        assert(one_line(text@.take(it.index() + 1)) =~= done.push(out@.last()));
        assert(out@ =~= head + one_line(text@.take(it.index() + 1)));
    }
    assert(text@.take(text@.len() as int) =~= text@);
}

/// What the new process writes into the marker.
pub open spec fn ready_text(actual_luid: Option<u64>, renderer: Seq<char>) -> Seq<char> {
    "render_ready=1\nactual_luid="@ + (match actual_luid {
        Some(luid) => hexadecimal(luid as nat, 16, false),
        None => "unknown"@,
    }) + "\nrenderer="@ + one_line(renderer) + "\n"@
}

/// The contents of the ready marker, which the new process writes once it has its devices.
pub fn signal_relaunch_render_ready(actual_luid: Option<u64>, renderer: &str) -> (body: String)
    ensures
        body@ == ready_text(actual_luid, renderer@),
{
    let mut body = String::from_str("render_ready=1\nactual_luid=");
    match actual_luid {
        Some(luid) => push_hex(&mut body, luid, 16, false),
        None => body.append("unknown"),
    }
    body.append("\nrenderer=");
    push_one_line(&mut body, renderer);
    body.append("\n");
    body
}

/// The name of the marker file that a process with this id creates at this time.
pub fn ready_file_name(process_id: u32, unix_millis: u64) -> (name: String)
    ensures
        name@ == "cHiDeScaler-Neo-gpu-handoff-"@ + decimal(process_id as nat) + "-"@ + decimal(
            unix_millis as nat,
        ) + ".ready"@,
{
    let mut name = String::from_str("cHiDeScaler-Neo-gpu-handoff-");
    push_decimal(&mut name, process_id as u64);
    name.append("-");
    push_decimal(&mut name, unix_millis);
    name.append(".ready");
    name
}

/// A relaunch for an adapter overrides the preference with that of the adapter, starts one marked
/// process, waits for it at most ten seconds, and puts back what was there: step by step, with what
/// was read carried along unchanged.
pub proof fn a_relaunch_goes_its_way(temporary: String, previous: Option<String>, now: u64, ready: bool)
    requires
        now + 10_000 <= u64::MAX,
    ensures
        next_state(
            HandoffState::Reading { temporary },
            HandoffEvent::PreferenceRead { value: Ok(previous) },
        ) == (HandoffState::Overwriting { temporary, previous }),
        next_state(
            HandoffState::Overwriting { temporary, previous },
            HandoffEvent::PreferenceWritten { ok: true },
        ) == (HandoffState::SpawningMarked { previous }),
        next_state(
            HandoffState::SpawningMarked { previous },
            HandoffEvent::Spawned { ok: true, now },
        ) == (HandoffState::Waiting { previous, deadline: (now + 10_000) as u64 }),
        next_state(
            HandoffState::Waiting { previous, deadline: (now + 10_000) as u64 },
            HandoffEvent::Polled { now, ready: true },
        ) == (HandoffState::Restoring { previous, ready: true }),
        next_state(
            HandoffState::Waiting { previous, deadline: (now + 10_000) as u64 },
            HandoffEvent::Polled { now, ready: false },
        ) == (HandoffState::Waiting { previous, deadline: (now + 10_000) as u64 }),
        next_state(
            HandoffState::Restoring { previous, ready },
            HandoffEvent::PreferenceWritten { ok: true },
        ) == (HandoffState::Done { outcome: HandoffOutcome::Restored { ready } }),
        next_state(
            HandoffState::Restoring { previous, ready },
            HandoffEvent::PreferenceWritten { ok: false },
        ) == (HandoffState::Done { outcome: HandoffOutcome::RestoreFailed }),
        next_state(
            HandoffState::SpawningPlain,
            HandoffEvent::Spawned { ok: true, now },
        ) == (HandoffState::Done { outcome: HandoffOutcome::StartedPlain }),
        next_state(
            HandoffState::SpawningPlain,
            HandoffEvent::Spawned { ok: false, now },
        ) == (HandoffState::Done { outcome: HandoffOutcome::SpawnFailed }),
{
}

/// An end is an end: no event leads on from there.
pub proof fn a_relaunch_that_is_over_stays_so(outcome: HandoffOutcome, event: HandoffEvent)
    ensures
        next_state(HandoffState::Done { outcome }, event) == (HandoffState::Done { outcome }),
{
}

/// The preference changes by a write that succeeded and by nothing else: to the temporary one
/// while overriding, and back to what was read.
pub proof fn only_writes_change_the_preference(
    state: HandoffState,
    event: HandoffEvent,
    preference: Option<Seq<char>>,
)
    ensures
        event != (HandoffEvent::PreferenceWritten { ok: true }) ==> preference_after(state, event, preference)
            == preference,
        event == (HandoffEvent::PreferenceWritten { ok: true }) ==> {
            let after = preference_after(state, event, preference);
            &&& state matches HandoffState::Overwriting { temporary, .. } ==> after == Some(temporary@)
            &&& state matches HandoffState::Restoring { previous, .. } ==> (previous is None ==> after is None) && (
            previous matches Some(text) ==> after == Some(text@))
            &&& state matches HandoffState::RestoringAfterFailure { previous } ==> (previous is None ==> after is None)
                && (previous matches Some(text) ==> after == Some(text@))
        },
{
}

/// A selected adapter that is there is relaunched for with its own preference; one that is gone is
/// refused; and without a selection the process is only started again.
pub proof fn a_relaunch_is_for_the_selected_adapter(
    adapters: Seq<GpuAdapter>,
    i: int,
    selected: Option<u64>,
    state: HandoffState,
)
    requires
        starts_as(selected, adapters, state),
    ensures
        selected is None ==> state is SpawningPlain,
        selected matches Some(luid) ==> (forall|j: int| 0 <= j < adapters.len() ==> (#[trigger] adapters[j]).luid
            != luid) ==> state == (HandoffState::Done { outcome: HandoffOutcome::AdapterMissing }),
        0 <= i < adapters.len() && selected == Some(adapters[i].luid) && (forall|j: int|
            0 <= j < i ==> (#[trigger] adapters[j]).luid != adapters[i].luid) ==> (state matches HandoffState::Reading {
            temporary,
        } && temporary@ == preference_value(adapters[i])),
{
    if 0 <= i < adapters.len() && selected == Some(adapters[i].luid) && (forall|j: int|
        0 <= j < i ==> (#[trigger] adapters[j]).luid != adapters[i].luid) {
        let luid = adapters[i].luid;
        assert(has_luid(adapters, luid));
        let k = choose|k: int|
            #[trigger] is_first_with_luid(adapters, luid, k) && state is Reading && state->Reading_temporary@
                == preference_value(adapters[k]);
        assert(k == i) by {
            if k < i {
                assert(adapters[k].luid != luid);
            }
            if i < k {
                assert(adapters[i].luid != luid);
            }
        }
    }
}

/// The marker's text is one line for each of its three values, whatever the name of the renderer
/// holds.
pub proof fn a_name_stays_on_its_line(s: Seq<char>, i: int)
    requires
        0 <= i < s.len(),
    ensures
        one_line(s).len() == s.len(),
        s[i] == '\r' || s[i] == '\n' ==> one_line(s)[i] == ' ',
        s[i] != '\r' && s[i] != '\n' ==> one_line(s)[i] == s[i],
{
}

/// The marker says that the process can draw, on which adapter, and with what: the id in sixteen
/// hexadecimal digits, or that it is not known.
pub proof fn the_marker_says_what_draws(luid: u64, renderer: Seq<char>)
    ensures
        ready_text(Some(luid), renderer) == "render_ready=1\nactual_luid="@ + hexadecimal(luid as nat, 16, false)
            + "\nrenderer="@ + one_line(renderer) + "\n"@,
        ready_text(None, renderer) == "render_ready=1\nactual_luid="@ + "unknown"@ + "\nrenderer="@ + one_line(renderer)
            + "\n"@,
{
}

} // verus!
