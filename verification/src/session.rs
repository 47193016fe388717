//! Starting and stopping: which requests are carried out, which are ignored, and what a start
//! hands to the engine.
use vstd::prelude::*;
use crate::actions::Rect;
use crate::backend::{CaptureCrop, HDR_CAPTURE_OPTION_ENABLED, hdr_capture_requested};
use crate::chain::{StageSpec, clone_chain, stages};
use crate::display::ScaleMode;
use crate::gpu::{GpuAdapter, device_id_for_luid};
use crate::hotkey_dispatch::HotkeyEvent;
use crate::hotkeys::{HK_GUI_TOPMOST, HK_PANEL, HK_QUIT, HK_TOGGLE};
use crate::language::Phrase;
use crate::presets::AspectCorrection;
use crate::resolution::{CaptureResolution, ResolutionPlan};
use crate::selection::{GpuChoice, compute_luid, device_of, resolve_compute_gpu_luid};
use crate::text::{chars_of, is_white_space, string_of, white_space};

verus! {

/// What the engine is doing.
#[derive(Clone, Copy, Debug, PartialEq, Eq, Structural)]
pub struct Busy {
    pub starting: bool,
    pub running: bool,
    pub stopping: bool,
    /// An inference engine is being built.
    pub preparing: bool,
}

pub open spec fn is_busy(busy: Busy) -> bool {
    busy.starting || busy.running || busy.stopping || busy.preparing
}

/// Whether anything is under way.
pub fn capture_busy(busy: Busy) -> (r: bool)
    ensures
        r == is_busy(busy),
{
    busy.starting || busy.running || busy.stopping || busy.preparing
}

/// Something runs that can still be stopped.
pub open spec fn may_stop(busy: Busy) -> bool {
    !busy.stopping && (busy.starting || busy.running || busy.preparing)
}

/// Whether a stop request is carried out. It is not when nothing runs, nor twice.
pub fn should_dispatch_panel_stop(starting: bool, running: bool, stopping: bool, preparing: bool) -> (r: bool)
    ensures
        r == may_stop((Busy { starting, running, stopping, preparing })),
{
    !stopping && (starting || running || preparing)
}

/// How a stop request ends.
#[derive(Clone, Copy, Debug, PartialEq, Eq, Structural)]
pub enum StopOutcome {
    Dispatched,
    AlreadyStopping,
    Idle,
}

pub open spec fn stop_outcome(busy: Busy) -> StopOutcome {
    if busy.stopping {
        StopOutcome::AlreadyStopping
    } else if may_stop(busy) {
        StopOutcome::Dispatched
    } else {
        StopOutcome::Idle
    }
}

pub fn dispatch_capture_stop_known(busy: Busy) -> (r: StopOutcome)
    ensures
        r == stop_outcome(busy),
        (r == StopOutcome::Dispatched) == may_stop(busy),
{
    if busy.stopping {
        StopOutcome::AlreadyStopping
    } else if busy.starting || busy.running || busy.preparing {
        StopOutcome::Dispatched
    } else {
        StopOutcome::Idle
    }
}

/// Whether a start request is carried out: only when nothing is under way.
pub fn request_capture_start(busy: Busy) -> (r: bool)
    ensures
        r == !is_busy(busy),
{
    !capture_busy(busy)
}

/// What the toggle key does.
#[derive(Clone, Copy, Debug, PartialEq, Eq, Structural)]
pub enum ToggleOutcome {
    Stop,
    /// A stop is under way already.
    AlreadyStopping,
    /// The key was pressed before the last capture ended, and was meant for it.
    Stale,
    Start,
}

pub open spec fn toggle_outcome(busy: Busy, received_at: u64, idle_since: u64) -> ToggleOutcome {
    if is_busy(busy) {
        if may_stop(busy) {
            ToggleOutcome::Stop
        } else {
            ToggleOutcome::AlreadyStopping
        }
    } else if received_at <= idle_since {
        ToggleOutcome::Stale
    } else {
        ToggleOutcome::Start
    }
}

pub fn dispatch_toggle_hotkey(busy: Busy, received_at: u64, idle_since: u64) -> (r: ToggleOutcome)
    ensures
        r == toggle_outcome(busy, received_at, idle_since),
{
    if capture_busy(busy) {
        match dispatch_capture_stop_known(busy) {
            StopOutcome::Dispatched => ToggleOutcome::Stop,
            _ => ToggleOutcome::AlreadyStopping,
        }
    } else if received_at <= idle_since {
        ToggleOutcome::Stale
    } else {
        ToggleOutcome::Start
    }
}

/// No request starts a second capture, and a stop request starts none.
pub proof fn requests_are_idempotent(busy: Busy, received_at: u64, idle_since: u64)
    ensures
        is_busy(busy) ==> toggle_outcome(busy, received_at, idle_since) != ToggleOutcome::Start,
        busy.stopping ==> stop_outcome(busy) == StopOutcome::AlreadyStopping,
        !is_busy(busy) ==> stop_outcome(busy) == StopOutcome::Idle,
        may_stop(busy) ==> !may_stop((Busy { stopping: true, ..busy })),
{
}

/// A key that was pressed while a capture ran never starts one after it ended.
pub proof fn keys_pressed_during_a_capture_never_start_one(
    busy: Busy,
    received_at: u64,
    clock: SessionClock,
    now: u64,
)
    requires
        clock.was_busy,
        received_at <= now,
    ensures
        toggle_outcome(busy, received_at, after_tick(clock, false, now).idle_since) != ToggleOutcome::Start,
{
}

// ---------------------------------------------------------------------------------------
// Time

/// How long the main button stays pressed down, in nanoseconds.
pub const PRESS_FEEDBACK_NS: u64 = 115_000_000;

/// When things happened.
#[derive(Clone, Copy, Debug, PartialEq, Eq, Structural)]
pub struct SessionClock {
    pub was_busy: bool,
    /// Since when nothing has been under way.
    pub idle_since: u64,
    /// Until when the main button is drawn pressed.
    pub press_until: Option<u64>,
}

pub open spec fn after_tick(clock: SessionClock, busy: bool, now: u64) -> SessionClock {
    SessionClock {
        was_busy: busy,
        idle_since: if clock.was_busy && !busy {
            now
        } else {
            clock.idle_since
        },
        ..clock
    }
}

pub open spec fn after_press(clock: SessionClock, now: u64) -> SessionClock {
    SessionClock { press_until: Some((now + PRESS_FEEDBACK_NS) as u64), ..clock }
}

/// A press is still shown.
pub open spec fn shows_press(clock: SessionClock, now: u64) -> bool {
    clock.press_until matches Some(until) && now < until
}

impl SessionClock {
    /// Looks at the engine once per frame; `true` means that a capture has just ended.
    pub fn tick(&mut self, busy: bool, now: u64) -> (ended: bool)
        ensures
            *final(self) == after_tick(*old(self), busy, now),
            ended == (old(self).was_busy && !busy),
    {
        let ended = self.was_busy && !busy;
        if ended {
            self.idle_since = now;
        }
        self.was_busy = busy;
        ended
    }

    /// The main button was pressed.
    pub fn press(&mut self, now: u64)
        requires
            now + PRESS_FEEDBACK_NS <= u64::MAX,
        ensures
            *final(self) == after_press(*old(self), now),
    {
        self.press_until = Some(now + PRESS_FEEDBACK_NS);
    }

    /// Whether the main button is drawn pressed: the pointer is down on it, or it was pressed
    /// a moment ago.
    pub fn pressed(&mut self, pointer_down_on: bool, direct_pressed: bool, now: u64) -> (r: bool)
        ensures
            r == (pointer_down_on || direct_pressed || shows_press(*old(self), now)),
            *final(self) == (SessionClock {
                press_until: match old(self).press_until {
                    Some(until) if now < until => Some(until),
                    _ => None,
                },
                ..*old(self)
            }),
    {
        let recent = match self.press_until {
            Some(until) => now < until,
            None => false,
        };
        if !recent {
            self.press_until = None;
        }
        pointer_down_on || direct_pressed || recent
    }
}

// ---------------------------------------------------------------------------------------
// The main button

/// What a press on the main button does.
#[derive(Clone, Copy, Debug, PartialEq, Eq, Structural)]
pub enum MainControl {
    Disabled,
    Stop,
    Start,
}

pub open spec fn offered(picker_open: bool, busy: Busy) -> MainControl {
    if picker_open || busy.stopping {
        MainControl::Disabled
    } else if busy.starting || busy.preparing || busy.running {
        MainControl::Stop
    } else {
        MainControl::Start
    }
}

/// What the button offers: nothing under an open picker or while stopping.
pub fn main_control_mode(picker_open: bool, busy: Busy) -> (r: MainControl)
    ensures
        r == offered(picker_open, busy),
        r == MainControl::Stop ==> may_stop(busy),
        r == MainControl::Start ==> !is_busy(busy),
{
    if picker_open || busy.stopping {
        MainControl::Disabled
    } else if busy.starting || busy.preparing || busy.running {
        MainControl::Stop
    } else {
        MainControl::Start
    }
}

/// Whether the button's two direct presses are carried out: a stop while something runs, a
/// start while nothing is under way.
pub fn main_actions(stop_pressed: bool, start_pressed: bool, busy_at_stop: Busy, busy_at_start: Busy) -> (r: (bool, bool))
    ensures
        r.0 == (stop_pressed && may_stop(busy_at_stop)),
        r.1 == (start_pressed && !is_busy(busy_at_start)),
{
    let stop = stop_pressed && (busy_at_stop.starting || busy_at_stop.running || busy_at_stop.preparing);
    let stops = match dispatch_capture_stop_known(busy_at_stop) {
        StopOutcome::Dispatched => stop,
        _ => false,
    };
    (stops, start_pressed && request_capture_start(busy_at_start))
}

/// What the key on the focused button does.
pub fn keyboard_activation(busy: Busy) -> (r: MainControl)
    ensures
        r == offered(false, busy),
{
    main_control_mode(false, busy)
}

/// The button shows that a capture is active.
pub fn shows_running(running: bool, stopping: bool) -> (r: bool)
    ensures
        r == (running || stopping),
{
    running || stopping
}

pub open spec fn is_label_mark(c: char) -> bool {
    c == '\u{25b6}' || c == '\u{25a0}' || c == '\u{25cf}' || is_white_space(c)
}

/// The text without the marks and blanks in front of it.
pub open spec fn without_marks(s: Seq<char>) -> Seq<char>
    decreases s.len(),
{
    if s.len() > 0 && is_label_mark(s[0]) {
        without_marks(s.skip(1))
    } else {
        s
    }
}

pub fn control_label(label: &str) -> (text: String)
    ensures
        text@ == without_marks(label@),
{
    let chars = chars_of(label);
    let mut from: usize = 0;
    proof {
        assert(label@.skip(0) =~= label@);
    }
    while from < chars.len() && (chars[from] == '\u{25b6}' || chars[from] == '\u{25a0}' || chars[from] == '\u{25cf}'
        || white_space(chars[from]))
        invariant
            chars@ == label@,
            from <= chars@.len(),
            without_marks(label@) == without_marks(label@.skip(from as int)),
        decreases chars@.len() - from,
    {
        proof {
            assert(label@.skip(from as int).skip(1) =~= label@.skip(from + 1));
            assert(label@.skip(from as int)[0] == label@[from as int]);
        }
        from += 1;
    }
    proof {
        assert(from < chars@.len() ==> label@.skip(from as int)[0] == label@[from as int]);
        assert(label@.skip(from as int) =~= label@.subrange(from as int, label@.len() as int));
    }
    string_of(&chars, from, chars.len())
}

// ---------------------------------------------------------------------------------------
// Queued hotkeys

/// What a queued hotkey asks for.
#[derive(Clone, Copy, Debug, PartialEq, Eq, Structural)]
pub enum QueuedCommand {
    Toggle { received_at: u64 },
    Panel,
    GuiTopmost,
    Quit,
}

pub open spec fn has_toggle(commands: Seq<QueuedCommand>) -> bool {
    exists|i: int| 0 <= i < commands.len() && #[trigger] commands[i] is Toggle
}

pub open spec fn add_event(done: Seq<QueuedCommand>, event: HotkeyEvent, editor_open: bool) -> Seq<QueuedCommand> {
    if event.handled_directly || editor_open {
        done
    } else if event.id == HK_TOGGLE {
        if has_toggle(done) {
            done
        } else {
            done.push(QueuedCommand::Toggle { received_at: event.received_at })
        }
    } else if event.id == HK_PANEL {
        done.push(QueuedCommand::Panel)
    } else if event.id == HK_GUI_TOPMOST {
        done.push(QueuedCommand::GuiTopmost)
    } else if event.id == HK_QUIT {
        done.push(QueuedCommand::Quit)
    } else {
        done
    }
}

/// The commands of a batch, in order. Events that the hotkey thread served itself, events under
/// an open hotkey editor and unknown events ask for nothing, and of several toggles only the
/// first counts.
pub open spec fn drained(events: Seq<HotkeyEvent>, editor_open: bool) -> Seq<QueuedCommand>
    decreases events.len(),
{
    if events.len() == 0 {
        Seq::empty()
    } else {
        add_event(drained(events.drop_last(), editor_open), events.last(), editor_open)
    }
}

pub fn drain_hotkeys(events: &[HotkeyEvent], editor_open: bool) -> (commands: Vec<QueuedCommand>)
    ensures
        commands@ == drained(events@, editor_open),
{
    let mut commands: Vec<QueuedCommand> = Vec::new();
    let mut toggled = false;
    let mut i: usize = 0;
    while i < events.len()
        invariant
            i <= events@.len(),
            commands@ == drained(events@.take(i as int), editor_open),
            toggled == has_toggle(commands@),
        decreases events@.len() - i,
    {
        let event = &events[i];
        let ghost before = commands@;
        proof {
            assert(events@.take(i + 1).drop_last() =~= events@.take(i as int));
            assert(events@.take(i + 1).last() == events@[i as int]);
        }
        if !event.handled_directly && !editor_open {
            if event.id == HK_TOGGLE {
                if !toggled {
                    commands.push(QueuedCommand::Toggle { received_at: event.received_at });
                    toggled = true;
                    proof {
                        assert(commands@[before.len() as int] is Toggle);
                    }
                }
            } else if event.id == HK_PANEL {
                commands.push(QueuedCommand::Panel);
            } else if event.id == HK_GUI_TOPMOST {
                commands.push(QueuedCommand::GuiTopmost);
            } else if event.id == HK_QUIT {
                commands.push(QueuedCommand::Quit);
            }
        }
        proof {
            if event.id != HK_TOGGLE {
                assert forall|k: int| 0 <= k < commands@.len() && commands@[k] is Toggle implies has_toggle(before) by {
                    assert(before[k] is Toggle);
                }
                if has_toggle(before) {
                    let k = choose|k: int| 0 <= k < before.len() && #[trigger] before[k] is Toggle;
                    assert(commands@[k] is Toggle);
                }
            }
        }
        i += 1;
    }
    proof {
        assert(events@.take(events@.len() as int) =~= events@);
    }
    commands
}

/// A batch toggles at most once, and not at all under an open editor.
pub proof fn a_batch_toggles_at_most_once(events: Seq<HotkeyEvent>, editor_open: bool)
    ensures
        forall|i: int, j: int|
            0 <= i < j < drained(events, editor_open).len() ==> !(#[trigger] drained(events, editor_open)[i] is Toggle
                && #[trigger] drained(events, editor_open)[j] is Toggle),
        editor_open ==> drained(events, editor_open).len() == 0,
    decreases events.len(),
{
    if events.len() > 0 {
        a_batch_toggles_at_most_once(events.drop_last(), editor_open);
    }
}

// ---------------------------------------------------------------------------------------
// Notices with a time limit

/// What the overload guard does.
#[derive(Clone, Copy, Debug, PartialEq, Eq, Structural)]
pub enum OverloadStep {
    Nothing,
    Stop,
    /// Look again after this time, in nanoseconds.
    LookAgain { after: u64 },
}

/// How often the guard looks at least, in nanoseconds.
pub const OVERLOAD_LOOK_NS: u64 = 100_000_000;

pub open spec fn guard_step(busy: Busy, deadline: Option<u64>, now: u64) -> OverloadStep {
    match deadline {
        Some(deadline) if busy.running && !busy.stopping => if now >= deadline {
            OverloadStep::Stop
        } else {
            OverloadStep::LookAgain {
                after: if deadline - now < OVERLOAD_LOOK_NS {
                    (deadline - now) as u64
                } else {
                    OVERLOAD_LOOK_NS
                },
            }
        },
        _ => OverloadStep::Nothing,
    }
}

/// A capture whose filters overload the adapter is stopped at its deadline.
pub fn overload_step(busy: Busy, deadline: Option<u64>, now: u64) -> (step: OverloadStep)
    ensures
        step == guard_step(busy, deadline, now),
        step == OverloadStep::Stop ==> may_stop(busy),
{
    match deadline {
        Some(deadline) if busy.running && !busy.stopping => {
            if now >= deadline {
                OverloadStep::Stop
            } else {
                let left: u64 = deadline - now;
                OverloadStep::LookAgain {
                    after: if left < OVERLOAD_LOOK_NS {
                        left
                    } else {
                        OVERLOAD_LOOK_NS
                    },
                }
            }
        },
        _ => OverloadStep::Nothing,
    }
}

/// What is known of the main window when the overload notice is placed.
#[derive(Clone, Copy, Debug, PartialEq, Eq, Structural)]
pub struct NoticeFacts {
    pub gui: isize,
    pub valid: bool,
    pub visible: bool,
    pub minimized: bool,
    pub cloaked: bool,
    pub overlay: isize,
    pub above_overlay: bool,
}

pub open spec fn notice_over_picture(busy: Busy, deadline: Option<u64>, facts: NoticeFacts) -> bool {
    busy.running && !busy.stopping && deadline is Some && !(facts.gui != 0 && facts.valid && facts.visible
        && !facts.minimized && !facts.cloaked && facts.overlay != 0 && facts.above_overlay)
}

/// The notice is drawn over the picture where the main window cannot be seen above it.
pub fn overload_notice_on_overlay(busy: Busy, deadline: Option<u64>, facts: NoticeFacts) -> (r: bool)
    ensures
        r == notice_over_picture(busy, deadline, facts),
{
    let seen = facts.gui != 0 && facts.valid && facts.visible && !facts.minimized && !facts.cloaked && facts.overlay
        != 0 && facts.above_overlay;
    busy.running && !busy.stopping && deadline.is_some() && !seen
}

/// How long the notice on a covered source stays, in nanoseconds.
pub const OCCLUSION_NOTICE_NS: u64 = 3_000_000_000;

/// The notice on a covered source.
#[derive(Clone, Copy, Debug, PartialEq, Eq, Structural)]
pub struct OcclusionNotice {
    pub seen_seq: u64,
    pub until: Option<u64>,
    pub hwnd: isize,
}

pub open spec fn notice_after_event(notice: OcclusionNotice, seq: u64, now: u64) -> OcclusionNotice {
    if seq != notice.seen_seq {
        OcclusionNotice { seen_seq: seq, until: Some((now + OCCLUSION_NOTICE_NS) as u64), ..notice }
    } else {
        notice
    }
}

pub open spec fn notice_after_frame(notice: OcclusionNotice, window_valid: bool, now: u64) -> OcclusionNotice {
    match notice.until {
        None => OcclusionNotice {
            hwnd: if window_valid {
                notice.hwnd
            } else {
                0
            },
            ..notice
        },
        Some(until) => if now >= until {
            OcclusionNotice { until: None, hwnd: 0, ..notice }
        } else {
            notice
        },
    }
}

/// After how long a shown notice is looked at again.
pub open spec fn notice_look(notice: OcclusionNotice, now: u64) -> Option<u64> {
    match notice.until {
        Some(until) if now < until => Some(
            if until - now < OVERLOAD_LOOK_NS {
                (until - now) as u64
            } else {
                OVERLOAD_LOOK_NS
            },
        ),
        _ => None,
    }
}

impl OcclusionNotice {
    /// A new event of the engine shows the notice; `true` if there was one.
    pub fn observe(&mut self, seq: u64, now: u64) -> (armed: bool)
        requires
            now + OCCLUSION_NOTICE_NS <= u64::MAX,
        ensures
            armed == (seq != old(self).seen_seq),
            *final(self) == notice_after_event(*old(self), seq, now),
    {
        if seq == self.seen_seq {
            return false;
        }
        self.seen_seq = seq;
        self.until = Some(now + OCCLUSION_NOTICE_NS);
        true
    }

    /// Takes the notice's window once it was found; `true` if it was taken.
    pub fn adopt(&mut self, found: Option<isize>) -> (adopted: bool)
        ensures
            adopted == (old(self).hwnd == 0 && found is Some),
            *final(self) == (if adopted {
                OcclusionNotice { hwnd: found->0, ..*old(self) }
            } else {
                *old(self)
            }),
    {
        if self.hwnd != 0 {
            return false;
        }
        match found {
            None => false,
            Some(handle) => {
                self.hwnd = handle;
                true
            },
        }
    }

    /// Looks at the notice once per frame. While it is shown the result says after how long,
    /// in nanoseconds, to look again; when its time is over it forgets its window.
    pub fn on_frame(&mut self, window_valid: bool, now: u64) -> (look_again: Option<u64>)
        ensures
            *final(self) == notice_after_frame(*old(self), window_valid, now),
            look_again == notice_look(*old(self), now),
    {
        match self.until {
            None => {
                if self.hwnd != 0 && !window_valid {
                    self.hwnd = 0;
                }
                None
            },
            Some(until) => {
                if now >= until {
                    self.until = None;
                    self.hwnd = 0;
                    None
                } else {
                    let left: u64 = until - now;
                    Some(
                        if left < OVERLOAD_LOOK_NS {
                            left
                        } else {
                            OVERLOAD_LOOK_NS
                        },
                    )
                }
            },
        }
    }
}

// ---------------------------------------------------------------------------------------
// Start

/// What a start meets first.
#[derive(Clone, Copy, Debug, PartialEq, Eq, Structural)]
pub enum StartGate {
    /// No window is selected.
    NoTarget,
    /// The window belongs to a process with more rights than this one has.
    ElevatedTarget,
    /// The window is gone.
    TargetGone,
    Proceed,
}

pub open spec fn gate(target: isize, own_elevated: bool, target_elevated: Option<bool>, source_pid: u32) -> StartGate {
    if target == 0 {
        StartGate::NoTarget
    } else if !own_elevated && target_elevated == Some(true) {
        StartGate::ElevatedTarget
    } else if source_pid == 0 {
        StartGate::TargetGone
    } else {
        StartGate::Proceed
    }
}

pub fn start_gate(target: isize, own_elevated: bool, target_elevated: Option<bool>, source_pid: u32) -> (r: StartGate)
    ensures
        r == gate(target, own_elevated, target_elevated, source_pid),
{
    if target == 0 {
        return StartGate::NoTarget;
    }
    if !own_elevated {
        if let Some(true) = target_elevated {
            return StartGate::ElevatedTarget;
        }
    }
    if source_pid == 0 {
        StartGate::TargetGone
    } else {
        StartGate::Proceed
    }
}

/// The window that a start is about: a surface that the selected window only owns gives way to
/// its `root`. The flag says that the title is to be taken from there too.
pub fn start_target(selected: isize, root: isize) -> (r: (isize, bool))
    ensures
        r == (root, root != selected),
{
    (root, root != selected)
}

/// What a start does with the capture resolution.
#[derive(Clone, Copy, Debug, PartialEq, Eq, Structural)]
pub struct StartResolution {
    /// Tell the user that a full-screen source keeps its own size.
    pub notice: bool,
    /// Resize the source now; otherwise the engine does it, or nobody.
    pub apply_now: bool,
    /// Whether the start can go on where the source is not resized now.
    pub ready_without_applying: bool,
    pub deferred: Option<ResolutionPlan>,
    /// The size of the picture that the session works on.
    pub canvas: Option<CaptureResolution>,
}

pub open spec fn resolution_start(
    resolution: Option<CaptureResolution>,
    disabled: bool,
    plan: Option<ResolutionPlan>,
    hide_source: bool,
) -> StartResolution {
    let used = if disabled {
        None
    } else {
        plan
    };
    StartResolution {
        notice: disabled && resolution is Some,
        apply_now: !hide_source,
        ready_without_applying: resolution is None || disabled || used is Some,
        deferred: if hide_source {
            used
        } else {
            None
        },
        canvas: match used {
            Some(plan) => Some(plan.applied),
            None => None,
        },
    }
}

/// Plans the capture resolution of a start. A hidden source is resized by the engine once it
/// is out of sight; any other one before the start.
pub fn start_resolution(
    resolution: Option<CaptureResolution>,
    disabled: bool,
    plan: Option<ResolutionPlan>,
    hide_source: bool,
) -> (r: StartResolution)
    ensures
        r == resolution_start(resolution, disabled, plan, hide_source),
{
    let used = if disabled {
        None
    } else {
        plan
    };
    StartResolution {
        notice: disabled && resolution.is_some(),
        apply_now: !hide_source,
        ready_without_applying: resolution.is_none() || disabled || used.is_some(),
        deferred: if hide_source {
            used
        } else {
            None
        },
        canvas: match used {
            Some(plan) => Some(plan.applied),
            None => None,
        },
    }
}

/// Whether the start goes on; `applied` is the outcome of resizing the source.
pub fn start_is_ready(r: StartResolution, applied: bool) -> (ready: bool)
    ensures
        ready == (if r.apply_now {
            applied
        } else {
            r.ready_without_applying
        }),
{
    if r.apply_now {
        applied
    } else {
        r.ready_without_applying
    }
}

/// What follows from the capture resolution of a start.
#[derive(Clone, Copy, Debug, PartialEq, Eq, Structural)]
pub enum StartStep {
    GoOn,
    /// The source does not take the size: put it back as it was, tell the user, and start
    /// nothing.
    PutBack(SourceOrigin),
}

/// Whether the start goes on after the source was resized or left alone; a source that a start
/// gives up on is put back as it was before.
pub fn after_start_resolution(r: StartResolution, applied: bool, source: SourceOrigin) -> (step: StartStep)
    ensures
        step == (if (r.apply_now && applied) || (!r.apply_now && r.ready_without_applying) {
            StartStep::GoOn
        } else {
            StartStep::PutBack(source)
        }),
{
    if start_is_ready(r, applied) {
        StartStep::GoOn
    } else {
        StartStep::PutBack(source)
    }
}

/// Why nothing was started, as far as the user is told in the window.
#[derive(Clone, Copy, Debug, PartialEq, Eq, Structural)]
pub enum StartError {
    TargetGone,
    ResolutionRefused,
}

pub fn start_error_phrase(error: StartError) -> (phrase: Phrase)
    ensures
        match error {
            StartError::TargetGone => phrase.ja@ == "キャプチャ対象が見つかりません。"@ && phrase.en@
                == "The capture target is no longer available."@,
            StartError::ResolutionRefused => phrase.ja@
                == "指定したキャプチャ解像度をソースウィンドウが維持できません。キャプチャ解像度を「自動」にするか、対応するサイズを選んでください。キャプチャは開始しませんでした。"@
                && phrase.en@
                == "The source window cannot keep the requested capture resolution. Select Auto or a supported size. Capture was not started."@,
        },
{
    match error {
        StartError::TargetGone => Phrase {
            ja: "キャプチャ対象が見つかりません。",
            en: "The capture target is no longer available.",
        },
        StartError::ResolutionRefused => Phrase {
            ja: "指定したキャプチャ解像度をソースウィンドウが維持できません。キャプチャ解像度を「自動」にするか、対応するサイズを選んでください。キャプチャは開始しませんでした。",
            en: "The source window cannot keep the requested capture resolution. Select Auto or a supported size. Capture was not started.",
        },
    }
}

/// A hidden source is never resized before the start, and is promised to the engine exactly
/// when there is a plan that holds.
pub proof fn a_hidden_source_is_resized_by_the_engine(
    resolution: Option<CaptureResolution>,
    disabled: bool,
    plan: Option<ResolutionPlan>,
)
    ensures
        !resolution_start(resolution, disabled, plan, true).apply_now,
        resolution_start(resolution, disabled, plan, true).deferred == (if disabled {
            None
        } else {
            plan
        }),
        resolution_start(resolution, disabled, plan, false).deferred is None,
        disabled ==> resolution_start(resolution, disabled, plan, true).canvas is None
            && resolution_start(resolution, disabled, plan, true).ready_without_applying,
{
}

/// The settings that a start reads. `autohide_secs` is the delay as the bits of a 32-bit
/// floating-point number.
#[derive(Clone, Copy, Debug, PartialEq, Eq, Structural)]
pub struct StartSettings {
    pub cursor_autohide: bool,
    pub autohide_secs: u32,
    pub cursor_speed_fix: bool,
    pub interp_factor: u32,
    pub vsync: bool,
    pub smooth_pacing: bool,
    pub duplicate_frame_reduction: bool,
    pub crop: CaptureCrop,
    pub fps_cap_enabled: bool,
    pub fps_cap: u32,
    pub hide_source: bool,
    pub client_only: bool,
    pub hdr_capture: bool,
    /// How HDR is turned into SDR, by the number that the engine knows the mode by.
    pub hdr_sdr_mode: u32,
    pub resolution: Option<CaptureResolution>,
    pub gpu: GpuChoice,
    pub scale_mode: ScaleMode,
    /// The magnification, as the bits of a 32-bit floating-point number.
    pub ratio: u32,
    /// The correction of the picture's shape, its scales within their bounds.
    pub aspect: AspectCorrection,
}

/// What is known of the source window before anything is done to it: it is put back like this
/// at the end.
#[derive(Clone, Copy, Debug, PartialEq, Eq, Structural)]
pub struct SourceOrigin {
    pub hwnd: isize,
    pub pid: u32,
    pub rect: Option<Rect>,
    /// Where it is when it is neither maximized nor minimized.
    pub normal_rect: Option<Rect>,
    pub topmost: bool,
    pub maximized: bool,
    pub layered: bool,
    /// How its corners are rounded, where it says so.
    pub corners: Option<u32>,
}

/// The bits of 0.5.
pub const HALF_SECOND: u32 = 0x3f00_0000;

/// The bits of positive infinity.
pub const POSITIVE_INFINITY: u32 = 0x7f80_0000;

/// The larger of the number with these bits and 0.5; 0.5 where they are no number.
pub open spec fn at_least_half(bits: u32) -> u32 {
    if HALF_SECOND < bits <= POSITIVE_INFINITY {
        bits
    } else {
        HALF_SECOND
    }
}

/// After how long the cursor hides: at least half a second, or zero for never. The numbers are
/// bits of 32-bit floating-point numbers.
pub fn autohide_delay(enabled: bool, bits: u32) -> (r: u32)
    ensures
        r == (if enabled {
            at_least_half(bits)
        } else {
            0
        }),
{
    if !enabled {
        0
    } else if bits > HALF_SECOND && bits <= POSITIVE_INFINITY {
        bits
    } else {
        HALF_SECOND
    }
}

/// The highest frame rate limit.
pub const MAX_FPS_CAP: u32 = 240;

/// The lowest frame rate limit.
pub const MIN_FPS_CAP: u32 = 5;

/// A frame rate limit from the settings, brought into its range.
pub fn clamp_fps_cap(cap: u32) -> (r: u32)
    ensures
        r == (if cap < MIN_FPS_CAP {
            MIN_FPS_CAP
        } else if cap > MAX_FPS_CAP {
            MAX_FPS_CAP
        } else {
            cap
        }),
        MIN_FPS_CAP <= r <= MAX_FPS_CAP,
{
    if cap < MIN_FPS_CAP {
        MIN_FPS_CAP
    } else if cap > MAX_FPS_CAP {
        MAX_FPS_CAP
    } else {
        cap
    }
}

/// An explicit capture resolution describes the inside of the window, so it takes the frame
/// off the picture.
pub fn effective_client_only(client_only: bool, resolution: Option<CaptureResolution>) -> (r: bool)
    ensures
        r == (client_only || resolution is Some),
{
    client_only || resolution.is_some()
}

/// What the engine starts with. The filters go along with the commands.
#[derive(Clone, Copy, Debug, PartialEq, Eq, Structural)]
pub struct StartCommand {
    pub source: SourceOrigin,
    pub scale_mode: ScaleMode,
    pub ratio: u32,
    pub aspect: AspectCorrection,
    pub crop: CaptureCrop,
    pub fps_cap: Option<u32>,
    pub hide_source: bool,
    pub client_only: bool,
    pub hdr: bool,
    pub hdr_sdr_mode: u32,
    pub gpu_adapter: Option<i32>,
    pub explicit_gpu_luid: Option<u64>,
    pub force_vulkan_glsl: bool,
    pub deferred: Option<ResolutionPlan>,
    pub canvas: Option<CaptureResolution>,
}

/// One command of a start.
#[derive(Clone, Copy, Debug, PartialEq, Eq, Structural)]
pub enum EngineCommand {
    SetInputOpts { autohide_secs: u32, speed_fix: bool },
    SetInterpFactor(u32),
    /// The downscaler that goes along with the commands.
    SetDownscaler,
    SetVsync(bool),
    SetSmoothPacing(bool),
    SetDuplicateFrameReduction(bool),
    /// Let the helper process put the source back if this one dies.
    PublishRecovery(SourceOrigin),
    Start(StartCommand),
}

/// Everything that a start hands to the engine.
pub struct StartOrder {
    pub commands: Vec<EngineCommand>,
    pub chain: Vec<StageSpec>,
    pub downscaler: String,
}

pub open spec fn start_commands(
    source: SourceOrigin,
    settings: StartSettings,
    plan: StartResolution,
    adapters: Seq<GpuAdapter>,
    render: Option<u64>,
) -> Seq<EngineCommand> {
    seq![
        EngineCommand::SetInputOpts {
            autohide_secs: if settings.cursor_autohide {
                at_least_half(settings.autohide_secs)
            } else {
                0
            },
            speed_fix: settings.cursor_speed_fix,
        },
        EngineCommand::SetInterpFactor(settings.interp_factor),
        EngineCommand::SetDownscaler,
        EngineCommand::SetVsync(settings.vsync),
        EngineCommand::SetSmoothPacing(settings.smooth_pacing),
        EngineCommand::SetDuplicateFrameReduction(settings.duplicate_frame_reduction),
        EngineCommand::PublishRecovery(source),
        EngineCommand::Start(
            StartCommand {
                source,
                scale_mode: settings.scale_mode,
                ratio: settings.ratio,
                aspect: settings.aspect,
                crop: settings.crop,
                fps_cap: if settings.fps_cap_enabled {
                    Some(settings.fps_cap)
                } else {
                    None
                },
                hide_source: settings.hide_source,
                client_only: settings.client_only || settings.resolution is Some,
                hdr: HDR_CAPTURE_OPTION_ENABLED && settings.hdr_capture,
                hdr_sdr_mode: settings.hdr_sdr_mode,
                gpu_adapter: device_of(adapters, compute_luid(settings.gpu.luid, render)),
                explicit_gpu_luid: settings.gpu.luid,
                force_vulkan_glsl: settings.gpu.force_vulkan,
                deferred: plan.deferred,
                canvas: plan.canvas,
            },
        ),
    ]
}

/// A start is one command and the last, behind every option and the record that brings the source
/// back after a crash; what it captures is that source. While the option is closed, HDR is never
/// asked for, whatever the settings say.
pub proof fn the_capture_starts_last(
    source: SourceOrigin,
    settings: StartSettings,
    plan: StartResolution,
    adapters: Seq<GpuAdapter>,
    render: Option<u64>,
)
    ensures
        ({
            let commands = start_commands(source, settings, plan, adapters, render);
            &&& commands.last() matches EngineCommand::Start(start) && start.source == source && !start.hdr
            &&& forall|i: int|
                0 <= i < commands.len() - 1 ==> !(#[trigger] commands[i] is Start)
            &&& commands.contains(EngineCommand::PublishRecovery(source))
        }),
{
    let commands = start_commands(source, settings, plan, adapters, render);
    assert(commands[6] == EngineCommand::PublishRecovery(source));
}

/// What a start hands to the engine, its commands in order: every option is set before the
/// capture starts.
pub fn start(
    source: SourceOrigin,
    settings: StartSettings,
    plan: StartResolution,
    adapters: &[GpuAdapter],
    render: Option<u64>,
    chain: &[StageSpec],
    downscaler: &str,
) -> (order: StartOrder)
    ensures
        order.commands@ == start_commands(source, settings, plan, adapters@, render),
        stages(order.chain@) == stages(chain@),
        order.downscaler@ == downscaler@,
{
    let effective = resolve_compute_gpu_luid(settings.gpu.luid, render);
    let gpu_adapter = device_id_for_luid(adapters, effective);
    let mut commands: Vec<EngineCommand> = Vec::new();
    commands.push(
        EngineCommand::SetInputOpts {
            autohide_secs: autohide_delay(settings.cursor_autohide, settings.autohide_secs),
            speed_fix: settings.cursor_speed_fix,
        },
    );
    commands.push(EngineCommand::SetInterpFactor(settings.interp_factor));
    commands.push(EngineCommand::SetDownscaler);
    commands.push(EngineCommand::SetVsync(settings.vsync));
    commands.push(EngineCommand::SetSmoothPacing(settings.smooth_pacing));
    commands.push(EngineCommand::SetDuplicateFrameReduction(settings.duplicate_frame_reduction));
    commands.push(EngineCommand::PublishRecovery(source));
    commands.push(
        EngineCommand::Start(
            StartCommand {
                source,
                scale_mode: settings.scale_mode,
                ratio: settings.ratio,
                aspect: settings.aspect,
                crop: settings.crop,
                fps_cap: if settings.fps_cap_enabled {
                    Some(settings.fps_cap)
                } else {
                    None
                },
                hide_source: settings.hide_source,
                client_only: effective_client_only(settings.client_only, settings.resolution),
                hdr: hdr_capture_requested(settings.hdr_capture),
                hdr_sdr_mode: settings.hdr_sdr_mode,
                gpu_adapter,
                explicit_gpu_luid: settings.gpu.luid,
                force_vulkan_glsl: settings.gpu.force_vulkan,
                deferred: plan.deferred,
                canvas: plan.canvas,
            },
        ),
    );
    proof {
        assert(commands@ =~= start_commands(source, settings, plan, adapters@, render));
    }
    StartOrder { commands, chain: clone_chain(chain), downscaler: downscaler.to_owned() }
}

/// How soon the main control is drawn again, in milliseconds: while it is pressed, and while a
/// capture comes or goes.
pub fn control_wait_ms(busy: Busy, pressed: bool) -> (wait: Option<u64>)
    ensures
        wait == (if pressed {
            Some(16u64)
        } else if busy.starting || busy.preparing || busy.stopping {
            Some(33u64)
        } else {
            None
        }),
{
    if pressed {
        Some(16)
    } else if busy.starting || busy.preparing || busy.stopping {
        Some(33)
    } else {
        None
    }
}

/// The area of the main control that takes a press, from its edges in whole pixels: never empty.
pub fn control_area(left: i32, top: i32, right: i32, bottom: i32) -> (area: Rect)
    requires
        i32::MIN <= right - left <= i32::MAX,
        i32::MIN <= bottom - top <= i32::MAX,
    ensures
        area.x == left && area.y == top,
        area.w == (if right - left > 1 {
            right - left
        } else {
            1
        }),
        area.h == (if bottom - top > 1 {
            bottom - top
        } else {
            1
        }),
{
    let w: i32 = right - left;
    let h: i32 = bottom - top;
    Rect {
        x: left,
        y: top,
        w: if w > 1 {
            w
        } else {
            1
        },
        h: if h > 1 {
            h
        } else {
            1
        },
    }
}

// ---------------------------------------------------------------------------------------
// What a start, a stop and a toggle are for

/// The adapter that the user chose is the one that computes, whatever the renderer runs on; only
/// without a choice it is the renderer's own; and none is named that is not in the list.
pub proof fn the_chosen_adapter_computes(
    source: SourceOrigin,
    settings: StartSettings,
    plan: StartResolution,
    adapters: Seq<GpuAdapter>,
    render: Option<u64>,
    luid: u64,
    i: int,
)
    requires
        0 <= i < adapters.len(),
        adapters[i].luid == luid,
        forall|j: int| 0 <= j < i ==> (#[trigger] adapters[j]).luid != luid,
    ensures
        settings.gpu.luid == Some(luid) || (settings.gpu.luid is None && render == Some(luid)) ==> (start_commands(
            source,
            settings,
            plan,
            adapters,
            render,
        ).last() matches EngineCommand::Start(start) && start.gpu_adapter == Some(adapters[i].device_id)),
{
    crate::gpu::lookup_is_first(adapters, luid, i);
}

/// An adapter that is not in the list, or no adapter at all, leaves the engine to choose; an
/// explicit choice that is gone is never replaced by the renderer's adapter.
pub proof fn an_unknown_adapter_is_not_named(
    source: SourceOrigin,
    settings: StartSettings,
    plan: StartResolution,
    adapters: Seq<GpuAdapter>,
    render: Option<u64>,
)
    requires
        settings.gpu.luid matches Some(chosen) ==> forall|j: int|
            0 <= j < adapters.len() ==> (#[trigger] adapters[j]).luid != chosen,
        settings.gpu.luid is None ==> (render matches Some(own) ==> forall|j: int|
            0 <= j < adapters.len() ==> (#[trigger] adapters[j]).luid != own),
    ensures
        start_commands(source, settings, plan, adapters, render).last() matches EngineCommand::Start(start)
            && start.gpu_adapter is None,
{
}

/// Every setting reaches the capture under its own name: the crop, the scale, the shape, the
/// limit of the frame rate where it is on, whether the source is hidden, the chosen adapter and
/// its way, and what was planned of the capture resolution. The inside of the window alone is
/// captured where the setting says so or a capture resolution is set, and nowhere else.
pub proof fn a_start_carries_the_settings(
    source: SourceOrigin,
    settings: StartSettings,
    plan: StartResolution,
    adapters: Seq<GpuAdapter>,
    render: Option<u64>,
)
    ensures
        start_commands(source, settings, plan, adapters, render).last() matches EngineCommand::Start(start) && {
            &&& start.source == source
            &&& start.scale_mode == settings.scale_mode
            &&& start.ratio == settings.ratio
            &&& start.aspect == settings.aspect
            &&& start.crop == settings.crop
            &&& start.fps_cap is Some <==> settings.fps_cap_enabled
            &&& start.fps_cap matches Some(cap) ==> cap == settings.fps_cap
            &&& start.hide_source == settings.hide_source
            &&& start.client_only <==> settings.client_only || settings.resolution is Some
            &&& !start.hdr
            &&& start.hdr_sdr_mode == settings.hdr_sdr_mode
            &&& start.explicit_gpu_luid == settings.gpu.luid
            &&& start.force_vulkan_glsl == settings.gpu.force_vulkan
            &&& start.deferred == plan.deferred
            &&& start.canvas == plan.canvas
        },
{
}

/// Every option is told once, with the value of the settings, before the capture starts; the
/// record for a crash is of the source that is captured; and what is told last is the start.
pub proof fn a_start_tells_every_option_once(
    source: SourceOrigin,
    settings: StartSettings,
    plan: StartResolution,
    adapters: Seq<GpuAdapter>,
    render: Option<u64>,
)
    ensures
        ({
            let c = start_commands(source, settings, plan, adapters, render);
            &&& c.len() == 8
            &&& c[7] is Start
            &&& c.contains(EngineCommand::SetInterpFactor(settings.interp_factor))
            &&& c.contains(EngineCommand::SetDownscaler)
            &&& c.contains(EngineCommand::SetVsync(settings.vsync))
            &&& c.contains(EngineCommand::SetSmoothPacing(settings.smooth_pacing))
            &&& c.contains(EngineCommand::SetDuplicateFrameReduction(settings.duplicate_frame_reduction))
            &&& c.contains(EngineCommand::PublishRecovery(source))
            &&& c[0] matches EngineCommand::SetInputOpts { autohide_secs, speed_fix } && speed_fix
                == settings.cursor_speed_fix && (!settings.cursor_autohide ==> autohide_secs == 0) && (
            settings.cursor_autohide ==> {
                // The bits of 0.5 and of infinity: numbers without a sign are ordered as their bits.
                &&& 0x3f00_0000 <= autohide_secs <= 0x7f80_0000
                &&& autohide_secs == settings.autohide_secs || autohide_secs == 0x3f00_0000
                &&& 0x3f00_0000 <= settings.autohide_secs <= 0x7f80_0000 ==> autohide_secs == settings.autohide_secs
            })
        }),
{
    let c = start_commands(source, settings, plan, adapters, render);
    assert(c[1] == EngineCommand::SetInterpFactor(settings.interp_factor));
    assert(c[2] == EngineCommand::SetDownscaler);
    assert(c[3] == EngineCommand::SetVsync(settings.vsync));
    assert(c[4] == EngineCommand::SetSmoothPacing(settings.smooth_pacing));
    assert(c[5] == EngineCommand::SetDuplicateFrameReduction(settings.duplicate_frame_reduction));
    assert(c[6] == EngineCommand::PublishRecovery(source));
}

/// A stop is carried out while something is starting, running or being prepared and no stop is
/// under way; a second one, and one with nothing to stop, are told apart.
pub proof fn a_stop_stops_what_runs(busy: Busy)
    ensures
        stop_outcome(busy) == StopOutcome::Dispatched <==> !busy.stopping && (busy.starting || busy.running
            || busy.preparing),
        stop_outcome(busy) == StopOutcome::AlreadyStopping <==> busy.stopping,
        stop_outcome(busy) == StopOutcome::Idle <==> !busy.stopping && !busy.starting && !busy.running
            && !busy.preparing,
{
}

/// The toggle key stops what a stop request would stop; it starts only with nothing under way,
/// and only when it was pressed after the last capture had ended.
pub proof fn a_toggle_stops_or_starts(busy: Busy, received_at: u64, idle_since: u64)
    ensures
        toggle_outcome(busy, received_at, idle_since) == ToggleOutcome::Stop <==> stop_outcome(busy)
            == StopOutcome::Dispatched,
        toggle_outcome(busy, received_at, idle_since) == ToggleOutcome::AlreadyStopping <==> busy.stopping,
        toggle_outcome(busy, received_at, idle_since) == ToggleOutcome::Start <==> !busy.starting && !busy.running
            && !busy.stopping && !busy.preparing && received_at > idle_since,
        toggle_outcome(busy, received_at, idle_since) == ToggleOutcome::Stale <==> !busy.starting && !busy.running
            && !busy.stopping && !busy.preparing && received_at <= idle_since,
{
}

/// Only the end of a capture moves the time since which nothing runs.
pub proof fn only_an_end_moves_the_idle_time(clock: SessionClock, busy: bool, now: u64)
    ensures
        after_tick(clock, busy, now).was_busy == busy,
        after_tick(clock, busy, now).press_until == clock.press_until,
        clock.was_busy && !busy ==> after_tick(clock, busy, now).idle_since == now,
        !clock.was_busy || busy ==> after_tick(clock, busy, now).idle_since == clock.idle_since,
{
}

/// A press that comes last in a batch asks for what its key stands for, behind everything that
/// was asked before: the first toggle, the panel, the place of the window, the end.
pub proof fn a_press_asks_for_its_own_command(events: Seq<HotkeyEvent>, event: HotkeyEvent, editor_open: bool)
    ensures
        ({
            let before = drained(events, editor_open);
            let after = drained(events.push(event), editor_open);
            let heard = !event.handled_directly && !editor_open;
            &&& !heard ==> after == before
            &&& heard && event.id == 2 ==> after == before.push(QueuedCommand::Quit)
            &&& heard && event.id == 3 ==> after == before.push(QueuedCommand::Panel)
            &&& heard && event.id == 4 ==> after == before.push(QueuedCommand::GuiTopmost)
            &&& heard && event.id == 1 && (forall|i: int| 0 <= i < before.len() ==> !(#[trigger] before[i] is Toggle))
                ==> after == before.push(QueuedCommand::Toggle { received_at: event.received_at })
            &&& heard && event.id == 1 && (exists|i: int| 0 <= i < before.len() && #[trigger] before[i] is Toggle)
                ==> after == before
            &&& event.id < 1 || event.id > 4 ==> after == before
            &&& drained(Seq::empty(), editor_open).len() == 0
        }),
{
    assert(events.push(event).drop_last() =~= events);
}

/// A start goes on exactly for a window that is there and that this process has the rights for.
pub proof fn a_start_needs_a_window_in_reach(
    target: isize,
    own_elevated: bool,
    target_elevated: Option<bool>,
    source_pid: u32,
)
    ensures
        gate(target, own_elevated, target_elevated, source_pid) == StartGate::Proceed <==> target != 0 && source_pid
            != 0 && (own_elevated || target_elevated != Some(true)),
        gate(target, own_elevated, target_elevated, source_pid) == StartGate::NoTarget <==> target == 0,
        gate(target, own_elevated, target_elevated, source_pid) == StartGate::ElevatedTarget <==> target != 0
            && !own_elevated && target_elevated == Some(true),
{
}

/// The canvas of a session is the size that the source is given, and there is one exactly where
/// there is a plan that holds; the notice comes exactly where a size is set and held back; and a
/// hidden source is started without a size only where none is set or it is held back.
pub proof fn the_canvas_is_the_applied_size(
    resolution: Option<CaptureResolution>,
    disabled: bool,
    plan: Option<ResolutionPlan>,
    hide_source: bool,
)
    ensures
        ({
            let r = resolution_start(resolution, disabled, plan, hide_source);
            &&& r.canvas is Some <==> plan is Some && !disabled
            &&& r.canvas matches Some(canvas) ==> canvas == plan->0.applied
            &&& r.notice <==> disabled && resolution is Some
            &&& r.apply_now <==> !hide_source
            &&& r.deferred is Some <==> hide_source && plan is Some && !disabled
            &&& r.deferred matches Some(deferred) ==> deferred == plan->0
            &&& !r.ready_without_applying <==> resolution is Some && !disabled && plan is None
        }),
{
}

/// What is left of a label is its end; it does not begin with a blank or one of the three marks,
/// and all that was cut off were such.
pub proof fn a_label_loses_only_its_marks(s: Seq<char>)
    ensures
        without_marks(s).len() <= s.len(),
        without_marks(s) == s.skip(s.len() - without_marks(s).len()),
        without_marks(s).len() > 0 ==> {
            let c = without_marks(s)[0];
            c != '\u{25b6}' && c != '\u{25a0}' && c != '\u{25cf}' && !is_white_space(c)
        },
        forall|i: int|
            0 <= i < s.len() - without_marks(s).len() ==> s[i] == '\u{25b6}' || s[i] == '\u{25a0}' || s[i] == '\u{25cf}'
                || is_white_space(#[trigger] s[i]),
    decreases s.len(),
{
    if s.len() > 0 && is_label_mark(s[0]) {
        let rest = s.skip(1);
        a_label_loses_only_its_marks(rest);
        let n = s.len() - without_marks(s).len();
        assert(rest.skip(n - 1) =~= s.skip(n));
        assert forall|i: int| 0 <= i < n implies s[i] == '\u{25b6}' || s[i] == '\u{25a0}' || s[i] == '\u{25cf}'
            || is_white_space(#[trigger] s[i]) by {
            if i > 0 {
                assert(rest[i - 1] == s[i]);
            }
        }
    } else {
        assert(s.skip(0) =~= s);
    }
}

/// The button stops what comes or runs, starts where nothing is under way, and does neither under
/// an open picker or while a capture goes.
pub proof fn the_button_offers_what_can_be_done(picker_open: bool, busy: Busy)
    ensures
        offered(picker_open, busy) == MainControl::Disabled <==> picker_open || busy.stopping,
        offered(picker_open, busy) == MainControl::Stop <==> !picker_open && !busy.stopping && (busy.starting
            || busy.preparing || busy.running),
        offered(picker_open, busy) == MainControl::Start <==> !picker_open && !busy.stopping && !busy.starting
            && !busy.preparing && !busy.running,
{
}

/// An overloaded capture is stopped from its deadline on and never before; until then it is looked
/// at ten times a second, and at the deadline itself.
pub proof fn an_overloaded_capture_is_stopped_at_its_deadline(busy: Busy, deadline: u64, now: u64)
    ensures
        guard_step(busy, None, now) == OverloadStep::Nothing,
        !busy.running || busy.stopping ==> guard_step(busy, Some(deadline), now) == OverloadStep::Nothing,
        busy.running && !busy.stopping ==> {
            &&& guard_step(busy, Some(deadline), now) == OverloadStep::Stop <==> now >= deadline
            &&& now < deadline ==> (guard_step(busy, Some(deadline), now) matches OverloadStep::LookAgain { after }
                && 0 < after <= 100_000_000 && now + after <= deadline && (after == 100_000_000 || now + after
                == deadline))
        },
{
}

/// The notice of an overload is drawn over the picture of a running capture unless the main window
/// can be seen above it; whatever hides the window brings the notice there.
pub proof fn a_hidden_window_moves_the_notice(busy: Busy, deadline: Option<u64>, facts: NoticeFacts)
    ensures
        notice_over_picture(busy, deadline, facts) ==> busy.running && !busy.stopping && deadline is Some,
        busy.running && !busy.stopping && deadline is Some ==> {
            &&& facts.gui == 0 ==> notice_over_picture(busy, deadline, facts)
            &&& !facts.valid ==> notice_over_picture(busy, deadline, facts)
            &&& !facts.visible ==> notice_over_picture(busy, deadline, facts)
            &&& facts.minimized ==> notice_over_picture(busy, deadline, facts)
            &&& facts.cloaked ==> notice_over_picture(busy, deadline, facts)
            &&& facts.overlay == 0 ==> notice_over_picture(busy, deadline, facts)
            &&& !facts.above_overlay ==> notice_over_picture(busy, deadline, facts)
        },
        facts.gui != 0 && facts.valid && facts.visible && !facts.minimized && !facts.cloaked && facts.overlay != 0
            && facts.above_overlay ==> !notice_over_picture(busy, deadline, facts),
{
}

/// A new event shows the notice for three seconds, an old one changes nothing; then the notice
/// forgets its window, and the event is not shown again.
pub proof fn a_covered_source_is_told_once(notice: OcclusionNotice, seq: u64, now: u64, later: u64, valid: bool)
    requires
        now <= later,
        now + 3_000_000_000 <= u64::MAX,
    ensures
        seq == notice.seen_seq ==> notice_after_event(notice, seq, now) == notice,
        seq != notice.seen_seq ==> {
            let shown = notice_after_event(notice, seq, now);
            let then = notice_after_frame(shown, valid, later);
            &&& shown.hwnd == notice.hwnd
            &&& notice_after_event(shown, seq, later) == shown
            &&& later - now < 3_000_000_000 ==> then == shown && (notice_look(shown, later) matches Some(after)
                && 0 < after <= 100_000_000 && later + after <= now + 3_000_000_000)
            &&& later - now >= 3_000_000_000 ==> then == (OcclusionNotice { seen_seq: seq, until: None, hwnd: 0 })
                && notice_look(shown, later) is None
        },
        notice.until is None ==> {
            &&& notice_look(notice, later) is None
            &&& valid ==> notice_after_frame(notice, valid, later) == notice
            &&& !valid ==> notice_after_frame(notice, valid, later) == (OcclusionNotice { hwnd: 0, ..notice })
        },
{
}

/// A press is shown for its time, and moves nothing else of the clock.
pub proof fn a_press_is_shown_for_its_time(clock: SessionClock, now: u64, later: u64)
    requires
        now <= later,
        now + 115_000_000 <= u64::MAX,
    ensures
        shows_press(after_press(clock, now), later) <==> later - now < 115_000_000,
        after_press(clock, now).was_busy == clock.was_busy,
        after_press(clock, now).idle_since == clock.idle_since,
{
}

} // verus!
