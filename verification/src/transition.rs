//! Changing the layout of the main window. A picture of the old layout covers the window while
//! the new one gets its size and is drawn a few times; the picture goes only after that. A
//! change that does not get its size in time is carried out all the same, but a mere shrinking
//! is given up.
use vstd::prelude::*;
use crate::layout::UiMode;

verus! {

/// How long a change waits for its size, in nanoseconds.
pub const RESIZE_TIMEOUT_NS: u64 = 250_000_000;

/// How long the picture stays after the change, in nanoseconds.
pub const SHIELD_HOLD_NS: u64 = 40_000_000;

/// The pause between two looks at a change, in nanoseconds.
pub const LOOK_NS: u64 = 8_000_000;

/// The pause before another try to show a hidden window, in nanoseconds.
pub const UNCLOAK_RETRY_NS: u64 = 16_000_000;

/// How many frames of the new layout are drawn behind the picture.
pub const WARMUP_FRAMES: u8 = 2;

/// How far a size may be off, in units of which a point has 1024.
pub const SIZE_TOLERANCE: u32 = 1536;

/// A size in units.
#[derive(Clone, Copy, Debug, PartialEq, Eq, Structural)]
pub struct WindowSize {
    pub w: u32,
    pub h: u32,
}

/// A change of the layout that is under way.
#[derive(Clone, Copy, Debug, PartialEq, Eq, Structural)]
pub struct PendingUiModeTransition {
    pub mode: UiMode,
    /// False where only the size of the same layout shrinks.
    pub mode_change: bool,
    pub target: WindowSize,
    pub armed_at: u64,
    pub mode_committed: bool,
    pub warmup_frames: u8,
    pub committed_at: Option<u64>,
    /// A picture covers the window.
    pub shield_applied: bool,
    /// The window is hidden from the compositor.
    pub cloak_applied: bool,
}

/// A change is begun only to another layout, and one at a time.
pub fn may_switch(current: UiMode, pending: Option<PendingUiModeTransition>, mode: UiMode) -> (r: bool)
    ensures
        r == (mode != current && pending is None),
{
    mode != current && pending.is_none()
}

pub open spec fn begun(mode: UiMode, mode_change: bool, target: WindowSize, shield_applied: bool, now: u64)
    -> PendingUiModeTransition {
    PendingUiModeTransition {
        mode,
        mode_change,
        target,
        armed_at: now,
        mode_committed: false,
        warmup_frames: 0,
        committed_at: None,
        shield_applied,
        cloak_applied: false,
    }
}

/// Begins a change. Where no picture could be made the window is not hidden instead: a failure
/// of the compositor must not leave it invisible.
pub fn prepare_ui_mode_switch(
    mode: UiMode,
    mode_change: bool,
    target: WindowSize,
    shield_applied: bool,
    now: u64,
) -> (p: PendingUiModeTransition)
    ensures
        p == begun(mode, mode_change, target, shield_applied, now),
{
    PendingUiModeTransition {
        mode,
        mode_change,
        target,
        armed_at: now,
        mode_committed: false,
        warmup_frames: 0,
        committed_at: None,
        shield_applied,
        cloak_applied: false,
    }
}

/// One step of a change. The picture, where there is one, is kept on top in every step.
#[derive(Clone, Copy, Debug, PartialEq, Eq, Structural)]
pub enum TransitionStep {
    /// Nothing is under way.
    Idle,
    /// Look again after this time, in nanoseconds.
    Wait { after: u64 },
    /// Show the hidden window and tell the outcome.
    Uncloak,
    /// The change is over: take the picture away, if there is one.
    Reveal { shield: bool },
    /// Shrinking is given up: take the picture away, if there is one, and keep the size.
    Cancel { shield: bool },
    /// The layout is changed and saved, unless only the size was to shrink.
    Commit { mode: Option<UiMode> },
}

pub open spec fn elapsed(since: u64, now: u64) -> int {
    if now >= since {
        now - since
    } else {
        0
    }
}

pub open spec fn close_to(a: int, b: int) -> bool {
    -SIZE_TOLERANCE <= a - b <= SIZE_TOLERANCE
}

/// The window has its new size.
pub open spec fn geometry_ready(target: WindowSize, size: Option<WindowSize>) -> bool {
    size matches Some(size) && close_to(size.w as int, target.w as int) && close_to(size.h as int, target.h as int)
}

pub open spec fn step_of(p: PendingUiModeTransition, size: Option<WindowSize>, gui: isize, now: u64) -> (
    TransitionStep,
    Option<PendingUiModeTransition>,
) {
    if p.mode_committed {
        if p.warmup_frames > 0 {
            (
                TransitionStep::Wait { after: LOOK_NS },
                Some(PendingUiModeTransition { warmup_frames: (p.warmup_frames - 1) as u8, ..p }),
            )
        } else if p.committed_at matches Some(at) && elapsed(at, now) < SHIELD_HOLD_NS {
            (
                TransitionStep::Wait { after: (SHIELD_HOLD_NS - elapsed(p.committed_at->0, now)) as u64 },
                Some(p),
            )
        } else if p.cloak_applied && gui != 0 {
            (TransitionStep::Uncloak, Some(p))
        } else {
            (TransitionStep::Reveal { shield: p.shield_applied }, None)
        }
    } else {
        let ready = geometry_ready(p.target, size);
        let late = elapsed(p.armed_at, now) >= RESIZE_TIMEOUT_NS;
        if !ready && !late {
            (TransitionStep::Wait { after: LOOK_NS }, Some(p))
        } else if !ready && !p.mode_change {
            (TransitionStep::Cancel { shield: p.shield_applied }, None)
        } else {
            (
                TransitionStep::Commit {
                    mode: if p.mode_change {
                        Some(p.mode)
                    } else {
                        None
                    },
                },
                Some(
                    PendingUiModeTransition {
                        mode_committed: true,
                        warmup_frames: WARMUP_FRAMES,
                        committed_at: Some(now),
                        ..p
                    },
                ),
            )
        }
    }
}

fn since(start: u64, now: u64) -> (r: u64)
    ensures
        r == elapsed(start, now),
{
    if now >= start {
        now - start
    } else {
        0
    }
}

fn is_close(a: u32, b: u32) -> (r: bool)
    ensures
        r == close_to(a as int, b as int),
{
    if a >= b {
        a - b <= SIZE_TOLERANCE
    } else {
        b - a <= SIZE_TOLERANCE
    }
}

/// Moves a change on, once per frame.
pub fn commit_pending_ui_mode_if_ready(
    pending: &mut Option<PendingUiModeTransition>,
    size: Option<WindowSize>,
    gui: isize,
    now: u64,
) -> (step: TransitionStep)
    ensures
        match *old(pending) {
            None => step == TransitionStep::Idle && *final(pending) is None,
            Some(p) => (step, *final(pending)) == step_of(p, size, gui, now),
        },
{
    let p = match *pending {
        Some(p) => p,
        None => {
            return TransitionStep::Idle;
        },
    };
    if p.mode_committed {
        if p.warmup_frames > 0 {
            *pending = Some(PendingUiModeTransition { warmup_frames: p.warmup_frames - 1, ..p });
            return TransitionStep::Wait { after: LOOK_NS };
        }
        if let Some(at) = p.committed_at {
            let gone: u64 = since(at, now);
            if gone < SHIELD_HOLD_NS {
                return TransitionStep::Wait { after: SHIELD_HOLD_NS - gone };
            }
        }
        if p.cloak_applied && gui != 0 {
            return TransitionStep::Uncloak;
        }
        *pending = None;
        return TransitionStep::Reveal { shield: p.shield_applied };
    }
    let ready = match size {
        Some(size) => is_close(size.w, p.target.w) && is_close(size.h, p.target.h),
        None => false,
    };
    let late = since(p.armed_at, now) >= RESIZE_TIMEOUT_NS;
    if !ready && !late {
        return TransitionStep::Wait { after: LOOK_NS };
    }
    if !ready && !p.mode_change {
        *pending = None;
        return TransitionStep::Cancel { shield: p.shield_applied };
    }
    *pending = Some(
        PendingUiModeTransition {
            mode_committed: true,
            warmup_frames: WARMUP_FRAMES,
            committed_at: Some(now),
            ..p
        },
    );
    TransitionStep::Commit {
        mode: if p.mode_change {
            Some(p.mode)
        } else {
            None
        },
    }
}

/// The outcome of showing a hidden window: the change is over only when the window is shown.
pub fn after_uncloak(
    pending: &mut Option<PendingUiModeTransition>,
    requested: bool,
    still_cloaked: bool,
) -> (step: TransitionStep)
    ensures
        match *old(pending) {
            None => step == TransitionStep::Idle && *final(pending) is None,
            Some(p) => if !requested || still_cloaked {
                step == (TransitionStep::Wait { after: UNCLOAK_RETRY_NS }) && *final(pending) == *old(pending)
            } else {
                step == (TransitionStep::Reveal { shield: p.shield_applied }) && *final(pending) is None
            },
        },
{
    let p = match *pending {
        Some(p) => p,
        None => {
            return TransitionStep::Idle;
        },
    };
    if !requested || still_cloaked {
        return TransitionStep::Wait { after: UNCLOAK_RETRY_NS };
    }
    *pending = None;
    TransitionStep::Reveal { shield: p.shield_applied }
}

/// A change never waits for ever: at the deadline it is carried out, or given up where only
/// the size was to shrink, whatever the size of the window is.
pub proof fn no_change_gets_stuck(p: PendingUiModeTransition, size: Option<WindowSize>, gui: isize, now: u64)
    requires
        !p.mode_committed,
        elapsed(p.armed_at, now) >= RESIZE_TIMEOUT_NS,
    ensures
        p.mode_change ==> step_of(p, size, gui, now).0 == (TransitionStep::Commit { mode: Some(p.mode) }),
        !p.mode_change && !geometry_ready(p.target, size) ==> step_of(p, size, gui, now) == (
            TransitionStep::Cancel { shield: p.shield_applied },
            None::<PendingUiModeTransition>,
        ),
{
}

/// The picture goes only after the new layout was drawn behind it and has been there for its
/// time; and nothing but the end of a change takes it away.
pub proof fn the_picture_goes_last(p: PendingUiModeTransition, size: Option<WindowSize>, gui: isize, now: u64)
    requires
        p.mode_change,
    ensures
        step_of(p, size, gui, now).1 is None ==> p.mode_committed && p.warmup_frames == 0 && (p.committed_at matches
            Some(at) ==> elapsed(at, now) >= SHIELD_HOLD_NS),
{
}

/// A change that began without a hidden window ends within the warm-up and the hold.
pub proof fn a_committed_change_ends(p: PendingUiModeTransition, size: Option<WindowSize>, gui: isize, now: u64)
    requires
        p.mode_committed,
        !p.cloak_applied,
        p.committed_at matches Some(at) && elapsed(at, now) >= SHIELD_HOLD_NS,
    ensures
        p.warmup_frames > 0 ==> (step_of(p, size, gui, now).1 matches Some(next) && next.warmup_frames
            == p.warmup_frames - 1 && next.mode_committed && next.committed_at == p.committed_at
            && !next.cloak_applied),
        p.warmup_frames == 0 ==> step_of(p, size, gui, now) == (
            TransitionStep::Reveal { shield: p.shield_applied },
            None::<PendingUiModeTransition>,
        ),
{
}

// ---------------------------------------------------------------------------------------
// The full layout

/// What a new measurement of the full layout does.
#[derive(Clone, Copy, Debug, PartialEq, Eq, Structural)]
pub enum FullResize {
    /// The measurement is the one in force.
    Nothing,
    /// A change is under way: measure again when it is over.
    Hold,
    /// Take the size over; cover the window first where it shrinks.
    Resize { cover: bool },
}

/// The window is larger than the measurement.
pub open spec fn shrinks(target: WindowSize, current: Option<WindowSize>) -> bool {
    current matches Some(size) && (target.w + SIZE_TOLERANCE < size.w || target.h + SIZE_TOLERANCE < size.h)
}

pub fn full_resize_step(
    applied: Option<i32>,
    key: i32,
    pending: bool,
    mode: UiMode,
    target: WindowSize,
    current: Option<WindowSize>,
) -> (r: FullResize)
    ensures
        r == (if applied == Some(key) {
            FullResize::Nothing
        } else if pending && mode == UiMode::Full {
            FullResize::Hold
        } else {
            FullResize::Resize { cover: mode == UiMode::Full && shrinks(target, current) }
        }),
{
    if applied == Some(key) {
        return FullResize::Nothing;
    }
    if pending && mode == UiMode::Full {
        return FullResize::Hold;
    }
    let shrinking = match current {
        Some(size) => (size.w > SIZE_TOLERANCE && target.w < size.w - SIZE_TOLERANCE) || (size.h > SIZE_TOLERANCE
            && target.h < size.h - SIZE_TOLERANCE),
        None => false,
    };
    FullResize::Resize { cover: mode == UiMode::Full && shrinking }
}

// ---------------------------------------------------------------------------------------
// What a change of the layout is for

/// A change begins with nothing done, and waits for its size.
pub proof fn a_change_begins_with_nothing_done(
    mode: UiMode,
    mode_change: bool,
    target: WindowSize,
    shield: bool,
    now: u64,
)
    ensures
        ({
            let p = begun(mode, mode_change, target, shield, now);
            p.mode == mode && p.mode_change == mode_change && p.target == target && p.armed_at == now
                && !p.mode_committed && p.warmup_frames == 0 && p.committed_at is None && p.shield_applied == shield
                && !p.cloak_applied
        }),
{
}

/// A window has its new size when neither length is off by more than a point and a half.
pub proof fn a_size_may_be_off_a_little(target: WindowSize, size: WindowSize)
    ensures
        geometry_ready(target, Some(size)) <==> -1536 <= size.w - target.w <= 1536 && -1536 <= size.h - target.h <= 1536,
        !geometry_ready(target, None),
        shrinks(target, Some(size)) <==> target.w + 1536 < size.w || target.h + 1536 < size.h,
        !shrinks(target, None),
{
}

/// A change that has its size, or has waited a quarter of a second for it, takes the new layout over,
/// and draws it twice behind the picture; a shrinking without its size is given up then; before that
/// it is looked at again soon.
pub proof fn a_change_takes_the_layout_over(p: PendingUiModeTransition, size: Option<WindowSize>, gui: isize, now: u64)
    requires
        !p.mode_committed,
    ensures
        ({
            let ready = geometry_ready(p.target, size);
            let late = now >= p.armed_at && now - p.armed_at >= 250_000_000;
            let (step, next) = step_of(p, size, gui, now);
            &&& !ready && !late ==> step == (TransitionStep::Wait { after: 8_000_000 }) && next == Some(p)
            &&& (ready || late) && p.mode_change ==> step == (TransitionStep::Commit { mode: Some(p.mode) })
            &&& ready && !p.mode_change ==> step == (TransitionStep::Commit { mode: None })
            &&& !ready && late && !p.mode_change ==> step == (TransitionStep::Cancel { shield: p.shield_applied }) && next
                is None
            &&& step is Commit ==> next == Some(
                PendingUiModeTransition {
                    mode_committed: true,
                    warmup_frames: 2,
                    committed_at: Some(now),
                    ..p
                },
            )
        }),
{
}

/// After that the picture stays while the frames behind it are drawn and for a twenty-fifth of a
/// second; then a hidden window is shown first, and the picture goes.
pub proof fn a_committed_change_goes_its_way(p: PendingUiModeTransition, size: Option<WindowSize>, gui: isize, now: u64)
    requires
        p.mode_committed,
    ensures
        ({
            let (step, next) = step_of(p, size, gui, now);
            let held = p.committed_at is None || (now >= p.committed_at->0 && now - p.committed_at->0 >= 40_000_000);
            &&& p.warmup_frames > 0 ==> step == (TransitionStep::Wait { after: 8_000_000 }) && next == Some(
                PendingUiModeTransition { warmup_frames: (p.warmup_frames - 1) as u8, ..p },
            )
            &&& p.warmup_frames == 0 && !held ==> step is Wait && next == Some(p)
            &&& p.warmup_frames == 0 && !held && now >= p.committed_at->0 ==> step == (TransitionStep::Wait {
                after: (40_000_000 - (now - p.committed_at->0)) as u64,
            })
            &&& p.warmup_frames == 0 && held && p.cloak_applied && gui != 0 ==> step == TransitionStep::Uncloak && next
                == Some(p)
            &&& p.warmup_frames == 0 && held && !(p.cloak_applied && gui != 0) ==> step == (TransitionStep::Reveal {
                shield: p.shield_applied,
            }) && next is None
        }),
{
}

} // verus!
