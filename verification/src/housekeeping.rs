//! What is looked after while the program runs: the area that stays with the main window, the
//! order of the windows, the notices of the engine and the window under capture.
use vstd::prelude::*;
use crate::actions::{Action, Rect, WindowFacts, provided, push_if};

verus! {

/// The pause between two rounds while a capture runs, in nanoseconds.
pub const POLL_RUNNING_NS: u64 = 80_000_000;

/// The pause between two rounds otherwise, in nanoseconds.
pub const POLL_IDLE_NS: u64 = 250_000_000;

/// What is known of the main window.
#[derive(Clone, Copy, Debug, PartialEq, Eq, Structural)]
pub struct GuiFacts {
    pub hwnd: isize,
    pub valid: bool,
    pub minimized: bool,
    /// The window is in the topmost band.
    pub is_topmost: bool,
    pub rect: Option<Rect>,
}

/// The main window is on the screen during a capture.
pub open spec fn in_session(running: bool, gui: GuiFacts) -> bool {
    running && gui.hwnd != 0 && gui.valid && !gui.minimized
}

/// The area in which the pointer stays with the main window: its own, while it is topmost above
/// a capture.
pub open spec fn no_engage_zone(running: bool, gui_topmost: bool, gui: GuiFacts) -> Option<Rect> {
    if in_session(running, gui) && gui_topmost {
        gui.rect
    } else {
        None
    }
}

pub fn no_engage(running: bool, gui_topmost: bool, gui: GuiFacts) -> (action: Action)
    ensures
        action == (Action::SendNoEngage { zone: no_engage_zone(running, gui_topmost, gui) }),
{
    let zone = if running && gui_topmost && gui.hwnd != 0 && gui.valid && !gui.minimized {
        gui.rect
    } else {
        None
    };
    Action::SendNoEngage { zone }
}

pub open spec fn order_actions(
    running: bool,
    gui_topmost: bool,
    gui: GuiFacts,
    panel: isize,
    overlay: isize,
) -> Seq<Action> {
    let on = in_session(running, gui) && gui_topmost;
    let off = in_session(running, gui) && !gui_topmost;
    Seq::<Action>::empty() + provided(
        on && !gui.is_topmost,
        Action::SetTopmost { window: gui.hwnd, on: true },
    ) + provided(on, Action::NormalizeStack { gui: gui.hwnd, gui_topmost: true, panel, overlay }) + provided(
        on,
        Action::KeepCursorOnTop,
    ) + provided(off && gui.is_topmost, Action::SetTopmost { window: gui.hwnd, on: false }) + provided(
        true,
        Action::SendNoEngage { zone: no_engage_zone(running, gui_topmost, gui) },
    )
}

/// Keeps the windows in their order. The topmost style is touched only where it is lost or
/// left over.
pub fn keep_order(running: bool, gui_topmost: bool, gui: GuiFacts, panel: isize, overlay: isize) -> (actions: Vec<
    Action,
>)
    ensures
        actions@ == order_actions(running, gui_topmost, gui, panel, overlay),
{
    let there = running && gui.hwnd != 0 && gui.valid && !gui.minimized;
    let on = there && gui_topmost;
    let off = there && !gui_topmost;
    let mut actions: Vec<Action> = Vec::new();
    push_if(&mut actions, on && !gui.is_topmost, Action::SetTopmost { window: gui.hwnd, on: true });
    push_if(
        &mut actions,
        on,
        Action::NormalizeStack { gui: gui.hwnd, gui_topmost: true, panel, overlay },
    );
    push_if(&mut actions, on, Action::KeepCursorOnTop);
    push_if(&mut actions, off && gui.is_topmost, Action::SetTopmost { window: gui.hwnd, on: false });
    let zone = no_engage(running, gui_topmost, gui);
    push_if(&mut actions, true, zone);
    actions
}

/// A window that is not topmost takes no area from the capture.
pub proof fn an_ordinary_window_takes_no_area(running: bool, gui: GuiFacts)
    ensures
        no_engage_zone(running, false, gui) is None,
        no_engage_zone(false, true, gui) is None,
{
}

// ---------------------------------------------------------------------------------------
// Rounds

/// What the engine asks for about the capture resolution.
#[derive(Clone, Copy, Debug, PartialEq, Eq, Structural)]
pub enum Reapply {
    Nothing,
    /// Apply the capture resolution again.
    Apply,
    /// Drop the geometry of the capture.
    Clear,
}

/// The state of the rounds.
#[derive(Clone, Copy, Debug, PartialEq, Eq, Structural)]
pub struct Poll {
    pub last: Option<u64>,
    /// A start was asked for from outside.
    pub auto_start: bool,
    pub fullscreen_seen: u64,
    pub reapply_seen: u64,
    /// The notice on full-screen sources is open.
    pub fullscreen_notice: bool,
}

pub open spec fn round_due(last: Option<u64>, running: bool, now: u64) -> bool {
    last matches Some(last) ==> now - last >= (if running {
        POLL_RUNNING_NS
    } else {
        POLL_IDLE_NS
    })
}

pub open spec fn after_begin(poll: Poll, running: bool, now: u64) -> Poll {
    if round_due(poll.last, running, now) {
        Poll { last: Some(now), auto_start: false, ..poll }
    } else {
        poll
    }
}

pub open spec fn reapply_wanted(poll: Poll, reapply: u64, running: bool, has_resolution: bool) -> Reapply {
    if reapply > poll.reapply_seen && running {
        if has_resolution {
            Reapply::Apply
        } else {
            Reapply::Clear
        }
    } else {
        Reapply::Nothing
    }
}

pub open spec fn after_counters(poll: Poll, fullscreen: u64, reapply: u64, has_resolution: bool) -> Poll {
    Poll {
        fullscreen_seen: if fullscreen > poll.fullscreen_seen {
            fullscreen
        } else {
            poll.fullscreen_seen
        },
        fullscreen_notice: poll.fullscreen_notice || (fullscreen > poll.fullscreen_seen && has_resolution),
        reapply_seen: if reapply > poll.reapply_seen {
            reapply
        } else {
            poll.reapply_seen
        },
        ..poll
    }
}

impl Poll {
    /// Whether a round is due, and whether it begins with a start.
    pub fn begin_round(&mut self, running: bool, now: u64) -> (r: (bool, bool))
        ensures
            r.0 == round_due(old(self).last, running, now),
            r.1 == (r.0 && old(self).auto_start),
            *final(self) == after_begin(*old(self), running, now),
    {
        let pause: u64 = if running {
            POLL_RUNNING_NS
        } else {
            POLL_IDLE_NS
        };
        if let Some(last) = self.last {
            if now < last || now - last < pause {
                return (false, false);
            }
        }
        self.last = Some(now);
        let start = self.auto_start;
        self.auto_start = false;
        (true, start)
    }

    /// Looks at the two counters of the engine. A notice opens only where a capture resolution
    /// is set; a request to apply it again matters only during a capture.
    pub fn on_counters(&mut self, fullscreen: u64, reapply: u64, running: bool, has_resolution: bool) -> (r: Reapply)
        ensures
            r == reapply_wanted(*old(self), reapply, running, has_resolution),
            *final(self) == after_counters(*old(self), fullscreen, reapply, has_resolution),
    {
        if fullscreen > self.fullscreen_seen {
            self.fullscreen_seen = fullscreen;
            if has_resolution {
                self.fullscreen_notice = true;
            }
        }
        if reapply > self.reapply_seen {
            self.reapply_seen = reapply;
            if running {
                return if has_resolution {
                    Reapply::Apply
                } else {
                    Reapply::Clear
                };
            }
        }
        Reapply::Nothing
    }
}

// ---------------------------------------------------------------------------------------
// The window under capture

/// Whether the window in front may become the target: never during a capture, and otherwise
/// whatever rights it has. A start asks about those.
pub fn may_follow_foreground_target(running: bool, _own_elevated: bool, _candidate_elevated: Option<bool>) -> (r: bool)
    ensures
        r == !running,
{
    !running
}

/// What is known of the window in front.
#[derive(Clone, Copy, Debug, PartialEq, Eq, Structural)]
pub struct ForegroundFacts {
    pub hwnd: isize,
    pub own: bool,
    pub valid: bool,
    pub minimized: bool,
    /// A window of the desktop itself.
    pub system: bool,
    pub has_title: bool,
}

/// The window in front becomes the target: nothing runs, and it is one that can be captured.
pub open spec fn takes_front(running: bool, front: ForegroundFacts) -> bool {
    !running && front.hwnd != 0 && !front.own && front.valid && !front.minimized && !front.system && front.has_title
}

/// Whether a round takes the window in front, with its title; the one that is the target already
/// is taken again, since its title may be another by now.
pub fn follows_front(running: bool, front: ForegroundFacts) -> (r: bool)
    ensures
        r == (!running && front.hwnd != 0 && !front.own && front.valid && !front.minimized && !front.system
            && front.has_title),
        r == takes_front(running, front),
{
    may_follow_foreground_target(running, false, None) && front.hwnd != 0 && !front.own && front.valid
        && !front.minimized && !front.system && front.has_title
}

/// The target's title after a round: that of the window in front, where that is taken.
pub fn followed_title(running: bool, title: String, front: ForegroundFacts, front_title: &str) -> (r: String)
    ensures
        r@ == (if takes_front(running, front) {
            front_title@
        } else {
            title@
        }),
{
    if follows_front(running, front) {
        front_title.to_owned()
    } else {
        title
    }
}

/// The target after a round: the window in front, where it is one that can be captured.
pub fn followed_target(running: bool, target: isize, front: ForegroundFacts) -> (r: isize)
    ensures
        r == (if takes_front(running, front) {
            front.hwnd
        } else {
            target
        }),
        running ==> r == target,
{
    if follows_front(running, front) {
        front.hwnd
    } else {
        target
    }
}

// ---------------------------------------------------------------------------------------
// The main window's hit testing

/// What the main window is told of the pointer, let it through or not: the wish, where it is new
/// or the window does otherwise.
pub open spec fn passthrough_due(applied: Option<bool>, wanted: bool, gui: isize, native: bool) -> Option<bool> {
    if applied != Some(wanted) || (gui != 0 && native != wanted) {
        Some(wanted)
    } else {
        None
    }
}

/// Tells the main window where it is due, and keeps what it was told.
pub fn passthrough_command(applied: &mut Option<bool>, wanted: bool, gui: isize, native: bool) -> (r: Option<bool>)
    ensures
        r == passthrough_due(*old(applied), wanted, gui, native),
        *final(applied) == Some(wanted),
{
    let matches_native = gui == 0 || native == wanted;
    if *applied != Some(wanted) || !matches_native {
        *applied = Some(wanted);
        Some(wanted)
    } else {
        None
    }
}

/// The windows of a notice are kept above all others; where it is not topmost yet it is made so.
pub fn keep_notice_on_top(notice: WindowFacts, is_topmost: bool) -> (actions: Vec<Action>)
    ensures
        ({
            let there = notice.handle != 0 && notice.valid;
            actions@ == provided(there && !is_topmost, Action::SetTopmost { window: notice.handle, on: true })
                + provided(there, Action::Raise { window: notice.handle })
        }),
{
    let there = notice.handle != 0 && notice.valid;
    let mut actions: Vec<Action> = Vec::new();
    push_if(&mut actions, there && !is_topmost, Action::SetTopmost { window: notice.handle, on: true });
    push_if(&mut actions, there, Action::Raise { window: notice.handle });
    proof {
        assert(actions@ =~= provided(there && !is_topmost, Action::SetTopmost { window: notice.handle, on: true })
            + provided(there, Action::Raise { window: notice.handle }));
    }
    actions
}

// ---------------------------------------------------------------------------------------
// What keeping house is for

/// While a capture runs the windows are put in their order in every round, and the cursor above
/// them, where the main window is topmost; the style is touched only where it is lost or left over;
/// and the engine always hears which area stays with the window.
pub proof fn the_order_is_kept_in_every_round(
    running: bool,
    gui_topmost: bool,
    gui: GuiFacts,
    panel: isize,
    overlay: isize,
    a: Action,
)
    ensures
        ({
            let there = running && gui.hwnd != 0 && gui.valid && !gui.minimized;
            let area = if there && gui_topmost {
                gui.rect
            } else {
                None
            };
            order_actions(running, gui_topmost, gui, panel, overlay).contains(a) <==> (there && gui_topmost
                && !gui.is_topmost && a == (Action::SetTopmost { window: gui.hwnd, on: true })) || (there && gui_topmost && a
                == (Action::NormalizeStack { gui: gui.hwnd, gui_topmost: true, panel, overlay })) || (there && gui_topmost
                && a == Action::KeepCursorOnTop) || (there && !gui_topmost && gui.is_topmost && a == (Action::SetTopmost {
                window: gui.hwnd,
                on: false,
            })) || a == (Action::SendNoEngage { zone: area })
        }),
        order_actions(running, gui_topmost, gui, panel, overlay).last() == (Action::SendNoEngage {
            zone: no_engage_zone(running, gui_topmost, gui),
        }),
{
    broadcast use
        crate::actions::an_appended_action_is_there_when_it_should_be,
        crate::actions::an_empty_list_has_no_action;

}

/// The area that stays with the window is the window's own, while it is topmost above a capture.
pub proof fn the_windows_own_area_stays_with_it(running: bool, gui_topmost: bool, gui: GuiFacts)
    ensures
        running && gui_topmost && gui.hwnd != 0 && gui.valid && !gui.minimized ==> no_engage_zone(
            running,
            gui_topmost,
            gui,
        ) == gui.rect,
        !running || !gui_topmost || gui.hwnd == 0 || !gui.valid || gui.minimized ==> no_engage_zone(
            running,
            gui_topmost,
            gui,
        ) is None,
{
}

/// Rounds come twelve times a second while a capture runs and four times otherwise, and the first
/// at once.
pub proof fn rounds_keep_their_pace(last: Option<u64>, running: bool, now: u64)
    ensures
        last is None ==> round_due(last, running, now),
        last matches Some(l) ==> (running ==> (round_due(last, running, now) <==> now - l >= 80_000_000)),
        last matches Some(l) ==> (!running ==> (round_due(last, running, now) <==> now - l >= 250_000_000)),
{
}

/// The main window is told of the pointer when the wish is new or it does otherwise, and told just
/// the wish.
pub proof fn the_window_is_told_the_wish(applied: Option<bool>, wanted: bool, gui: isize, native: bool)
    ensures
        passthrough_due(applied, wanted, gui, native) is Some <==> applied != Some(wanted) || (gui != 0 && native
            != wanted),
        passthrough_due(applied, wanted, gui, native) matches Some(told) ==> told == wanted,
{
}

/// The target follows the window in front only while nothing runs, and only to one that can be
/// captured: there, of another program, not minimized, not of the desktop, and with a title.
pub proof fn only_a_window_that_can_be_captured_is_followed(running: bool, front: ForegroundFacts)
    ensures
        takes_front(running, front) ==> !running && front.hwnd != 0 && !front.own && front.valid && !front.minimized
            && !front.system && front.has_title,
        !running && front.hwnd != 0 && !front.own && front.valid && !front.minimized && !front.system && front.has_title
            ==> takes_front(running, front),
{
}

/// A start that was asked for from outside comes with the first round and with no other, and a
/// round begins the pause before the next.
pub proof fn a_start_from_outside_comes_once(poll: Poll, running: bool, now: u64)
    ensures
        poll.last is None ==> round_due(poll.last, running, now),
        !round_due(poll.last, running, now) ==> after_begin(poll, running, now) == poll,
        round_due(poll.last, running, now) ==> {
            let next = after_begin(poll, running, now);
            &&& !next.auto_start
            &&& next.last == Some(now)
            &&& !round_due(next.last, running, now)
            &&& next.fullscreen_seen == poll.fullscreen_seen && next.reapply_seen == poll.reapply_seen
            &&& next.fullscreen_notice == poll.fullscreen_notice
        },
{
}

/// Each count of the engine is answered once: a new one opens the notice, or asks for the size to
/// be applied again or taken off during a capture; the same count, and a smaller one, does nothing.
pub proof fn counts_are_answered_once(poll: Poll, fullscreen: u64, reapply: u64, running: bool, has_resolution: bool)
    ensures
        ({
            let next = after_counters(poll, fullscreen, reapply, has_resolution);
            &&& next.fullscreen_seen >= fullscreen && next.fullscreen_seen >= poll.fullscreen_seen
            &&& next.fullscreen_seen == fullscreen || next.fullscreen_seen == poll.fullscreen_seen
            &&& next.reapply_seen >= reapply && next.reapply_seen >= poll.reapply_seen
            &&& next.reapply_seen == reapply || next.reapply_seen == poll.reapply_seen
            &&& next.last == poll.last && next.auto_start == poll.auto_start
            &&& next.fullscreen_notice <==> poll.fullscreen_notice || (has_resolution && fullscreen
                > poll.fullscreen_seen)
            &&& reapply_wanted(next, reapply, running, has_resolution) == Reapply::Nothing
            &&& after_counters(next, fullscreen, reapply, has_resolution) == next
        }),
        reapply_wanted(poll, reapply, running, has_resolution) == Reapply::Apply <==> reapply > poll.reapply_seen
            && running && has_resolution,
        reapply_wanted(poll, reapply, running, has_resolution) == Reapply::Clear <==> reapply > poll.reapply_seen
            && running && !has_resolution,
{
}

} // verus!
