//! Drawing while the main window is dragged by its caption. The compositor moves the picture
//! that is there; drawing a new one for every movement would take the adapter's time away from
//! the video. So the main window is drawn a few times a second, and what was put off is drawn
//! when the drag is over.
use vstd::prelude::*;

verus! {

/// The shortest time between two drawings during a drag, in nanoseconds.
pub const DRAG_REDRAW_NS: u64 = 200_000_000;

/// What happens to a window.
#[derive(Clone, Copy, Debug, PartialEq, Eq, Structural)]
pub enum GateEvent {
    Redraw,
    Destroyed,
    Other,
}

/// Stands before the windows and holds drawings back. Windows are known by a number.
pub struct GuiCaptionDragRedrawGate {
    /// The windows that wait to be drawn.
    pub deferred: Vec<u64>,
    pub root: Option<u64>,
    pub last_root_redraw: Option<u64>,
}

/// No window waits twice.
pub open spec fn no_repeats(windows: Seq<u64>) -> bool {
    forall|i: int, j: int| 0 <= i < j < windows.len() ==> windows[i] != windows[j]
}

pub open spec fn waiting(gate: GuiCaptionDragRedrawGate) -> Set<u64> {
    gate.deferred@.to_set()
}

/// The root may be drawn during a drag.
pub open spec fn is_due(last: Option<u64>, now: u64) -> bool {
    last matches Some(last) ==> now - last >= DRAG_REDRAW_NS
}

/// The first window that has an event is the root.
pub open spec fn root_after(root: Option<u64>, window: u64) -> u64 {
    match root {
        Some(root) => root,
        None => window,
    }
}

/// The event is put off.
pub open spec fn is_put_off(
    gate: GuiCaptionDragRedrawGate,
    window: u64,
    event: GateEvent,
    dragging: bool,
    now: u64,
) -> bool {
    window == root_after(gate.root, window) && event == GateEvent::Redraw && dragging && !is_due(
        gate.last_root_redraw,
        now,
    )
}

/// The event is a drawing of the root during a drag.
pub open spec fn is_gated(gate: GuiCaptionDragRedrawGate, window: u64, event: GateEvent, dragging: bool) -> bool {
    window == root_after(gate.root, window) && event == GateEvent::Redraw && dragging
}

/// The windows that wait after an event.
pub open spec fn waiting_after(
    gate: GuiCaptionDragRedrawGate,
    window: u64,
    event: GateEvent,
    dragging: bool,
    now: u64,
) -> Set<u64> {
    if !is_gated(gate, window, event, dragging) {
        waiting(gate)
    } else if is_put_off(gate, window, event, dragging, now) {
        waiting(gate).insert(window)
    } else {
        waiting(gate).remove(window)
    }
}

/// When the root was last drawn during a drag, after an event.
pub open spec fn last_after(
    gate: GuiCaptionDragRedrawGate,
    window: u64,
    event: GateEvent,
    dragging: bool,
    now: u64,
) -> Option<u64> {
    if is_gated(gate, window, event, dragging) && !is_put_off(gate, window, event, dragging, now) {
        Some(now)
    } else {
        gate.last_root_redraw
    }
}

/// The windows that are drawn when it is looked after those that wait.
pub open spec fn drawn_now(gate: GuiCaptionDragRedrawGate, dragging: bool, now: u64) -> Set<u64> {
    if !dragging {
        waiting(gate)
    } else {
        waiting(gate).filter(|w: u64| gate.root == Some(w) && is_due(gate.last_root_redraw, now))
    }
}

impl GuiCaptionDragRedrawGate {
    /// Nothing waits and no window is known.
    pub fn new() -> (gate: Self)
        ensures
            gate.deferred@.len() == 0,
            gate.root is None,
            gate.last_root_redraw is None,
    {
        GuiCaptionDragRedrawGate { deferred: Vec::new(), root: None, last_root_redraw: None }
    }

    fn position(&self, window: u64) -> (r: Option<usize>)
        requires
            no_repeats(self.deferred@),
        ensures
            match r {
                Some(i) => i < self.deferred@.len() && self.deferred@[i as int] == window,
                None => !waiting(*self).contains(window),
            },
    {
        let mut i: usize = 0;
        while i < self.deferred.len()
            invariant
                i <= self.deferred@.len(),
                forall|j: int| 0 <= j < i ==> self.deferred@[j] != window,
            decreases self.deferred@.len() - i,
        {
            if self.deferred[i] == window {
                return Some(i);
            }
            i += 1;
        }
        None
    }

    fn forget(&mut self, window: u64)
        requires
            no_repeats(old(self).deferred@),
        ensures
            no_repeats(final(self).deferred@),
            waiting(*final(self)) =~= waiting(*old(self)).remove(window),
            final(self).root == old(self).root,
            final(self).last_root_redraw == old(self).last_root_redraw,
    {
        if let Some(i) = self.position(window) {
            let ghost before = self.deferred@;
            let _ = self.deferred.remove(i);
            proof {
                let after = self.deferred@;
                assert(after =~= before.remove(i as int));
                assert forall|w: u64| after.contains(w) implies before.contains(w) && w != window by {
                    let j = choose|j: int| 0 <= j < after.len() && after[j] == w;
                    let k = if j < i {
                        j
                    } else {
                        j + 1
                    };
                    assert(before[k] == w);
                }
                assert forall|w: u64| before.contains(w) && w != window implies after.contains(w) by {
                    let j = choose|j: int| 0 <= j < before.len() && before[j] == w;
                    let k = if j < i {
                        j
                    } else {
                        j - 1
                    };
                    assert(after[k] == w);
                }
            }
        }
    }

    fn remember(&mut self, window: u64)
        requires
            no_repeats(old(self).deferred@),
        ensures
            no_repeats(final(self).deferred@),
            waiting(*final(self)) =~= waiting(*old(self)).insert(window),
            final(self).root == old(self).root,
            final(self).last_root_redraw == old(self).last_root_redraw,
    {
        if self.position(window).is_none() {
            let ghost before = self.deferred@;
            self.deferred.push(window);
            proof {
                let after = self.deferred@;
                assert forall|i: int, j: int| 0 <= i < j < after.len() implies after[i] != after[j] by {
                    if j == before.len() {
                        assert(before.contains(before[i]));
                        assert(before.to_set().contains(before[i]));
                    }
                }
                assert forall|w: u64| before.contains(w) || w == window implies after.contains(w) by {
                    if w == window {
                        assert(after[before.len() as int] == w);
                    } else {
                        let j = choose|j: int| 0 <= j < before.len() && before[j] == w;
                        assert(after[j] == w);
                    }
                }
                assert forall|w: u64| after.contains(w) implies before.contains(w) || w == window by {
                    let j = choose|j: int| 0 <= j < after.len() && after[j] == w;
                    if j < before.len() {
                        assert(before[j] == w);
                    }
                }
            }
        } else {
            proof {
                assert(self.deferred@.contains(window));
            }
        }
    }

    /// Takes an event; `true` hands it on. During a drag the root is drawn only when its time
    /// has come, and waits otherwise. A drag is asked about only for a drawing of the root.
    pub fn window_event(&mut self, window: u64, event: GateEvent, dragging: bool, now: u64) -> (hand_on: bool)
        requires
            no_repeats(old(self).deferred@),
        ensures
            no_repeats(final(self).deferred@),
            final(self).root == Some(root_after(old(self).root, window)),
            hand_on == !is_put_off(*old(self), window, event, dragging, now),
            waiting(*final(self)) =~= waiting_after(*old(self), window, event, dragging, now),
            final(self).last_root_redraw == last_after(*old(self), window, event, dragging, now),
    {
        let root: u64 = match self.root {
            Some(root) => root,
            None => window,
        };
        self.root = Some(root);
        if window == root && event == GateEvent::Redraw && dragging {
            if self.root_drag_redraw_due(now) {
                self.forget(window);
                self.last_root_redraw = Some(now);
            } else {
                self.remember(window);
                return false;
            }
        }
        true
    }

    /// Whether the root may be drawn during a drag.
    pub fn root_drag_redraw_due(&self, now: u64) -> (r: bool)
        ensures
            r == is_due(self.last_root_redraw, now),
    {
        match self.last_root_redraw {
            None => true,
            Some(last) => now >= last && now - last >= DRAG_REDRAW_NS,
        }
    }

    /// What follows an event that was handed on: a window that is gone waits no more.
    pub fn after_event(&mut self, window: u64, event: GateEvent)
        requires
            no_repeats(old(self).deferred@),
        ensures
            no_repeats(final(self).deferred@),
            waiting(*final(self)) =~= (if event == GateEvent::Destroyed {
                waiting(*old(self)).remove(window)
            } else {
                waiting(*old(self))
            }),
            final(self).root == old(self).root,
            final(self).last_root_redraw == old(self).last_root_redraw,
    {
        if event == GateEvent::Destroyed {
            self.forget(window);
        }
    }

    /// The windows that are drawn now: during a drag the root alone, when its time has come,
    /// and otherwise every window that waits.
    pub fn flush_deferred_redraws(&mut self, dragging: bool, now: u64) -> (windows: Vec<u64>)
        requires
            no_repeats(old(self).deferred@),
        ensures
            no_repeats(final(self).deferred@),
            no_repeats(windows@),
            final(self).root == old(self).root,
            windows@.to_set() =~= drawn_now(*old(self), dragging, now),
            waiting(*final(self)) =~= waiting(*old(self)).difference(drawn_now(*old(self), dragging, now)),
            ({
                let root_drawn = old(self).root matches Some(root) && waiting(*old(self)).contains(root) && is_due(
                    old(self).last_root_redraw,
                    now,
                );
                if waiting(*old(self)) =~= Set::empty() {
                    windows@.len() == 0 && *final(self) == *old(self)
                } else if dragging {
                    if root_drawn {
                        windows@ == seq![old(self).root->0] && waiting(*final(self)) =~= waiting(*old(self)).remove(
                            old(self).root->0,
                        ) && final(self).last_root_redraw == Some(now)
                    } else {
                        windows@.len() == 0 && *final(self) == *old(self)
                    }
                } else {
                    windows@.to_set() =~= waiting(*old(self)) && waiting(*final(self)) =~= Set::empty()
                        && final(self).last_root_redraw is None
                }
            }),
    {
        let mut windows: Vec<u64> = Vec::new();
        if self.deferred.len() == 0 {
            proof {
                assert(waiting(*self) =~= Set::empty());
            }
            return windows;
        }
        proof {
            assert(self.deferred@.contains(self.deferred@[0]));
            assert(waiting(*self).contains(self.deferred@[0]));
        }
        if dragging {
            if let Some(root) = self.root {
                let waits = self.position(root);
                proof {
                    if let Some(i) = waits {
                        assert(self.deferred@.contains(self.deferred@[i as int]));
                    }
                }
                if waits.is_some() && self.root_drag_redraw_due(now) {
                    self.forget(root);
                    self.last_root_redraw = Some(now);
                    windows.push(root);
                    proof {
                        assert(windows@ =~= seq![root]);
                        assert(seq![root][0] == root);
                        assert(seq![root].to_set() =~= Set::empty().insert(root));
                    }
                }
            }
            return windows;
        }
        self.last_root_redraw = None;
        let ghost all = self.deferred@;
        let mut i: usize = 0;
        while i < self.deferred.len()
            invariant
                i <= self.deferred@.len(),
                self.deferred@ == all,
                windows@ == all.take(i as int),
                self.root == old(self).root,
                self.last_root_redraw is None,
            decreases self.deferred@.len() - i,
        {
            windows.push(self.deferred[i]);
            proof {
                assert(all.take(i + 1) =~= all.take(i as int).push(all[i as int]));
            }
            i += 1;
        }
        proof {
            assert(all.take(i as int) =~= all);
        }
        self.deferred = Vec::new();
        proof {
            assert(waiting(*self) =~= Set::empty());
        }
        windows
    }
}

/// Windows other than the root are never held back, and no event but a drawing is.
pub proof fn only_the_root_waits(
    gate: GuiCaptionDragRedrawGate,
    window: u64,
    event: GateEvent,
    dragging: bool,
    now: u64,
)
    ensures
        gate.root matches Some(root) && root != window ==> !is_put_off(gate, window, event, dragging, now),
        event != GateEvent::Redraw ==> !is_put_off(gate, window, event, dragging, now),
        !dragging ==> !is_put_off(gate, window, event, dragging, now),
{
}

/// Only a redraw of the root window waits, only while the window is dragged, and only when it was
/// drawn less than a fifth of a second ago.
pub proof fn a_redraw_waits_its_time(
    gate: GuiCaptionDragRedrawGate,
    window: u64,
    event: GateEvent,
    dragging: bool,
    now: u64,
)
    ensures
        is_put_off(gate, window, event, dragging, now) <==> event == GateEvent::Redraw && dragging && (gate.root is None
            || gate.root == Some(window)) && (gate.last_root_redraw matches Some(last) && now - last < 200_000_000),
        gate.last_root_redraw is None ==> is_due(gate.last_root_redraw, now),
{
}

/// The first window that is heard of is the root, and stays it.
pub proof fn the_first_window_is_the_root(root: Option<u64>, window: u64)
    ensures
        root is None ==> root_after(root, window) == window,
        root matches Some(first) ==> root_after(root, window) == first,
{
}

/// No drawing is lost: one that is put off waits, stays waiting whatever else happens to other
/// windows, and is made once its time has come or the drag is over; then it waits no more.
pub proof fn no_drawing_is_lost(
    gate: GuiCaptionDragRedrawGate,
    window: u64,
    event: GateEvent,
    dragging: bool,
    now: u64,
    w: u64,
)
    ensures
        is_put_off(gate, window, event, dragging, now) ==> waiting_after(gate, window, event, dragging, now).contains(
            window,
        ),
        w != window ==> waiting_after(gate, window, event, dragging, now).contains(w) == waiting(gate).contains(w),
        !dragging || event != GateEvent::Redraw ==> waiting_after(gate, window, event, dragging, now) == waiting(gate)
            && last_after(gate, window, event, dragging, now) == gate.last_root_redraw,
        waiting(gate).contains(w) ==> drawn_now(gate, false, now).contains(w),
        waiting(gate).contains(w) && gate.root == Some(w) && gate.last_root_redraw is None ==> drawn_now(
            gate,
            true,
            now,
        ).contains(w),
        waiting(gate).contains(w) && gate.root == Some(w) && (gate.last_root_redraw matches Some(last) && now - last
            >= 200_000_000) ==> drawn_now(gate, true, now).contains(w),
        drawn_now(gate, dragging, now).contains(w) ==> waiting(gate).contains(w),
        drawn_now(gate, true, now).contains(w) ==> gate.root == Some(w) && (gate.last_root_redraw matches Some(last)
            ==> now - last >= 200_000_000),
{
}

/// A drawing of the root that is made during a drag begins the pause before the next.
pub proof fn a_drawing_begins_the_pause(gate: GuiCaptionDragRedrawGate, window: u64, now: u64)
    requires
        gate.root is None || gate.root == Some(window),
    ensures
        !is_put_off(gate, window, GateEvent::Redraw, true, now) ==> last_after(
            gate,
            window,
            GateEvent::Redraw,
            true,
            now,
        ) == Some(now) && !waiting_after(gate, window, GateEvent::Redraw, true, now).contains(window),
        is_put_off(gate, window, GateEvent::Redraw, true, now) ==> last_after(
            gate,
            window,
            GateEvent::Redraw,
            true,
            now,
        ) == gate.last_root_redraw,
        !is_due(Some(now), now),
{
}

} // verus!
