//! Keeping the main window above all others, and letting go of it. Letting go while a capture
//! runs is staged: the window is hidden from the compositor first, and leaves the topmost band
//! only when the surface that keeps the compositor awake is in place.
use vstd::prelude::*;
use crate::housekeeping::passthrough_due;
use crate::actions::{Action, WindowFacts, is_live, live, precedes, provided, push_if};

verus! {

/// The main window's place.
#[derive(Clone, Copy, Debug, PartialEq, Eq, Structural)]
pub struct GuiTopmost {
    /// The setting.
    pub topmost: bool,
    /// Letting go is staged.
    pub off_pending: bool,
    /// The window is hidden from the compositor, and this is the reason.
    pub cloak_applied: bool,
    /// The place that the window was last given.
    pub applied: Option<bool>,
    /// What the engine was told of the window's place.
    pub priority_sent: Option<GuiPriority>,
}

/// The window's place, for the engine.
#[derive(Clone, Copy, Debug, PartialEq, Eq, Structural)]
pub struct GuiPriority {
    pub gui: isize,
    pub topmost: bool,
}

/// What is known of the windows. Only the handle and the validity of the main window matter.
#[derive(Clone, Copy, Debug, PartialEq, Eq, Structural)]
pub struct StackFacts {
    pub running: bool,
    pub stopping: bool,
    pub panel_visible: bool,
    pub panel_show: bool,
    pub gui: WindowFacts,
    pub overlay: WindowFacts,
    pub panel: WindowFacts,
    pub anchor: WindowFacts,
}

pub open spec fn gui_there(facts: StackFacts) -> bool {
    facts.gui.handle != 0 && facts.gui.valid
}

/// The compositor needs a surface of this process above the overlay once the main window is
/// gone.
pub open spec fn anchor_needed(facts: StackFacts) -> bool {
    facts.running && !facts.stopping && facts.overlay.handle != 0 && facts.overlay.valid && facts.panel_visible
        && facts.panel_show && is_live(facts.panel) && facts.panel.visible
}

/// What a toggle means.
#[derive(Clone, Copy, Debug, PartialEq, Eq, Structural)]
pub enum ToggleDecision {
    /// Letting go was staged and is taken back.
    Cancel,
    /// Hide the window, then wait for the surface.
    Stage,
    /// Let go at once.
    CommitOff,
    TurnOn,
}

pub open spec fn decision(state: GuiTopmost, facts: StackFacts) -> ToggleDecision {
    if state.off_pending {
        ToggleDecision::Cancel
    } else if !state.topmost {
        ToggleDecision::TurnOn
    } else if anchor_needed(facts) {
        ToggleDecision::Stage
    } else {
        ToggleDecision::CommitOff
    }
}

/// Whether the window stays hidden after letting go: while a capture shows its overlay.
pub open spec fn keeps_cloak(facts: StackFacts) -> bool {
    facts.running && !facts.stopping && is_live(facts.overlay)
}

pub open spec fn off_actions(state: GuiTopmost, facts: StackFacts) -> Seq<Action> {
    let there = gui_there(facts);
    let cloaked = there && state.cloak_applied;
    let restack = cloaked && is_live(facts.overlay);
    Seq::<Action>::empty() + provided(there, Action::SetTopmost { window: facts.gui.handle, on: false }) + provided(
        restack,
        Action::RecommitOverlay { panel: 0, overlay: facts.overlay.handle },
    ) + provided(restack && is_live(facts.anchor), Action::Raise { window: facts.anchor.handle }) + provided(
        restack && is_live(facts.panel) && facts.panel.visible,
        Action::Raise { window: facts.panel.handle },
    ) + provided(restack, Action::KeepCursorOnTop) + provided(cloaked, Action::SyncComposition) + provided(
        cloaked && !keeps_cloak(facts),
        Action::SetCloaked { window: facts.gui.handle, on: false },
    ) + provided(true, Action::SaveSettings)
}

pub open spec fn on_actions(state: GuiTopmost, facts: StackFacts) -> Seq<Action> {
    let there = gui_there(facts);
    let cloaked = there && state.cloak_applied;
    let restack = cloaked && is_live(facts.overlay);
    Seq::<Action>::empty() + provided(there, Action::SetTopmost { window: facts.gui.handle, on: true }) + provided(
        there,
        Action::Raise { window: facts.gui.handle },
    ) + provided(
        restack,
        Action::NormalizeStack {
            gui: facts.gui.handle,
            gui_topmost: true,
            panel: facts.panel.handle,
            overlay: facts.overlay.handle,
        },
    ) + provided(restack, Action::KeepCursorOnTop) + provided(cloaked, Action::SyncComposition) + provided(
        cloaked,
        Action::SetCloaked { window: facts.gui.handle, on: false },
    )
}

/// A staged letting go was taken back.
pub open spec fn cancelled(state: GuiTopmost) -> GuiTopmost {
    GuiTopmost { off_pending: false, cloak_applied: false, ..state }
}

/// Letting go is staged.
pub open spec fn staged(state: GuiTopmost, cloaked: bool) -> GuiTopmost {
    GuiTopmost { off_pending: true, cloak_applied: cloaked, ..state }
}

pub open spec fn let_go(state: GuiTopmost) -> GuiTopmost {
    GuiTopmost { topmost: false, off_pending: false, applied: Some(false), priority_sent: None, ..state }
}

pub open spec fn taken_hold(state: GuiTopmost) -> GuiTopmost {
    GuiTopmost { topmost: true, applied: Some(true), priority_sent: None, ..state }
}

pub open spec fn priority_action(state: GuiTopmost, gui: isize) -> Option<Action> {
    if state.priority_sent != Some((GuiPriority { gui, topmost: state.topmost })) {
        Some((Action::SendGuiPriority { gui, topmost: state.topmost }))
    } else {
        None
    }
}

pub open spec fn after_priority(state: GuiTopmost, gui: isize) -> GuiTopmost {
    GuiTopmost { priority_sent: Some(GuiPriority { gui, topmost: state.topmost }), ..state }
}

pub open spec fn setting_action(state: GuiTopmost, gui: isize) -> Option<Action> {
    if gui != 0 && state.applied != Some(state.topmost) {
        Some((Action::SetTopmost { window: gui, on: state.topmost }))
    } else {
        None
    }
}

pub open spec fn after_setting(state: GuiTopmost, gui: isize) -> GuiTopmost {
    if gui != 0 && state.applied != Some(state.topmost) {
        GuiTopmost { applied: Some(state.topmost), ..state }
    } else {
        state
    }
}

impl GuiTopmost {
    /// Whether the main window is topmost by the setting, and nothing is under way.
    pub fn new(topmost: bool) -> (state: Self)
        ensures
            state == (GuiTopmost {
                topmost,
                off_pending: false,
                cloak_applied: false,
                applied: None,
                priority_sent: None,
            }),
    {
        GuiTopmost { topmost, off_pending: false, cloak_applied: false, applied: None, priority_sent: None }
    }

    /// What a toggle means now.
    pub fn toggle_gui_topmost(&self, facts: StackFacts) -> (r: ToggleDecision)
        ensures
            r == decision(*self, facts),
    {
        if self.off_pending {
            ToggleDecision::Cancel
        } else if !self.topmost {
            ToggleDecision::TurnOn
        } else {
            let needed = facts.running && !facts.stopping && facts.overlay.handle != 0 && facts.overlay.valid
                && facts.panel_visible && facts.panel_show && live(facts.panel) && facts.panel.visible;
            if needed {
                ToggleDecision::Stage
            } else {
                ToggleDecision::CommitOff
            }
        }
    }

    /// Takes a staged letting go back: nothing but the hiding has happened yet.
    pub fn cancel_off(&mut self, gui: WindowFacts) -> (actions: Vec<Action>)
        ensures
            ({
                let hidden = old(self).cloak_applied && gui.handle != 0 && gui.valid;
                actions@ == provided(hidden, Action::SetCloaked { window: gui.handle, on: false }) + provided(
                    hidden,
                    Action::Raise { window: gui.handle },
                )
            }),
            *final(self) == cancelled(*old(self)),
    {
        let hidden = self.cloak_applied && gui.handle != 0 && gui.valid;
        let mut actions: Vec<Action> = Vec::new();
        push_if(&mut actions, hidden, Action::SetCloaked { window: gui.handle, on: false });
        push_if(&mut actions, hidden, Action::Raise { window: gui.handle });
        proof {
            assert(actions@ =~= provided(hidden, Action::SetCloaked { window: gui.handle, on: false }) + provided(
                hidden,
                Action::Raise { window: gui.handle },
            ));
        }
        self.off_pending = false;
        self.cloak_applied = false;
        actions
    }

    /// Stages letting go. `cloaked` says whether there is a window and it could be hidden.
    pub fn stage_off(&mut self, cloaked: bool) -> (actions: Vec<Action>)
        ensures
            actions@ == provided(cloaked, Action::SyncComposition),
            *final(self) == staged(*old(self), cloaked),
    {
        let mut actions: Vec<Action> = Vec::new();
        push_if(&mut actions, cloaked, Action::SyncComposition);
        proof {
            assert(actions@ =~= provided(cloaked, Action::SyncComposition));
        }
        self.off_pending = true;
        self.cloak_applied = cloaked;
        actions
    }

    /// Lets go. The flag says whether the window is shown again, so that it is to be asked
    /// afterwards whether it still is hidden.
    pub fn commit_gui_topmost_off(&mut self, facts: StackFacts) -> (r: (Vec<Action>, bool))
        ensures
            r.0@ == off_actions(*old(self), facts),
            r.1 == (gui_there(facts) && old(self).cloak_applied && !keeps_cloak(facts)),
            *final(self) == let_go(*old(self)),
    {
        let there = facts.gui.handle != 0 && facts.gui.valid;
        let cloaked = there && self.cloak_applied;
        let overlay_live = live(facts.overlay);
        let restack = cloaked && overlay_live;
        let uncloak = cloaked && !(facts.running && !facts.stopping && overlay_live);
        let mut actions: Vec<Action> = Vec::new();
        push_if(&mut actions, there, Action::SetTopmost { window: facts.gui.handle, on: false });
        push_if(
            &mut actions,
            restack,
            Action::RecommitOverlay { panel: 0, overlay: facts.overlay.handle },
        );
        push_if(&mut actions, restack && live(facts.anchor), Action::Raise { window: facts.anchor.handle });
        push_if(
            &mut actions,
            restack && live(facts.panel) && facts.panel.visible,
            Action::Raise { window: facts.panel.handle },
        );
        push_if(&mut actions, restack, Action::KeepCursorOnTop);
        push_if(&mut actions, cloaked, Action::SyncComposition);
        push_if(&mut actions, uncloak, Action::SetCloaked { window: facts.gui.handle, on: false });
        push_if(&mut actions, true, Action::SaveSettings);
        self.topmost = false;
        self.off_pending = false;
        self.applied = Some(false);
        self.priority_sent = None;
        (actions, uncloak)
    }

    /// Takes hold again: the window is put in its place before it is shown. The flag says
    /// whether the window was hidden, so that it is to be asked whether it still is.
    pub fn turn_on(&mut self, facts: StackFacts) -> (r: (Vec<Action>, bool))
        ensures
            r.0@ == on_actions(*old(self), facts),
            r.1 == (gui_there(facts) && old(self).cloak_applied),
            *final(self) == taken_hold(*old(self)),
    {
        let there = facts.gui.handle != 0 && facts.gui.valid;
        let cloaked = there && self.cloak_applied;
        let restack = cloaked && live(facts.overlay);
        let mut actions: Vec<Action> = Vec::new();
        push_if(&mut actions, there, Action::SetTopmost { window: facts.gui.handle, on: true });
        push_if(&mut actions, there, Action::Raise { window: facts.gui.handle });
        push_if(
            &mut actions,
            restack,
            Action::NormalizeStack {
                gui: facts.gui.handle,
                gui_topmost: true,
                panel: facts.panel.handle,
                overlay: facts.overlay.handle,
            },
        );
        push_if(&mut actions, restack, Action::KeepCursorOnTop);
        push_if(&mut actions, cloaked, Action::SyncComposition);
        push_if(&mut actions, cloaked, Action::SetCloaked { window: facts.gui.handle, on: false });
        self.topmost = true;
        self.applied = Some(true);
        self.priority_sent = None;
        (actions, cloaked)
    }

    /// Tells the engine the window's place, where it changed.
    pub fn publish_priority(&mut self, gui: isize) -> (action: Option<Action>)
        ensures
            action == priority_action(*old(self), gui),
            *final(self) == after_priority(*old(self), gui),
    {
        let priority = Some(GuiPriority { gui, topmost: self.topmost });
        if self.priority_sent == priority {
            return None;
        }
        self.priority_sent = priority;
        Some(Action::SendGuiPriority { gui, topmost: self.topmost })
    }

    /// Gives the window the place of the setting, where it has another one.
    pub fn apply_setting(&mut self, gui: isize) -> (action: Option<Action>)
        ensures
            action == setting_action(*old(self), gui),
            *final(self) == after_setting(*old(self), gui),
    {
        if gui == 0 || self.applied == Some(self.topmost) {
            return None;
        }
        self.applied = Some(self.topmost);
        Some(Action::SetTopmost { window: gui, on: self.topmost })
    }

    /// Remembers whether the window is still hidden after it was to be shown.
    pub fn after_uncloak(&mut self, still_cloaked: bool)
        ensures
            *final(self) == (GuiTopmost { cloak_applied: still_cloaked, ..*old(self) }),
    {
        self.cloak_applied = still_cloaked;
    }

    /// Whether showing the window is to be tried again: it is still hidden though the setting
    /// or the end of the capture wants it on the screen.
    pub fn cloak_release_retry(&self, running: bool, gui: WindowFacts) -> (actions: Vec<Action>)
        ensures
            actions@ == retry_actions(*self, running, gui),
    {
        let retry = self.cloak_applied && !self.off_pending && (self.topmost || !running) && gui.handle != 0
            && gui.valid;
        let mut actions: Vec<Action> = Vec::new();
        push_if(&mut actions, retry && self.topmost, Action::SetTopmost { window: gui.handle, on: true });
        push_if(&mut actions, retry && self.topmost, Action::Raise { window: gui.handle });
        push_if(&mut actions, retry, Action::SetCloaked { window: gui.handle, on: false });
        actions
    }

    /// The capture has ended: a window that was hidden on its account is shown, and takes the
    /// pointer again. What it was told of the pointer is forgotten, so that it is told once more.
    pub fn on_run_stop(&self, gui: WindowFacts, passthrough: &mut Option<bool>) -> (actions: Vec<Action>)
        ensures
            actions@ == stop_actions(*self, gui),
            *final(passthrough) == (if gui.handle != 0 && gui.valid {
                None
            } else {
                *old(passthrough)
            }),
    {
        let there = gui.handle != 0 && gui.valid;
        let mut actions: Vec<Action> = Vec::new();
        push_if(
            &mut actions,
            self.cloak_applied && there,
            Action::SetCloaked { window: gui.handle, on: false },
        );
        push_if(&mut actions, self.topmost && gui.handle != 0, Action::Activate { window: gui.handle });
        push_if(&mut actions, true, Action::ReleaseInput);
        push_if(&mut actions, there, Action::SetPassthrough { window: gui.handle, on: false });
        push_if(&mut actions, there, Action::SendMousePassthrough { on: false });
        push_if(&mut actions, there, Action::Repaint);
        push_if(&mut actions, there, Action::RepaintAfterMs { ms: 50 });
        if there {
            *passthrough = None;
        }
        actions
    }
}

/// What follows taking hold once the window is shown: it comes to the front, and the setting is
/// saved.
pub fn after_turn_on(gui: WindowFacts) -> (actions: Vec<Action>)
    ensures
        ({
            let there = gui.handle != 0 && gui.valid;
            actions@ == provided(there, Action::Activate { window: gui.handle }) + provided(
                there,
                Action::Raise { window: gui.handle },
            ) + provided(true, Action::SaveSettings)
        }),
{
    let there = gui.handle != 0 && gui.valid;
    let mut actions: Vec<Action> = Vec::new();
    push_if(&mut actions, there, Action::Activate { window: gui.handle });
    push_if(&mut actions, there, Action::Raise { window: gui.handle });
    push_if(&mut actions, true, Action::SaveSettings);
    proof {
        assert(actions@ =~= provided(there, Action::Activate { window: gui.handle }) + provided(
            there,
            Action::Raise { window: gui.handle },
        ) + provided(true, Action::SaveSettings));
    }
    actions
}

pub open spec fn retry_actions(state: GuiTopmost, running: bool, gui: WindowFacts) -> Seq<Action> {
    let retry = state.cloak_applied && !state.off_pending && (state.topmost || !running) && gui.handle != 0
        && gui.valid;
    Seq::<Action>::empty() + provided(
        retry && state.topmost,
        Action::SetTopmost { window: gui.handle, on: true },
    ) + provided(retry && state.topmost, Action::Raise { window: gui.handle }) + provided(
        retry,
        Action::SetCloaked { window: gui.handle, on: false },
    )
}

pub open spec fn stop_actions(state: GuiTopmost, gui: WindowFacts) -> Seq<Action> {
    let there = gui.handle != 0 && gui.valid;
    Seq::<Action>::empty() + provided(
        state.cloak_applied && there,
        Action::SetCloaked { window: gui.handle, on: false },
    ) + provided(state.topmost && gui.handle != 0, Action::Activate { window: gui.handle }) + provided(
        true,
        Action::ReleaseInput,
    ) + provided(there, Action::SetPassthrough { window: gui.handle, on: false }) + provided(
        there,
        Action::SendMousePassthrough { on: false },
    ) + provided(there, Action::Repaint) + provided(there, Action::RepaintAfterMs { ms: 50 })
}

/// The end of a capture frees the pointer: the grip on it is released, the main window takes it
/// in both ways that it can be told, and is told once more on the next frame that wants it so,
/// whatever it does by then.
pub proof fn a_stop_frees_the_pointer(state: GuiTopmost, gui: WindowFacts, native: bool)
    requires
        gui.handle != 0 && gui.valid,
    ensures
        stop_actions(state, gui).contains(Action::ReleaseInput),
        stop_actions(state, gui).contains(Action::SetPassthrough { window: gui.handle, on: false }),
        stop_actions(state, gui).contains(Action::SendMousePassthrough { on: false }),
        stop_actions(state, gui).last() == (Action::RepaintAfterMs { ms: 50 }),
        passthrough_due(None, false, gui.handle, native) == Some(false),
{
    let actions = stop_actions(state, gui);
    let n = actions.len() as int;
    assert(actions[n - 5] == Action::ReleaseInput);
    assert(actions[n - 4] == (Action::SetPassthrough { window: gui.handle, on: false }));
    assert(actions[n - 3] == (Action::SendMousePassthrough { on: false }));
}

/// Two toggles in a row, before the first is carried out, leave the setting as it was and the
/// window on the screen.
pub proof fn a_staged_letting_go_can_be_taken_back(state: GuiTopmost, facts: StackFacts, cloaked: bool)
    requires
        decision(state, facts) == ToggleDecision::Stage,
    ensures
        ({
            let staged = GuiTopmost { off_pending: true, cloak_applied: cloaked, ..state };
            &&& staged.topmost
            &&& decision(staged, facts) == ToggleDecision::Cancel
            &&& (GuiTopmost { off_pending: false, cloak_applied: false, ..staged }).topmost
        }),
{
}

/// Taking hold puts a hidden window in its place before it is shown, and it is shown whenever
/// it was hidden.
pub proof fn the_window_is_shown_in_its_place(state: GuiTopmost, facts: StackFacts)
    requires
        gui_there(facts),
        state.cloak_applied,
    ensures
        precedes(
            on_actions(state, facts),
            Action::SetTopmost { window: facts.gui.handle, on: true },
            Action::SetCloaked { window: facts.gui.handle, on: false },
        ),
        on_actions(state, facts).contains(Action::SetCloaked { window: facts.gui.handle, on: false }),
{
    let actions = on_actions(state, facts);
    assert(actions[0] == (Action::SetTopmost { window: facts.gui.handle, on: true }));
    assert(actions.last() == (Action::SetCloaked { window: facts.gui.handle, on: false }));
    assert(actions.len() > 1);
    assert(actions[actions.len() - 1] == actions.last());
}

/// While a capture shows its overlay, letting go never shows the main window again; and once
/// it may be shown, the other windows are in their order before.
pub proof fn letting_go_shows_no_flash(state: GuiTopmost, facts: StackFacts)
    ensures
        keeps_cloak(facts) ==> !off_actions(state, facts).contains(
            Action::SetCloaked { window: facts.gui.handle, on: false },
        ),
        gui_there(facts) ==> precedes(
            off_actions(state, facts),
            Action::SetTopmost { window: facts.gui.handle, on: false },
            Action::SetCloaked { window: facts.gui.handle, on: false },
        ),
{
    if gui_there(facts) {
        assert(off_actions(state, facts)[0] == (Action::SetTopmost { window: facts.gui.handle, on: false }));
    }
}

/// A window that the compositor keeps hidden against the wish is tried again until it is
/// shown, but never while letting go is staged, nor while the hiding is wanted.
pub proof fn hiding_is_undone_only_when_it_is_not_wanted(state: GuiTopmost, running: bool, gui: WindowFacts)
    ensures
        state.off_pending || (running && !state.topmost) ==> retry_actions(state, running, gui) =~= Seq::empty(),
        state.cloak_applied && !state.off_pending && (state.topmost || !running) && gui.handle != 0 && gui.valid
            ==> retry_actions(state, running, gui).last() == (Action::SetCloaked { window: gui.handle, on: false }),
{
}

// ---------------------------------------------------------------------------------------
// What letting go and taking hold are for

/// A toggle lets go of a window that is topmost and takes hold of one that is not; a letting go that
/// is staged is taken back; and it is staged exactly where a capture shows its overlay and the panel
/// lies over it.
pub proof fn a_toggle_changes_the_place(state: GuiTopmost, facts: StackFacts)
    ensures
        decision(state, facts) == ToggleDecision::Cancel <==> state.off_pending,
        decision(state, facts) == ToggleDecision::TurnOn <==> !state.off_pending && !state.topmost,
        decision(state, facts) == ToggleDecision::Stage <==> !state.off_pending && state.topmost && facts.running
            && !facts.stopping && facts.overlay.handle != 0 && facts.overlay.valid && facts.panel_visible
            && facts.panel_show && facts.panel.handle != 0 && facts.panel.valid && facts.panel.own
            && facts.panel.visible,
{
}

/// Letting go takes the window out of the topmost band and saves that; a hidden window's helpers
/// are put in their order again, the overlay below them all, and it is shown again only without a
/// capture.
pub proof fn letting_go_does_its_parts(state: GuiTopmost, facts: StackFacts, a: Action)
    ensures
        ({
            let there = facts.gui.handle != 0 && facts.gui.valid;
            let cloaked = there && state.cloak_applied;
            let overlay = facts.overlay.handle != 0 && facts.overlay.valid && facts.overlay.own;
            let keep = facts.running && !facts.stopping && overlay;
            off_actions(state, facts).contains(a) <==> (there && a == (Action::SetTopmost {
                window: facts.gui.handle,
                on: false,
            })) || (cloaked && overlay && a == (Action::RecommitOverlay { panel: 0, overlay: facts.overlay.handle })) || (
            cloaked && overlay && is_live(facts.anchor) && a == (Action::Raise { window: facts.anchor.handle })) || (cloaked
                && overlay && is_live(facts.panel) && facts.panel.visible && a == (Action::Raise {
                window: facts.panel.handle,
            })) || (cloaked && overlay && a == Action::KeepCursorOnTop) || (cloaked && a == Action::SyncComposition) || (
            cloaked && !keep && a == (Action::SetCloaked { window: facts.gui.handle, on: false })) || a
                == Action::SaveSettings
        }),
{
    broadcast use
        crate::actions::an_appended_action_is_there_when_it_should_be,
        crate::actions::an_empty_list_has_no_action;

}

/// With every helper there the order is fixed, from the bottom up: the window leaves its place, the
/// overlay is put back, then the surface, the panel and the cursor above it, and only then the
/// compositor is waited for.
pub proof fn letting_go_keeps_the_helpers_in_order(state: GuiTopmost, facts: StackFacts)
    requires
        facts.gui.handle != 0 && facts.gui.valid,
        state.cloak_applied,
        is_live(facts.overlay),
        is_live(facts.anchor),
        is_live(facts.panel) && facts.panel.visible,
    ensures
        off_actions(state, facts).take(6) == seq![
            Action::SetTopmost { window: facts.gui.handle, on: false },
            Action::RecommitOverlay { panel: 0, overlay: facts.overlay.handle },
            Action::Raise { window: facts.anchor.handle },
            Action::Raise { window: facts.panel.handle },
            Action::KeepCursorOnTop,
            Action::SyncComposition,
        ],
        off_actions(state, facts).last() == Action::SaveSettings,
        on_actions(state, facts) == seq![
            Action::SetTopmost { window: facts.gui.handle, on: true },
            Action::Raise { window: facts.gui.handle },
            Action::NormalizeStack {
                gui: facts.gui.handle,
                gui_topmost: true,
                panel: facts.panel.handle,
                overlay: facts.overlay.handle,
            },
            Action::KeepCursorOnTop,
            Action::SyncComposition,
            Action::SetCloaked { window: facts.gui.handle, on: false },
        ],
{
    assert(off_actions(state, facts).take(6) =~= seq![
        Action::SetTopmost { window: facts.gui.handle, on: false },
        Action::RecommitOverlay { panel: 0, overlay: facts.overlay.handle },
        Action::Raise { window: facts.anchor.handle },
        Action::Raise { window: facts.panel.handle },
        Action::KeepCursorOnTop,
        Action::SyncComposition,
    ]);
    assert(on_actions(state, facts) =~= seq![
        Action::SetTopmost { window: facts.gui.handle, on: true },
        Action::Raise { window: facts.gui.handle },
        Action::NormalizeStack {
            gui: facts.gui.handle,
            gui_topmost: true,
            panel: facts.panel.handle,
            overlay: facts.overlay.handle,
        },
        Action::KeepCursorOnTop,
        Action::SyncComposition,
        Action::SetCloaked { window: facts.gui.handle, on: false },
    ]);
}

/// Taking hold puts the window that is there into the topmost band and in front; a hidden one is
/// shown again, with the overlay's helpers put in order before.
pub proof fn taking_hold_does_its_parts(state: GuiTopmost, facts: StackFacts, a: Action)
    ensures
        ({
            let there = facts.gui.handle != 0 && facts.gui.valid;
            let cloaked = there && state.cloak_applied;
            let overlay = facts.overlay.handle != 0 && facts.overlay.valid && facts.overlay.own;
            on_actions(state, facts).contains(a) <==> (there && a == (Action::SetTopmost {
                window: facts.gui.handle,
                on: true,
            })) || (there && a == (Action::Raise { window: facts.gui.handle })) || (cloaked && overlay && a == (
            Action::NormalizeStack {
                gui: facts.gui.handle,
                gui_topmost: true,
                panel: facts.panel.handle,
                overlay: facts.overlay.handle,
            })) || (cloaked && overlay && a == Action::KeepCursorOnTop) || (cloaked && a == Action::SyncComposition) || (
            cloaked && a == (Action::SetCloaked { window: facts.gui.handle, on: false }))
        }),
{
    broadcast use
        crate::actions::an_appended_action_is_there_when_it_should_be,
        crate::actions::an_empty_list_has_no_action;

}

/// The end of a capture shows a window that was hidden on its account, gives a topmost one the
/// focus, frees the pointer and lets the window take it again.
pub proof fn the_end_of_a_capture_does_its_parts(state: GuiTopmost, gui: WindowFacts, a: Action)
    ensures
        ({
            let there = gui.handle != 0 && gui.valid;
            stop_actions(state, gui).contains(a) <==> (state.cloak_applied && there && a == (Action::SetCloaked {
                window: gui.handle,
                on: false,
            })) || (state.topmost && gui.handle != 0 && a == (Action::Activate { window: gui.handle })) || a
                == Action::ReleaseInput || (there && a == (Action::SetPassthrough { window: gui.handle, on: false })) || (
            there && a == (Action::SendMousePassthrough { on: false })) || (there && a == Action::Repaint) || (there && a
                == (Action::RepaintAfterMs { ms: 50 }))
        }),
        gui.handle != 0 && gui.valid && state.cloak_applied && state.topmost ==> stop_actions(state, gui).take(4) == seq![
            Action::SetCloaked { window: gui.handle, on: false },
            Action::Activate { window: gui.handle },
            Action::ReleaseInput,
            Action::SetPassthrough { window: gui.handle, on: false },
        ],
{
    broadcast use
        crate::actions::an_appended_action_is_there_when_it_should_be,
        crate::actions::an_empty_list_has_no_action;

    if gui.handle != 0 && gui.valid && state.cloak_applied && state.topmost {
        assert(stop_actions(state, gui).take(4) =~= seq![
            Action::SetCloaked { window: gui.handle, on: false },
            Action::Activate { window: gui.handle },
            Action::ReleaseInput,
            Action::SetPassthrough { window: gui.handle, on: false },
        ]);
    }
}

/// A window that is still hidden against the wish is put in its place and shown again.
pub proof fn showing_again_does_its_parts(state: GuiTopmost, running: bool, gui: WindowFacts, a: Action)
    ensures
        ({
            let retry = state.cloak_applied && !state.off_pending && (state.topmost || !running) && gui.handle != 0
                && gui.valid;
            retry_actions(state, running, gui).contains(a) <==> (retry && state.topmost && a == (Action::SetTopmost {
                window: gui.handle,
                on: true,
            })) || (retry && state.topmost && a == (Action::Raise { window: gui.handle })) || (retry && a == (
            Action::SetCloaked { window: gui.handle, on: false }))
        }),
{
    broadcast use
        crate::actions::an_appended_action_is_there_when_it_should_be,
        crate::actions::an_empty_list_has_no_action;

}

/// A letting go that is staged changes nothing of the window's place until it is carried out, and
/// one that is taken back leaves no trace; the next toggle takes it back.
pub proof fn staging_changes_no_place(state: GuiTopmost, cloaked: bool, facts: StackFacts)
    ensures
        staged(state, cloaked).topmost == state.topmost,
        staged(state, cloaked).applied == state.applied,
        staged(state, cloaked).priority_sent == state.priority_sent,
        staged(state, cloaked).cloak_applied == cloaked,
        decision(staged(state, cloaked), facts) == ToggleDecision::Cancel,
        !state.off_pending && !state.cloak_applied ==> cancelled(staged(state, cloaked)) == state,
{
}

/// Letting go and taking hold set the place of the window and need no further call for it; the
/// engine is told of the new place, once.
pub proof fn a_new_place_is_told_once(state: GuiTopmost, gui: isize, other: isize, facts: StackFacts)
    ensures
        !let_go(state).topmost && !let_go(state).off_pending,
        taken_hold(state).topmost,
        let_go(state).cloak_applied == state.cloak_applied && taken_hold(state).cloak_applied == state.cloak_applied,
        setting_action(let_go(state), gui) is None && setting_action(taken_hold(state), gui) is None,
        priority_action(let_go(state), gui) == Some((Action::SendGuiPriority { gui, topmost: false })),
        priority_action(taken_hold(state), gui) == Some((Action::SendGuiPriority { gui, topmost: true })),
        priority_action(after_priority(state, gui), gui) is None,
        other != gui ==> priority_action(after_priority(state, gui), other) == Some(
            (Action::SendGuiPriority { gui: other, topmost: state.topmost }),
        ),
        after_priority(state, gui).topmost == state.topmost && after_priority(state, gui).applied == state.applied,
        decision(let_go(state), facts) == ToggleDecision::TurnOn,
{
}

/// A window gets the place of the setting once it is there, and the call is made once.
pub proof fn the_setting_is_applied_once(state: GuiTopmost, gui: isize)
    ensures
        gui == 0 ==> setting_action(state, gui) is None && after_setting(state, gui) == state,
        gui != 0 && state.applied is None ==> setting_action(state, gui) == Some(
            (Action::SetTopmost { window: gui, on: state.topmost }),
        ),
        setting_action(state, gui) matches Some(a) ==> a == (Action::SetTopmost { window: gui, on: state.topmost }),
        setting_action(after_setting(state, gui), gui) is None,
        gui != 0 ==> after_setting(state, gui).applied == Some(state.topmost),
        after_setting(state, gui).topmost == state.topmost,
{
}

} // verus!
