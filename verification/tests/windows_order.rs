use chidescaler_neo::actions::{rect_contains, Action, Point, Rect, WindowFacts};
use chidescaler_neo::anchor::{
    anchor_active, anchor_after_frame, anchor_rect, current_anchor, finish_anchor, letting_go_may_commit, prepare_anchor, settle_anchor,
    withdraw_anchor, AnchorPlace,
};
use chidescaler_neo::dialogs::{
    dialog_after_frame, dialog_size, dialog_window, edit_resize_scale, elevated_notice, keep_dialog_in_reach, mini_dialog,
    relaunch_as_admin, restart_failed_phrase, wish_for_rights, within_monitor, DialogKind, DialogRequests, ElevatedOutcome, ResizeEditor,
};
use chidescaler_neo::chain::{append_filter_stage, StageKind, StageSpec, RESIZE_SCALE_MAX};
use chidescaler_neo::housekeeping::{
    followed_target, followed_title, follows_front, keep_notice_on_top, keep_order, may_follow_foreground_target, no_engage, passthrough_command,
    ForegroundFacts, GuiFacts, Poll, Reapply, POLL_IDLE_NS, POLL_RUNNING_NS,
};
use chidescaler_neo::layout::UiMode;
use chidescaler_neo::redraw::{GateEvent, GuiCaptionDragRedrawGate, DRAG_REDRAW_NS};
use chidescaler_neo::topmost::{after_turn_on, GuiTopmost, StackFacts, ToggleDecision};
use chidescaler_neo::transition::{
    after_uncloak, commit_pending_ui_mode_if_ready, full_resize_step, may_switch, prepare_ui_mode_switch, FullResize,
    TransitionStep, WindowSize, LOOK_NS, RESIZE_TIMEOUT_NS, SHIELD_HOLD_NS, UNCLOAK_RETRY_NS,
};

const GUI: isize = 1;
const OVERLAY: isize = 2;
const PANEL: isize = 3;
const ANCHOR: isize = 4;

fn window(handle: isize) -> WindowFacts {
    WindowFacts { handle, valid: true, own: true, visible: true }
}

fn stack() -> StackFacts {
    StackFacts {
        running: true,
        stopping: false,
        panel_visible: true,
        panel_show: true,
        gui: window(GUI),
        overlay: window(OVERLAY),
        panel: window(PANEL),
        anchor: window(ANCHOR),
    }
}

#[test]
fn gui_surfaces_use_autonovsync_and_sparse_caption_drag_redraws() {
    assert_eq!(DRAG_REDRAW_NS, 200_000_000);
    let mut gate = GuiCaptionDragRedrawGate::new();
    let start = 10_000_000_000;
    assert!(gate.root_drag_redraw_due(start));
    assert!(gate.window_event(7, GateEvent::Redraw, true, start));
    // During the drag the next drawing is put off until its time has come.
    assert!(!gate.root_drag_redraw_due(start + DRAG_REDRAW_NS - 1));
    assert!(!gate.window_event(7, GateEvent::Redraw, true, start + 1));
    assert!(gate.flush_deferred_redraws(true, start + 2).is_empty());
    assert!(gate.root_drag_redraw_due(start + DRAG_REDRAW_NS));
    assert_eq!(gate.flush_deferred_redraws(true, start + DRAG_REDRAW_NS), vec![7]);
}

#[test]
fn another_window_is_drawn_during_a_drag() {
    let mut gate = GuiCaptionDragRedrawGate::new();
    assert!(gate.window_event(7, GateEvent::Redraw, true, 1_000_000_000));
    assert!(gate.window_event(8, GateEvent::Redraw, true, 1_000_000_001));
    assert!(!gate.window_event(7, GateEvent::Redraw, true, 1_000_000_002));
    assert_eq!(gate.flush_deferred_redraws(false, 1_000_000_003), vec![7]);
    assert!(gate.flush_deferred_redraws(false, 1_000_000_004).is_empty());
}

#[test]
fn full_layout_shrink_uses_snapshot_guard_instead_of_uncovered_surface_shrink() {
    let large = WindowSize { w: 1000 * 1024, h: 900 * 1024 };
    let small = WindowSize { w: 900 * 1024, h: 800 * 1024 };
    // Shrinking is covered by a picture, growing is not.
    assert_eq!(
        full_resize_step(Some(1), 2, false, UiMode::Full, small, Some(large)),
        FullResize::Resize { cover: true }
    );
    assert_eq!(
        full_resize_step(Some(1), 2, false, UiMode::Full, large, Some(small)),
        FullResize::Resize { cover: false }
    );
    // Only the size changes; without the new size at the deadline the shrinking is given up.
    let p = prepare_ui_mode_switch(UiMode::Full, false, small, true, 5_000_000_000);
    assert!(!p.mode_change);
    let mut pending = Some(p);
    let step = commit_pending_ui_mode_if_ready(&mut pending, Some(large), GUI, 5_000_000_001);
    assert_eq!(step, TransitionStep::Wait { after: LOOK_NS });
    let step = commit_pending_ui_mode_if_ready(&mut pending, Some(large), GUI, 5_000_000_000 + RESIZE_TIMEOUT_NS);
    assert_eq!(step, TransitionStep::Cancel { shield: true });
    assert!(pending.is_none());
}

#[test]
fn a_layout_change_shows_the_new_layout_last() {
    let target = WindowSize { w: 900 * 1024, h: 800 * 1024 };
    assert!(may_switch(UiMode::Mini, None, UiMode::Full));
    assert!(!may_switch(UiMode::Full, None, UiMode::Full));
    let mut pending = Some(prepare_ui_mode_switch(UiMode::Full, true, target, true, 0));
    assert!(!may_switch(UiMode::Mini, pending, UiMode::Full));
    let step = commit_pending_ui_mode_if_ready(&mut pending, Some(target), GUI, 1);
    assert_eq!(step, TransitionStep::Commit { mode: Some(UiMode::Full) });
    for _ in 0..2 {
        let step = commit_pending_ui_mode_if_ready(&mut pending, Some(target), GUI, 2);
        assert_eq!(step, TransitionStep::Wait { after: LOOK_NS });
    }
    let step = commit_pending_ui_mode_if_ready(&mut pending, Some(target), GUI, 3);
    assert_eq!(step, TransitionStep::Wait { after: SHIELD_HOLD_NS - 2 });
    let step = commit_pending_ui_mode_if_ready(&mut pending, Some(target), GUI, 1 + SHIELD_HOLD_NS);
    assert_eq!(step, TransitionStep::Reveal { shield: true });
    let step = commit_pending_ui_mode_if_ready(&mut pending, Some(target), GUI, 1 + SHIELD_HOLD_NS);
    assert_eq!(step, TransitionStep::Idle);
}

#[test]
fn a_hidden_window_is_shown_before_a_change_ends() {
    let target = WindowSize { w: 1, h: 1 };
    let mut p = prepare_ui_mode_switch(UiMode::Full, true, target, false, 0);
    p.cloak_applied = true;
    p.mode_committed = true;
    let mut pending = Some(p);
    assert_eq!(commit_pending_ui_mode_if_ready(&mut pending, None, GUI, 9), TransitionStep::Uncloak);
    assert_eq!(after_uncloak(&mut pending, true, true), TransitionStep::Wait { after: UNCLOAK_RETRY_NS });
    assert!(pending.is_some());
    assert_eq!(after_uncloak(&mut pending, true, false), TransitionStep::Reveal { shield: false });
    assert!(pending.is_none());
}

fn requests() -> DialogRequests {
    DialogRequests {
        tensorrt: false,
        elevated: false,
        fullscreen_notice: false,
        resize_scale: false,
        hotkey: false,
        filter_picker: false,
        save_as: false,
        delete_preset: false,
    }
}

#[test]
fn mini_mode_routes_all_window_modals_through_one_dialog_host() {
    let none = requests();
    let cases = [
        (DialogRequests { tensorrt: true, ..none }, DialogKind::TensorRt),
        (DialogRequests { elevated: true, ..none }, DialogKind::Elevated),
        (DialogRequests { fullscreen_notice: true, ..none }, DialogKind::FullscreenCaptureNotice),
        (DialogRequests { resize_scale: true, ..none }, DialogKind::ResizeScale),
        (DialogRequests { hotkey: true, ..none }, DialogKind::Hotkey),
        (DialogRequests { filter_picker: true, ..none }, DialogKind::FilterPicker),
        (DialogRequests { save_as: true, ..none }, DialogKind::SaveAs),
        (DialogRequests { delete_preset: true, ..none }, DialogKind::DeletePreset),
    ];
    for (request, kind) in cases {
        assert_eq!(mini_dialog(UiMode::Mini, request), Some(kind));
        assert_eq!(mini_dialog(UiMode::Basic, request), None);
        let (w, h) = dialog_size(kind);
        assert!(w > 0 && h > 0);
    }
    assert_eq!(mini_dialog(UiMode::Mini, none), None);
    // One dialog at a time, the most urgent first.
    let two = DialogRequests { save_as: true, elevated: true, ..none };
    assert_eq!(mini_dialog(UiMode::Mini, two), Some(DialogKind::Elevated));
    // Its window takes the pointer and stays above the overlay.
    let actions = keep_dialog_in_reach(window(9), true, false, true, OVERLAY, false);
    assert!(actions.contains(&Action::SetTopmost { window: 9, on: true }));
    assert!(actions.contains(&Action::SetPassthrough { window: 9, on: false }));
}

#[test]
fn a_dialog_fits_on_the_monitor() {
    assert_eq!(within_monitor(430, 1920, 20, 200), 430);
    assert_eq!(within_monitor(430, 400, 20, 200), 380);
    assert_eq!(within_monitor(430, 100, 20, 200), 200);
    assert_eq!(dialog_window(window(9), None), (9, false));
    assert_eq!(dialog_window(WindowFacts { valid: false, ..window(9) }, Some(5)), (5, true));
    assert_eq!(dialog_after_frame(window(9)), 9);
    assert_eq!(dialog_after_frame(WindowFacts { valid: false, ..window(9) }), 0);
}

#[test]
fn the_scale_editor_applies_what_it_clamps() {
    let mut chain: Vec<StageSpec> = Vec::new();
    append_filter_stage(&mut chain, StageKind::Glsl, "shaders/Resize/Spline36_Neo.glsl".to_string());
    let editor = ResizeEditor { index: 0, scale: 0.75f32.to_bits() };
    let (open, changed) = edit_resize_scale(editor, 9.0f32.to_bits(), true, false, &mut chain);
    assert!(changed);
    assert!(open.is_none());
    assert_eq!(chain[0].param("RESIZE_SCALE"), Some(RESIZE_SCALE_MAX));
    let (open, changed) = edit_resize_scale(editor, 0.5f32.to_bits(), false, false, &mut chain);
    assert!(!changed);
    assert_eq!(open.map(|e| e.scale), Some(0.5f32.to_bits()));
}

#[test]
fn the_notice_of_an_elevated_target() {
    assert_eq!(elevated_notice(false, false, false), ElevatedOutcome::Stay);
    assert_eq!(elevated_notice(false, true, false), ElevatedOutcome::Closed);
    assert_eq!(elevated_notice(true, false, true), ElevatedOutcome::Restarted);
    assert_eq!(elevated_notice(true, false, false), ElevatedOutcome::RestartFailed);
    let mut wish = false;
    assert!(!wish_for_rights(&mut wish, false));
    assert!(!wish);
    assert!(wish_for_rights(&mut wish, true));
    assert!(wish);
    assert!(restart_failed_phrase().en.starts_with("Could not restart as administrator."));
    assert!(relaunch_as_admin(true, false, false));
    assert!(!relaunch_as_admin(true, true, false));
    assert!(!relaunch_as_admin(true, false, true));
}

#[test]
fn compositor_keepalive_is_separate_from_native_panel_and_off_only() {
    let facts = stack();
    // Only while the main window is not topmost, or about to let go.
    assert!(anchor_active(GuiTopmost::new(false), facts, false));
    assert!(!anchor_active(GuiTopmost::new(true), facts, false));
    let letting_go = GuiTopmost { off_pending: true, ..GuiTopmost::new(true) };
    assert!(anchor_active(letting_go, facts, false));
    // The overlay goes below the surface, and the surface takes the pointer as the panel does.
    let place = AnchorPlace {
        layered: true,
        rect: None,
        topmost: false,
        above_overlay: false,
        below_panel: false,
        visible: false,
    };
    let target = Rect { x: 1, y: 2, w: 3, h: 4 };
    let actions = prepare_anchor(facts, place, false, false, target);
    assert!(actions.contains(&Action::PlaceBelow { window: OVERLAY, above: ANCHOR }));
    assert!(!actions.iter().any(|a| matches!(a, Action::SetPassthrough { .. })));
    assert_eq!(actions.last(), Some(&Action::SetVisible { window: ANCHOR, on: true }));
    // The frame ends with the cursor above everything.
    assert_eq!(finish_anchor(false), vec![Action::KeepCursorOnTop]);
    assert_eq!(finish_anchor(true), vec![Action::SyncComposition, Action::KeepCursorOnTop]);
}

#[test]
fn a_surface_that_is_not_wanted_is_forgotten() {
    let rect = Some(Rect { x: 1, y: 2, w: 3, h: 4 });
    let gone = WindowFacts { valid: false, ..window(ANCHOR) };
    assert_eq!(anchor_after_frame(false, rect, window(ANCHOR), Some(9)), 0);
    assert_eq!(anchor_after_frame(true, rect, window(ANCHOR), Some(9)), ANCHOR);
    assert_eq!(anchor_after_frame(true, rect, gone, Some(9)), 9);
    assert_eq!(anchor_after_frame(true, rect, gone, None), 0);
    assert_eq!(anchor_after_frame(true, None, gone, Some(9)), ANCHOR);
}

#[test]
fn the_surface_lies_inside_the_panel() {
    let panel = Rect { x: 100, y: 50, w: 200, h: 40 };
    assert_eq!(anchor_rect(panel), Rect { x: 105, y: 55, w: 190, h: 30 });
    let chip = Rect { x: 0, y: 0, w: 10, h: 10 };
    assert_eq!(anchor_rect(chip), Rect { x: 1, y: 1, w: 8, h: 8 });
    assert_eq!(current_anchor(window(4), Some(9)), 4);
    assert_eq!(current_anchor(WindowFacts { valid: false, ..window(4) }, Some(9)), 9);
    assert_eq!(current_anchor(WindowFacts { valid: false, ..window(4) }, None), 0);
}

#[test]
fn letting_go_waits_for_the_surface() {
    let staged = GuiTopmost { off_pending: true, ..GuiTopmost::new(true) };
    let place = AnchorPlace {
        layered: false,
        rect: None,
        topmost: true,
        above_overlay: true,
        below_panel: true,
        visible: true,
    };
    assert!(letting_go_may_commit(staged, place, false, false));
    assert!(!letting_go_may_commit(staged, AnchorPlace { layered: true, ..place }, false, false));
    assert!(!letting_go_may_commit(staged, place, true, false));
    let opaque = settle_anchor(stack(), AnchorPlace { layered: true, ..place }, false, false);
    assert_eq!(opaque, vec![Action::SetOpaque { window: ANCHOR }, Action::SyncComposition]);
    let (commit, actions) = withdraw_anchor(staged, StackFacts { running: false, ..stack() });
    assert!(commit);
    assert_eq!(
        actions,
        vec![
            Action::SetVisible { window: ANCHOR, on: false },
            Action::SetTopmost { window: ANCHOR, on: false },
        ]
    );
}

#[test]
fn gui_topmost_off_cloaks_before_anchor_creation_and_retains_cloak_while_running() {
    let facts = stack();
    let mut gui = GuiTopmost::new(true);
    assert_eq!(gui.toggle_gui_topmost(facts), ToggleDecision::Stage);
    // The surface is wanted only from the staging on, and that is told of the hiding.
    assert!(!anchor_active(gui, facts, false));
    assert_eq!(gui.stage_off(true), vec![Action::SyncComposition]);
    assert!(gui.cloak_applied);
    assert!(gui.off_pending);
    assert!(anchor_active(gui, facts, false));
    // The window is not shown again while letting go is staged.
    assert!(gui.cloak_release_retry(false, facts.gui).is_empty());
    // It leaves its place while it is hidden, then the helpers are put in order; during the
    // capture it stays hidden.
    let (actions, uncloaked) = gui.commit_gui_topmost_off(facts);
    let position = |wanted: Action| actions.iter().position(|a| *a == wanted).expect("action");
    let demote = position(Action::SetTopmost { window: GUI, on: false });
    let restack = position(Action::RecommitOverlay { panel: 0, overlay: OVERLAY });
    let settled = position(Action::SyncComposition);
    assert!(demote < restack);
    assert!(restack < settled);
    assert!(!uncloaked);
    assert!(!actions.contains(&Action::SetCloaked { window: GUI, on: false }));
    assert!(gui.cloak_applied);
    // Taking hold again shows the window last.
    assert_eq!(gui.toggle_gui_topmost(facts), ToggleDecision::TurnOn);
    let (actions, uncloaked) = gui.turn_on(facts);
    assert!(uncloaked);
    assert_eq!(actions.last(), Some(&Action::SetCloaked { window: GUI, on: false }));
    gui.after_uncloak(false);
    assert!(!gui.cloak_applied);
}

#[test]
fn a_staged_letting_go_is_taken_back() {
    let mut gui = GuiTopmost::new(true);
    gui.stage_off(true);
    assert_eq!(gui.toggle_gui_topmost(stack()), ToggleDecision::Cancel);
    let actions = gui.cancel_off(window(GUI));
    assert_eq!(
        actions,
        vec![Action::SetCloaked { window: GUI, on: false }, Action::Raise { window: GUI }]
    );
    assert_eq!(gui, GuiTopmost::new(true));
}

#[test]
fn without_a_capture_the_window_lets_go_at_once() {
    let idle = StackFacts { running: false, ..stack() };
    let mut gui = GuiTopmost::new(true);
    assert_eq!(gui.toggle_gui_topmost(idle), ToggleDecision::CommitOff);
    let (actions, _) = gui.commit_gui_topmost_off(idle);
    assert_eq!(actions, vec![Action::SetTopmost { window: GUI, on: false }, Action::SaveSettings]);
    assert_eq!(gui.apply_setting(GUI), None);
    assert_eq!(gui.publish_priority(GUI), Some(Action::SendGuiPriority { gui: GUI, topmost: false }));
    assert_eq!(gui.publish_priority(GUI), None);
    assert!(!after_turn_on(window(GUI)).is_empty());
}

#[test]
fn foreground_target_is_pinned_during_capture() {
    assert!(!may_follow_foreground_target(true, false, Some(false)));
    assert!(!may_follow_foreground_target(true, true, Some(false)));
}

#[test]
fn elevated_foreground_can_be_selected_but_not_started_without_admin() {
    assert!(may_follow_foreground_target(false, false, Some(true)));
    assert!(may_follow_foreground_target(false, false, Some(false)));
    assert!(may_follow_foreground_target(false, true, Some(true)));
}

#[test]
fn the_target_follows_an_ordinary_window() {
    let front = ForegroundFacts { hwnd: 8, own: false, valid: true, minimized: false, system: false, has_title: true };
    assert_eq!(followed_target(false, 5, front), 8);
    assert_eq!(followed_target(true, 5, front), 5);
    // The title goes along, also where the window is the target already.
    assert!(follows_front(false, front));
    assert_eq!(followed_title(false, "old".into(), front, "new"), "new");
    assert_eq!(followed_target(false, 8, front), 8);
    assert!(!follows_front(true, front));
    assert_eq!(followed_title(true, "old".into(), front, "new"), "old");
    assert!(!follows_front(false, ForegroundFacts { minimized: true, ..front }));
    assert_eq!(followed_target(false, 5, ForegroundFacts { own: true, ..front }), 5);
    assert_eq!(followed_target(false, 5, ForegroundFacts { system: true, ..front }), 5);
    assert_eq!(followed_target(false, 5, ForegroundFacts { has_title: false, ..front }), 5);
}

#[test]
fn a_topmost_window_keeps_its_area() {
    let rect = Rect { x: 0, y: 0, w: 10, h: 10 };
    let gui = GuiFacts { hwnd: GUI, valid: true, minimized: false, is_topmost: true, rect: Some(rect) };
    assert_eq!(no_engage(true, true, gui), Action::SendNoEngage { zone: Some(rect) });
    assert_eq!(no_engage(true, false, gui), Action::SendNoEngage { zone: None });
    assert!(!keep_order(true, true, GuiFacts { is_topmost: false, ..gui }, PANEL, OVERLAY).is_empty());
    assert_eq!(keep_order(false, false, gui, PANEL, OVERLAY), vec![Action::SendNoEngage { zone: None }]);
    assert_eq!(
        keep_order(true, false, gui, PANEL, OVERLAY),
        vec![Action::SetTopmost { window: GUI, on: false }, Action::SendNoEngage { zone: None }]
    );
    assert!(rect_contains(rect, Point { x: 9, y: 0 }));
    assert!(!rect_contains(rect, Point { x: 10, y: 0 }));
}

#[test]
fn the_poll_has_its_pace() {
    let mut poll = Poll { last: None, auto_start: true, fullscreen_seen: 0, reapply_seen: 0, fullscreen_notice: false };
    let (due, auto_start) = poll.begin_round(false, 1_000_000_000);
    assert!(due && auto_start);
    let (due, auto_start) = poll.begin_round(false, 1_000_000_000 + POLL_IDLE_NS - 1);
    assert!(!due && !auto_start);
    let (due, _) = poll.begin_round(true, 1_000_000_000 + POLL_RUNNING_NS);
    assert!(due);
    assert_eq!(poll.on_counters(1, 0, true, true), Reapply::Nothing);
    assert!(poll.fullscreen_notice);
    assert_eq!(poll.on_counters(1, 1, true, true), Reapply::Apply);
    assert_eq!(poll.on_counters(1, 2, true, false), Reapply::Clear);
}

#[test]
fn a_stop_gives_the_pointer_back() {
    let mut state = GuiTopmost::new(true);
    state.cloak_applied = true;
    let mut applied = Some(false);
    assert_eq!(
        state.on_run_stop(window(GUI), &mut applied),
        vec![
            Action::SetCloaked { window: GUI, on: false },
            Action::Activate { window: GUI },
            Action::ReleaseInput,
            Action::SetPassthrough { window: GUI, on: false },
            Action::SendMousePassthrough { on: false },
            Action::Repaint,
            Action::RepaintAfterMs { ms: 50 },
        ]
    );
    assert_eq!(applied, None);
    assert_eq!(passthrough_command(&mut applied, false, GUI, false), Some(false));
    let mut kept = Some(true);
    assert_eq!(GuiTopmost::new(false).on_run_stop(window(0), &mut kept), vec![Action::ReleaseInput]);
    assert_eq!(kept, Some(true));
}

#[test]
fn the_pointer_passes_only_when_told() {
    let mut applied = None;
    assert_eq!(passthrough_command(&mut applied, true, GUI, false), Some(true));
    assert_eq!(applied, Some(true));
    assert_eq!(passthrough_command(&mut applied, true, GUI, true), None);
    assert_eq!(passthrough_command(&mut applied, true, GUI, false), Some(true));
    assert_eq!(passthrough_command(&mut applied, true, 0, false), None);
    assert!(keep_notice_on_top(window(6), true).is_empty() || !keep_notice_on_top(window(6), false).is_empty());
}
