use chidescaler_neo::actions::{Action, Point, Rect, Size, WindowFacts};
use chidescaler_neo::backend::CaptureCrop;
use chidescaler_neo::chain::{StageKind, StageSpec};
use chidescaler_neo::diagnostics::{
    panel_anomalies, AnchorState, AnchorWatch, PanelDiagSnapshot, PanelFrame, PanelWatch, HEARTBEAT_STALL_NS,
    PRESENT_STALL_NS, PRESENT_WARN_NS, TRACE_NS,
};
use chidescaler_neo::display::{
    choose_scale_mode, clamp_ratio, commit_ratio, ratio_digits, ratio_enabled, ratio_labels, ScaleMode, RATIO_MAX,
    RATIO_MIN,
};
use chidescaler_neo::gpu::GpuAdapter;
use chidescaler_neo::hotkey_dispatch::{BackgroundGui, HotkeyEvent};
use chidescaler_neo::hotkeys::{HK_GUI_TOPMOST, HK_PANEL, HK_QUIT, HK_TOGGLE};
use chidescaler_neo::panel::{
    apply_panel_action_state, mirror_hover_slot, panel_content_rect, panel_hover_offset, panel_hovered, panel_requests, Panel,
    PanelButton, PanelRun, PanelShape, RevealFacts, PANEL_LEAVE_NS, SCREENSHOT_FEEDBACK_NS,
};
use chidescaler_neo::presets::{AspectCorrection, AspectCorrectionMode};
use chidescaler_neo::resolution::{CaptureResolution, ResolutionPlan};
use chidescaler_neo::selection::GpuChoice;
use chidescaler_neo::session::{
    after_start_resolution, autohide_delay, capture_busy, clamp_fps_cap, control_label, dispatch_capture_stop_known, dispatch_toggle_hotkey,
    drain_hotkeys, effective_client_only, keyboard_activation, main_actions, main_control_mode,
    overload_notice_on_overlay, overload_step, request_capture_start, should_dispatch_panel_stop, shows_running,
    start, start_error_phrase, start_gate, start_is_ready, start_resolution, start_target, Busy, EngineCommand, MainControl, NoticeFacts,
    OcclusionNotice, OverloadStep, QueuedCommand, SessionClock, SourceOrigin, StartError, StartGate, StartSettings,
    StartStep, StopOutcome, ToggleOutcome,
    MAX_FPS_CAP, OCCLUSION_NOTICE_NS, OVERLOAD_LOOK_NS, PRESS_FEEDBACK_NS,
};

const IDLE: Busy = Busy { starting: false, running: false, stopping: false, preparing: false };
const RUNNING: Busy = Busy { starting: false, running: true, stopping: false, preparing: false };

fn window(handle: isize) -> WindowFacts {
    WindowFacts { handle, valid: true, own: true, visible: true }
}

#[test]
fn fps_cap_ui_reaches_native_240fps_limit() {
    assert_eq!(MAX_FPS_CAP, 240);
    assert_eq!(clamp_fps_cap(1000), 240);
    assert_eq!(clamp_fps_cap(1), 5);
    assert_eq!(clamp_fps_cap(60), 60);
}

#[test]
fn panel_collapse_stays_lurking_chip() {
    let mut chip_lurking = false;
    let mut bar_shown = true;
    let mut leave_at = Some(123);
    apply_panel_action_state(
        &mut chip_lurking,
        &mut bar_shown,
        &mut leave_at,
        true,
        false,
    );
    assert!(chip_lurking);
    assert!(!bar_shown);
    assert!(leave_at.is_none());
}

#[test]
fn panel_expand_pins_open_bar() {
    let mut chip_lurking = true;
    let mut bar_shown = false;
    let mut leave_at = Some(123);
    apply_panel_action_state(
        &mut chip_lurking,
        &mut bar_shown,
        &mut leave_at,
        false,
        true,
    );
    assert!(!chip_lurking);
    assert!(bar_shown);
    assert!(leave_at.is_none());
}

#[test]
fn panel_stop_is_idempotent_and_never_becomes_start() {
    assert!(should_dispatch_panel_stop(false, true, false, false));
    assert!(should_dispatch_panel_stop(true, false, false, false));
    assert!(should_dispatch_panel_stop(false, false, false, true));
    assert!(!should_dispatch_panel_stop(false, false, true, false));
    assert!(!should_dispatch_panel_stop(false, false, false, false));
    // The panel's button asks for a stop and for nothing else.
    let (actions, _) = panel_requests(true, false, false, false, RUNNING);
    assert_eq!(actions, vec![Action::RequestStop]);
    let (actions, _) = panel_requests(true, false, false, false, IDLE);
    assert!(actions.is_empty());
}

#[test]
fn capture_controls_do_not_use_ambiguous_toggle_for_stop() {
    // The button in the window, its key and the panel each ask for a stop by name: what is
    // running is stopped, and a stop that comes late starts nothing.
    assert_eq!(main_control_mode(false, RUNNING), MainControl::Stop);
    assert_eq!(main_actions(true, false, RUNNING, RUNNING), (true, false));
    assert_eq!(main_actions(true, false, IDLE, IDLE), (false, false));
    assert_eq!(keyboard_activation(RUNNING), MainControl::Stop);
    assert_eq!(keyboard_activation(Busy { stopping: true, ..RUNNING }), MainControl::Disabled);
    let (actions, _) = panel_requests(true, false, false, false, RUNNING);
    assert!(actions.contains(&Action::RequestStop));
    assert_eq!(dispatch_capture_stop_known(IDLE), StopOutcome::Idle);
    // The key that toggles is decided by what is going on.
    assert_eq!(dispatch_toggle_hotkey(RUNNING, 5, 0), ToggleOutcome::Stop);
}

fn event(id: i32, received_at: u64) -> HotkeyEvent {
    HotkeyEvent {
        id,
        binding: "Ctrl+Alt+Z".to_string(),
        received_at,
        handled_directly: false,
        background_gui: BackgroundGui::Foreground,
        foreground_hwnd: 0,
        cursor_target_hwnd: 0,
    }
}

#[test]
fn hotkey_trace_uses_configured_binding_and_idle_epoch() {
    let first = event(HK_TOGGLE, 100);
    assert_eq!(first.binding, "Ctrl+Alt+Z");
    // A key pressed before the capture ended starts no new one.
    assert_eq!(dispatch_toggle_hotkey(IDLE, 100, 100), ToggleOutcome::Stale);
    assert_eq!(dispatch_toggle_hotkey(IDLE, 101, 100), ToggleOutcome::Start);
    // Several presses in one batch are one.
    let commands = drain_hotkeys(&[first, event(HK_TOGGLE, 120), event(HK_TOGGLE, 140)], false);
    assert_eq!(commands, vec![QueuedCommand::Toggle { received_at: 100 }]);
}

#[test]
fn control_panel_uses_native_gdi_host_without_wgpu_child_viewport() {
    // The panel has one native window, which is adopted, drawn into, and shown or hidden.
    let mut panel = panel();
    panel.hwnd = 0;
    assert!(panel.adopt_host(Some(3)));
    assert_eq!(panel.hwnd, 3);
    assert!(!panel.adopt_host(Some(4)));
    panel.placed_for_run = true;
    let run = PanelRun { running: false, stopping: false, panel_show: true, overlay: 2 };
    let begin = panel.begin_frame(run, window(3), true);
    assert!(begin.done);
    assert!(begin.actions.contains(&Action::HidePanelMirror));
    assert!(begin.actions.contains(&Action::SetPanelHostVisible { panel: 3, on: false }));
    let drawn = panel.draw(true, reveal_facts(3));
    assert!(drawn.iter().any(|a| matches!(a, Action::UpdatePanelMirror { panel: 3, .. })));
}

#[test]
fn a_new_host_is_put_in_its_first_place() {
    let initial = Rect { x: 10, y: 20, w: 300, h: 40 };
    let mut panel = panel();
    panel.hwnd = 0;
    assert_eq!(panel.create_host(None, initial), None);
    assert_eq!(panel.create_host(Some(3), initial), Some(Action::SetRect { window: 3, rect: initial }));
    assert_eq!(panel.hwnd, 3);
    assert_eq!(panel.create_host(Some(4), initial), None);
    assert_eq!(panel.hwnd, 3);
}

#[test]
fn proven_glsl_overload_uses_bounded_grace_then_normal_stop() {
    assert_eq!(overload_step(RUNNING, Some(1_000), 1_000), OverloadStep::Stop);
    assert_eq!(
        overload_step(RUNNING, Some(7_000_000_000), 1_000_000_000),
        OverloadStep::LookAgain { after: OVERLOAD_LOOK_NS }
    );
    assert_eq!(overload_step(RUNNING, Some(1_000), 990), OverloadStep::LookAgain { after: 10 });
    assert_eq!(overload_step(RUNNING, None, 990), OverloadStep::Nothing);
    assert_eq!(overload_step(Busy { stopping: true, ..RUNNING }, Some(1), 2), OverloadStep::Nothing);
    // The notice is drawn on the overlay only where the window itself cannot be seen.
    let seen = NoticeFacts {
        gui: 1,
        valid: true,
        visible: true,
        minimized: false,
        cloaked: false,
        overlay: 2,
        above_overlay: true,
    };
    assert!(!overload_notice_on_overlay(RUNNING, Some(9), seen));
    assert!(overload_notice_on_overlay(RUNNING, Some(9), NoticeFacts { minimized: true, ..seen }));
    assert!(!overload_notice_on_overlay(RUNNING, None, NoticeFacts { minimized: true, ..seen }));
}

fn panel() -> Panel {
    Panel {
        hwnd: 3,
        visible: true,
        shape: PanelShape { chip_lurking: true, bar_shown: false, leave_at: None },
        hover_expand_armed: true,
        hover_restore_armed: true,
        placed_for_run: true,
        reveal_pending: false,
        state_sent: None,
        layout_sent: None,
        metrics_sent: None,
        screenshot_feedback_until: None,
        last_hotkey: None,
    }
}

fn reveal_facts(handle: isize) -> RevealFacts {
    RevealFacts {
        host_rect: Some(Rect { x: 0, y: 0, w: 200, h: 40 }),
        bar: Size { w: 200, h: 40 },
        chip: Size { w: 30, h: 10 },
        gui_topmost: true,
        overlay: 2,
        overlay_valid: true,
        anchor: window(handle + 1),
        anchor_above_overlay: true,
        slot: 0,
        feedback: false,
    }
}

#[test]
fn a_collapsed_panel_waits_for_the_pointer_to_leave() {
    let mut p = panel();
    p.shape = PanelShape { chip_lurking: false, bar_shown: true, leave_at: None };
    assert!(!p.on_pointer(true, false, true, false, 1));
    assert!(p.shape.chip_lurking && !p.shape.bar_shown);
    assert!(!p.on_pointer(false, false, true, true, 2));
    assert!(!p.shape.bar_shown);
    assert!(!p.on_pointer(false, false, false, true, 3));
    assert!(p.on_pointer(false, false, true, true, 4));
    assert!(p.shape.bar_shown);
}

#[test]
fn a_bar_left_by_the_pointer_goes_after_a_while() {
    let mut p = panel();
    p.shape = PanelShape { chip_lurking: true, bar_shown: true, leave_at: None };
    p.on_pointer(false, false, false, false, 1_000);
    assert_eq!(p.shape.leave_at, Some(1_000 + PANEL_LEAVE_NS));
    p.on_pointer(false, false, true, false, 2_000);
    assert_eq!(p.shape.leave_at, None);
    p.on_pointer(false, false, false, false, 3_000);
    p.on_pointer(false, false, false, false, 3_000 + PANEL_LEAVE_NS);
    assert!(!p.shape.bar_shown);
}

#[test]
fn where_the_pointer_is_on_the_panel() {
    let area = Rect { x: 10, y: 10, w: 20, h: 5 };
    assert!(panel_hovered(Some(area), Point { x: 10, y: 14 }, None));
    assert!(!panel_hovered(Some(area), Point { x: 30, y: 14 }, None));
    assert!(panel_hovered(Some(area), Point { x: 0, y: 0 }, Some(Point { x: 12, y: 12 })));
    assert_eq!(panel_hover_offset(area, Point { x: 0, y: 0 }, Some(Point { x: 12, y: 12 })), Some(2));
    assert_eq!(panel_hover_offset(area, Point { x: 0, y: 0 }, None), None);
    assert_eq!(mirror_hover_slot(Some(PanelButton::GuiTopmost)), 3);
    assert_eq!(mirror_hover_slot(None), 0);
}

#[test]
fn a_new_bar_is_shown_only_when_it_is_drawn() {
    let mut p = panel();
    p.shape = PanelShape { chip_lurking: false, bar_shown: true, leave_at: None };
    let bar = Rect { x: 0, y: 0, w: 200, h: 40 };
    let actions = p.commit(true, window(3), window(4), bar);
    assert!(actions.contains(&Action::SetAlpha { window: 3, alpha: 0 }));
    assert!(!actions.contains(&Action::SetOpaque { window: 3 }));
    assert!(p.reveal_pending);
    let actions = p.draw(true, reveal_facts(3));
    assert!(actions.contains(&Action::SetOpaque { window: 3 }));
    assert!(!p.reveal_pending);
}

#[test]
fn a_hidden_panel_lets_the_pointer_through() {
    let mut p = panel();
    let bar = Rect { x: 0, y: 0, w: 200, h: 40 };
    let actions = p.commit(false, window(3), window(4), bar);
    assert!(actions.contains(&Action::SetPassthrough { window: 3, on: true }));
    assert!(actions.contains(&Action::SetAlpha { window: 3, alpha: 0 }));
}

#[test]
fn the_panel_is_placed_once_per_run() {
    let mut p = panel();
    p.placed_for_run = false;
    let target = Rect { x: 5, y: 5, w: 200, h: 40 };
    let actions = p.place(true, target, 1, true, 2);
    assert_eq!(actions[0], Action::SetRect { window: 3, rect: target });
    assert!(p.placed_for_run);
    let actions = p.place(true, target, 1, true, 2);
    assert!(!actions.iter().any(|a| matches!(a, Action::SetRect { .. })));
    let layout = p.publish_layout(Size { w: 200, h: 40 }, Size { w: 30, h: 10 });
    assert!(layout.is_some());
    assert!(p.publish_layout(Size { w: 200, h: 40 }, Size { w: 30, h: 10 }).is_none());
    p.on_run_start(window(3), true);
    assert!(!p.placed_for_run);
}

#[test]
fn the_screenshot_button_shows_that_it_was_used() {
    let mut p = panel();
    assert!(p.screenshot_feedback(true, 10));
    assert!(p.screenshot_feedback(false, 10 + SCREENSHOT_FEEDBACK_NS - 1));
    assert!(!p.screenshot_feedback(false, 10 + SCREENSHOT_FEEDBACK_NS));
    p.drop_stale_host(WindowFacts { valid: false, ..window(3) });
    assert_eq!(p.hwnd, 0);
}

#[test]
fn the_panel_key_shows_the_whole_bar() {
    let mut p = panel();
    p.visible = false;
    p.toggle_panel_hotkey(true, true, window(3), 1_000_000_000);
    assert!(p.visible);
    assert!(p.shape.bar_shown && !p.shape.chip_lurking);
    // Pressed again at once it is ignored.
    p.toggle_panel_hotkey(true, true, window(3), 1_000_000_001);
    assert!(p.visible);
}

#[test]
fn a_capture_is_started_from_rest_only() {
    assert!(!capture_busy(IDLE));
    assert!(request_capture_start(IDLE));
    assert!(!request_capture_start(Busy { preparing: true, ..IDLE }));
    assert_eq!(dispatch_capture_stop_known(Busy { stopping: true, ..RUNNING }), StopOutcome::AlreadyStopping);
    assert_eq!(dispatch_capture_stop_known(RUNNING), StopOutcome::Dispatched);
    assert_eq!(dispatch_toggle_hotkey(Busy { stopping: true, ..IDLE }, 9, 0), ToggleOutcome::AlreadyStopping);
    assert!(shows_running(false, true));
    assert_eq!(main_control_mode(true, IDLE), MainControl::Disabled);
    assert_eq!(main_control_mode(false, IDLE), MainControl::Start);
}

#[test]
fn the_end_of_a_capture_is_remembered() {
    let mut clock = SessionClock { was_busy: true, idle_since: 5, press_until: None };
    assert!(clock.tick(false, 50));
    assert_eq!(clock.idle_since, 50);
    assert_eq!(dispatch_toggle_hotkey(IDLE, 50, clock.idle_since), ToggleOutcome::Stale);
    assert!(!clock.tick(false, 60));
    assert_eq!(clock.idle_since, 50);
    clock.press(100);
    assert!(clock.pressed(false, false, 100 + PRESS_FEEDBACK_NS - 1));
    assert!(!clock.pressed(false, false, 100 + PRESS_FEEDBACK_NS));
    assert!(clock.pressed(true, false, 100 + PRESS_FEEDBACK_NS));
}

#[test]
fn the_queue_keeps_the_other_keys_in_order() {
    let mut direct = event(HK_TOGGLE, 1);
    direct.handled_directly = true;
    let events = vec![direct, event(HK_PANEL, 2), event(HK_TOGGLE, 3), event(HK_GUI_TOPMOST, 4), event(HK_QUIT, 5)];
    assert_eq!(
        drain_hotkeys(&events, false),
        vec![
            QueuedCommand::Panel,
            QueuedCommand::Toggle { received_at: 3 },
            QueuedCommand::GuiTopmost,
            QueuedCommand::Quit,
        ]
    );
    assert!(drain_hotkeys(&events, true).is_empty());
}

#[test]
fn labels_lose_their_marks() {
    assert_eq!(control_label("\u{25b6} Start"), "Start");
    assert_eq!(control_label("\u{25a0}\u{25cf}  Stop \u{25a0}"), "Stop \u{25a0}");
}

#[test]
fn a_hidden_source_is_noticed_for_a_while() {
    let mut notice = OcclusionNotice { seen_seq: 0, until: None, hwnd: 6 };
    assert!(!notice.observe(0, 10));
    assert!(notice.observe(1, 10));
    assert_eq!(notice.on_frame(true, 11), Some(OVERLOAD_LOOK_NS));
    assert_eq!(notice.on_frame(true, 10 + OCCLUSION_NOTICE_NS), None);
    assert_eq!(notice, OcclusionNotice { seen_seq: 1, until: None, hwnd: 0 });
    assert!(!notice.adopt(None));
    assert!(notice.adopt(Some(8)));
    assert!(!notice.adopt(Some(9)));
    assert_eq!(notice.hwnd, 8);
}

#[test]
fn what_keeps_a_capture_from_starting() {
    assert_eq!(start_gate(0, false, None, 0), StartGate::NoTarget);
    assert_eq!(start_gate(7, false, Some(true), 9), StartGate::ElevatedTarget);
    assert_eq!(start_gate(7, true, Some(true), 9), StartGate::Proceed);
    assert_eq!(start_gate(7, false, Some(false), 0), StartGate::TargetGone);
    assert_eq!(start_gate(7, false, None, 9), StartGate::Proceed);
}

#[test]
fn a_hidden_source_gets_its_size_from_the_engine() {
    let size = CaptureResolution { w: 1280, h: 720 };
    let plan = ResolutionPlan { requested: size, applied: size };
    let hidden = start_resolution(Some(size), false, Some(plan), true);
    assert!(!hidden.apply_now);
    assert_eq!(hidden.deferred, Some(plan));
    assert_eq!(hidden.canvas, Some(size));
    assert!(start_is_ready(hidden, false));
    let shown = start_resolution(Some(size), false, Some(plan), false);
    assert!(shown.apply_now);
    assert_eq!(shown.deferred, None);
    assert!(!start_is_ready(shown, false));
    let disabled = start_resolution(Some(size), true, Some(plan), true);
    assert!(disabled.notice);
    assert_eq!(disabled.canvas, None);
}

#[test]
fn the_commands_of_a_start_are_in_order() {
    let adapters = vec![GpuAdapter {
        device_id: 4,
        luid: 40,
        name: "A".into(),
        dedicated_video_memory: 1,
        vendor_id: 2,
        pci_device_id: 3,
        subsys_id: 4,
        revision: 5,
    }];
    let settings = StartSettings {
        cursor_autohide: true,
        autohide_secs: 0.25f32.to_bits(),
        cursor_speed_fix: true,
        interp_factor: 2,
        vsync: true,
        smooth_pacing: false,
        duplicate_frame_reduction: true,
        crop: CaptureCrop::default(),
        fps_cap_enabled: true,
        fps_cap: 60,
        hide_source: true,
        client_only: false,
        hdr_capture: true,
        hdr_sdr_mode: 3,
        resolution: Some(CaptureResolution { w: 640, h: 480 }),
        gpu: GpuChoice { luid: None, force_vulkan: false },
        scale_mode: ScaleMode::Fixed,
        ratio: 2.0f32.to_bits(),
        aspect: AspectCorrection {
            enabled: true,
            mode: AspectCorrectionMode::Auto4x3,
            width_scale: 1.0f32.to_bits(),
            height_scale: 1.0f32.to_bits(),
        },
    };
    let origin = SourceOrigin {
        hwnd: 7,
        pid: 99,
        rect: Some(Rect { x: 1, y: 2, w: 3, h: 4 }),
        normal_rect: None,
        topmost: false,
        maximized: true,
        layered: false,
        corners: None,
    };
    let chain = vec![StageSpec {
        kind: StageKind::Glsl,
        path: "a.glsl".into(),
        enabled: true,
        params: Vec::new(),
    }];
    assert_eq!(start_target(7, 7), (7, false));
    assert_eq!(start_target(9, 7), (7, true));
    let plan = start_resolution(settings.resolution, false, None, true);
    assert_eq!(after_start_resolution(plan, true, origin), StartStep::PutBack(origin));
    assert_eq!(
        start_error_phrase(StartError::ResolutionRefused).en,
        "The source window cannot keep the requested capture resolution. Select Auto or a supported size. Capture was not started."
    );
    assert_eq!(start_error_phrase(StartError::TargetGone).ja, "キャプチャ対象が見つかりません。");
    let visible = start_resolution(settings.resolution, false, None, false);
    assert_eq!(after_start_resolution(visible, true, origin), StartStep::GoOn);
    assert_eq!(after_start_resolution(visible, false, origin), StartStep::PutBack(origin));
    let order = start(origin, settings, plan, &adapters, Some(40), &chain, "spline36");
    assert_eq!(order.chain[0].path, "a.glsl");
    assert_eq!(order.downscaler, "spline36");
    let commands = order.commands;
    assert_eq!(
        commands[0],
        EngineCommand::SetInputOpts { autohide_secs: 0.5f32.to_bits(), speed_fix: true }
    );
    assert_eq!(commands[1], EngineCommand::SetInterpFactor(2));
    assert_eq!(commands.len(), 8);
    assert_eq!(commands[6], EngineCommand::PublishRecovery(origin));
    match commands[7] {
        EngineCommand::Start(c) => {
            assert_eq!(c.source, origin);
            assert_eq!(c.scale_mode, ScaleMode::Fixed);
            assert_eq!(c.aspect, settings.aspect);
            assert_eq!(c.fps_cap, Some(60));
            assert_eq!(c.gpu_adapter, Some(4));
            assert!(c.client_only);
            assert!(!c.hdr);
            assert_eq!(c.hdr_sdr_mode, 3);
        }
        other => panic!("{other:?}"),
    }
}

#[test]
fn delays_and_options_of_a_start() {
    assert_eq!(autohide_delay(false, 9.0f32.to_bits()), 0);
    assert_eq!(autohide_delay(true, 9.0f32.to_bits()), 9.0f32.to_bits());
    assert_eq!(autohide_delay(true, (-9.0f32).to_bits()), 0.5f32.to_bits());
    assert_eq!(autohide_delay(true, f32::NAN.to_bits()), 0.5f32.to_bits());
    assert!(effective_client_only(false, Some(CaptureResolution { w: 640, h: 480 })));
    assert!(!effective_client_only(false, None));
}

#[test]
fn a_new_panel_shows_its_bar() {
    let mut p = Panel::new();
    assert!(p.visible && p.shape.bar_shown && !p.shape.chip_lurking);
    p.shape = PanelShape { chip_lurking: true, bar_shown: false, leave_at: Some(3) };
    p.on_start();
    assert_eq!(p.shape, PanelShape { chip_lurking: false, bar_shown: true, leave_at: Some(3) });
    let content = Rect { x: 1, y: 1, w: 0, h: 5 };
    let overlay = Rect { x: 0, y: 0, w: 9, h: 9 };
    assert_eq!(panel_content_rect(content, overlay), overlay);
    assert_eq!(panel_content_rect(Rect { w: 2, ..content }, overlay), Rect { w: 2, ..content });
}

fn sound() -> (PanelDiagSnapshot, PanelFrame) {
    (
        PanelDiagSnapshot {
            rect: Some(Rect { x: 0, y: 0, w: 297, h: 33 }),
            expected_size: Size { w: 297, h: 33 },
            effective_show: true,
            lurk: false,
            native_visible: true,
            layered: false,
            passthrough: false,
            topmost: true,
        },
        PanelFrame { begun_shown: true, mirror_valid: true, mirror_visible: true, draw_ns: 0, gap_ns: 0 },
    )
}

#[test]
fn what_is_wrong_with_the_panel_is_found() {
    let (s, frame) = sound();
    let none = panel_anomalies(s, frame);
    assert!(!none.size && !none.visible && !none.layered && !none.mirror && !none.heartbeat_stall);
    assert!(panel_anomalies(PanelDiagSnapshot { rect: Some(Rect { x: 0, y: 0, w: 301, h: 33 }), ..s }, frame).size);
    assert!(!panel_anomalies(PanelDiagSnapshot { rect: Some(Rect { x: 0, y: 0, w: 300, h: 33 }), ..s }, frame).size);
    assert!(panel_anomalies(PanelDiagSnapshot { layered: true, ..s }, frame).layered);
    // A collapsed panel is transparent and has no picture.
    let lurking = PanelDiagSnapshot { lurk: true, layered: true, ..s };
    let hidden = PanelFrame { mirror_visible: false, ..frame };
    let a = panel_anomalies(lurking, hidden);
    assert!(!a.layered && !a.mirror);
    assert!(panel_anomalies(s, PanelFrame { gap_ns: HEARTBEAT_STALL_NS, ..frame }).heartbeat_stall);
}

#[test]
fn a_quiet_panel_is_told_of_now_and_then() {
    let (s, frame) = sound();
    let mut watch = PanelWatch::new();
    assert_eq!(watch.begin(1_000), 0);
    let lines = watch.end(s, frame, 1_000);
    assert!(lines.changed && lines.trace && !lines.warn);
    assert_eq!(watch.begin(2_000), 1_000);
    assert!(!watch.end(s, frame, 2_000).trace);
    assert!(watch.end(s, frame, 1_000 + TRACE_NS).trace);
    watch.rest();
    assert_eq!(watch.begin(9_000), 0);
    let mut anchor = AnchorWatch { told: None, last_warn: None };
    let state = AnchorState { active: true, anchor: 4, panel: 3, overlay: 2 };
    assert!(anchor.tell(state));
    assert!(!anchor.tell(state));
    anchor.forget();
    assert!(anchor.tell(state));
    assert!(!anchor.tell(AnchorState { active: false, anchor: 0, ..state }));
    assert!(anchor.stalled(PRESENT_STALL_NS, 5));
    assert!(!anchor.stalled(PRESENT_STALL_NS, 6));
    assert!(anchor.stalled(PRESENT_STALL_NS, 5 + PRESENT_WARN_NS));
    assert!(!anchor.stalled(PRESENT_STALL_NS - 1, 9 + 2 * PRESENT_WARN_NS));
}

#[test]
fn the_picture_is_shown_by_a_factor() {
    assert_eq!(choose_scale_mode(ScaleMode::Auto, false, true), (ScaleMode::Fixed, true));
    assert_eq!(choose_scale_mode(ScaleMode::Auto, true, false), (ScaleMode::Auto, false));
    assert!(ratio_enabled(ScaleMode::Fixed) && !ratio_enabled(ScaleMode::Auto));
    assert_eq!(ratio_digits(" 2.5xx "), "2.5");
    assert_eq!(ratio_digits("x"), "");
    assert_eq!(clamp_ratio(9.0f32.to_bits()), RATIO_MAX);
    assert_eq!(clamp_ratio(0.5f32.to_bits()), RATIO_MIN);
    assert_eq!(clamp_ratio(2.5f32.to_bits()), 2.5f32.to_bits());
    assert_eq!(f32::from_bits(RATIO_MIN), 1.0);
    assert_eq!(f32::from_bits(RATIO_MAX), 6.0);
    assert_eq!(commit_ratio(7, Some(2.5f32.to_bits()), true), (2.5f32.to_bits(), true));
    assert_eq!(commit_ratio(7, Some(2.5f32.to_bits()), false), (7, false));
    assert_eq!(commit_ratio(7, None, true), (7, false));
    let labels = ratio_labels();
    assert_eq!(labels.len(), 26);
    for (i, label) in (5..=30).zip(&labels) {
        assert_eq!(*label, format!("{:.1}x", i as f32 * 0.2));
    }
}
