use chidescaler_neo::backend::{
    capture_crop_geometry_matches, crop_values_editable, hdr_capture_requested, requested_backend, startup_backend,
    tensorrt_control_enabled, tensorrt_crop_locked, tensorrt_crop_switch_allowed, tensorrt_option_visible,
    switch_command, toggle_crop, BackendState, CaptureCrop, OnnxBackendPreference, TensorRtAvailability,
    HDR_CAPTURE_OPTION_ENABLED,
};
use chidescaler_neo::chain::{StageKind, StageSpec};
use chidescaler_neo::controls::{cadence_controls, CadenceControl};
use chidescaler_neo::crop::{clamp_crop_margin, CropFacts, CropFlow, CROP_MARGIN_MAX, CROP_SAVE_DELAY_NS, CROP_SETTLE_NS, LIVE_CROP_INTERVAL_NS};

fn state(selected: OnnxBackendPreference) -> BackendState {
    BackendState { selected, pending: None, revision_seen: 4, preference: selected }
}

#[test]
fn tensorrt_crop_gate_allows_only_saved_active_geometry() {
    let saved = CaptureCrop {
        enabled: true,
        left: 12,
        top: 34,
        right: 56,
        bottom: 78,
    };

    // The switch is not part of the margins: a preset's saved margins may be switched on and
    // off without being edited.
    let same_geometry_disabled = CaptureCrop {
        enabled: false,
        ..saved
    };
    assert!(capture_crop_geometry_matches(same_geometry_disabled, saved));
    assert!(tensorrt_crop_switch_allowed(same_geometry_disabled, saved));

    let same_geometry_enabled = CaptureCrop {
        enabled: true,
        ..saved
    };
    assert!(tensorrt_crop_switch_allowed(same_geometry_enabled, saved));

    let unsaved_active = CaptureCrop {
        enabled: true,
        left: saved.left + 1,
        ..saved
    };
    assert!(!tensorrt_crop_switch_allowed(unsaved_active, saved));

    let unsaved_disabled = CaptureCrop {
        enabled: false,
        left: saved.left + 1,
        ..saved
    };
    assert!(tensorrt_crop_switch_allowed(unsaved_disabled, saved));
}

#[test]
fn tensorrt_crop_ui_keeps_numeric_editing_locked_to_directml() {
    let saved = CaptureCrop { enabled: true, left: 12, top: 34, right: 56, bottom: 78 };
    let edited = CaptureCrop { left: 13, ..saved };
    // The numbers can be edited only with the crop on and the backend that takes any shape.
    assert!(crop_values_editable(true, false));
    assert!(!crop_values_editable(true, true));
    assert!(!crop_values_editable(false, false));
    assert_eq!(clamp_crop_margin(8192), CROP_MARGIN_MAX);
    assert_eq!(clamp_crop_margin(9000), 8192);
    assert_eq!(clamp_crop_margin(23), 23);
    assert!(tensorrt_crop_locked(OnnxBackendPreference::TensorRT, OnnxBackendPreference::DirectML, false));
    assert!(tensorrt_crop_locked(OnnxBackendPreference::DirectML, OnnxBackendPreference::TensorRT, false));
    assert!(!tensorrt_crop_locked(OnnxBackendPreference::DirectML, OnnxBackendPreference::DirectML, false));
    // Switched on while it is locked, the crop takes the saved margins.
    let off = CaptureCrop { enabled: false, ..edited };
    assert_eq!(toggle_crop(off, true, true, saved), saved);
    assert_eq!(toggle_crop(off, true, false, saved), edited);
    // An unsaved crop keeps the backend from being entered, now and at the start.
    let mut s = state(OnnxBackendPreference::DirectML);
    assert!(!s.request_onnx_backend_switch(OnnxBackendPreference::TensorRT, true, edited, saved));
    assert_eq!(s.selected, OnnxBackendPreference::DirectML);
    assert_eq!(
        startup_backend(OnnxBackendPreference::TensorRT, true, edited, saved).selected,
        OnnxBackendPreference::DirectML
    );
    assert_eq!(
        startup_backend(OnnxBackendPreference::TensorRT, true, saved, saved).selected,
        OnnxBackendPreference::TensorRT
    );
}

#[test]
fn frozen_hdr_option_is_hidden_and_cannot_start_hdr_processing() {
    assert!(!HDR_CAPTURE_OPTION_ENABLED);
    assert!(!hdr_capture_requested(true));
    assert!(!hdr_capture_requested(false));
}

#[test]
fn full_cadence_row_uses_requested_order_and_contains_tensorrt_only_once() {
    let row = cadence_controls(true, true);
    let position = |control: CadenceControl| row.iter().position(|c| *c == control).expect("control");
    let fps_pos = position(CadenceControl::FpsCap);
    let drag_pos = position(CadenceControl::FpsValue);
    let duplicate_pos = position(CadenceControl::DuplicateReduction);
    let smooth_pos = position(CadenceControl::SmoothPacing);
    let vsync_pos = position(CadenceControl::Vsync);
    let tensorrt_pos = position(CadenceControl::TensorRt);
    assert!(fps_pos < drag_pos);
    assert!(drag_pos < duplicate_pos);
    assert!(duplicate_pos < smooth_pos);
    assert!(smooth_pos < vsync_pos);
    assert!(vsync_pos < tensorrt_pos);
    assert_eq!(row.iter().filter(|c| **c == CadenceControl::TensorRt).count(), 1);
    assert!(!cadence_controls(true, false).contains(&CadenceControl::TensorRt));
}

#[test]
fn tensorrt_option_is_hidden_until_backend_is_detected() {
    let unavailable = TensorRtAvailability::default();
    assert!(!tensorrt_option_visible(&unavailable));

    let mut available = TensorRtAvailability::default();
    available.available = true;
    assert!(tensorrt_option_visible(&available));
    assert!(cadence_controls(false, tensorrt_option_visible(&available)).contains(&CadenceControl::TensorRt));
    assert!(!cadence_controls(false, tensorrt_option_visible(&unavailable)).contains(&CadenceControl::TensorRt));
}

#[test]
fn tensorrt_checkbox_optimistically_reflects_the_requested_backend() {
    let crop = CaptureCrop::default();
    let mut s = state(OnnxBackendPreference::DirectML);
    let send = s.request_onnx_backend_switch(OnnxBackendPreference::TensorRT, true, crop, crop);
    // The choice shows and is pending before the engine has answered; nothing is saved yet.
    assert_eq!(s.selected, OnnxBackendPreference::TensorRT);
    assert_eq!(s.pending, Some(OnnxBackendPreference::TensorRT));
    assert!(send);
    assert_eq!(s.preference, OnnxBackendPreference::DirectML);
    assert!(s.switching(false));
    // The engine is told the adapter and the filters.
    let tensorrt = TensorRtAvailability { available: true, device_id: Some(1), gpu_luid: Some(7) };
    let chain = vec![StageSpec { kind: StageKind::Onnx, path: "m.onnx".into(), enabled: true, params: Vec::new() }];
    let command = switch_command(s.selected, tensorrt, &chain);
    assert_eq!(command.backend, OnnxBackendPreference::TensorRT);
    assert_eq!(command.trt_device_id, Some(1));
    assert_eq!(command.chain.len(), 1);
    assert_eq!(command.chain[0].path, "m.onnx");
}

#[test]
fn only_a_confirmed_backend_is_saved() {
    let crop = CaptureCrop::default();
    let mut s = state(OnnxBackendPreference::DirectML);
    s.request_onnx_backend_switch(OnnxBackendPreference::TensorRT, true, crop, crop);
    assert!(s.on_engine_revision(5, OnnxBackendPreference::TensorRT, false));
    assert_eq!(s.preference, OnnxBackendPreference::TensorRT);
    assert_eq!(s.pending, None);
    // The same answer again changes nothing.
    assert!(!s.on_engine_revision(5, OnnxBackendPreference::TensorRT, false));
}

#[test]
fn a_missing_backend_cannot_be_entered() {
    let crop = CaptureCrop::default();
    let mut s = state(OnnxBackendPreference::DirectML);
    assert!(!s.request_onnx_backend_switch(OnnxBackendPreference::TensorRT, false, crop, crop));
    assert_eq!(s, state(OnnxBackendPreference::DirectML));
}

#[test]
fn the_backend_can_be_left_with_any_crop() {
    let saved = CaptureCrop::default();
    let edited = CaptureCrop { enabled: true, left: 3, ..saved };
    assert!(tensorrt_control_enabled(OnnxBackendPreference::TensorRT, false, edited, saved));
    assert!(!tensorrt_control_enabled(OnnxBackendPreference::DirectML, false, edited, saved));
    assert!(!tensorrt_control_enabled(OnnxBackendPreference::TensorRT, true, edited, saved));
    let mut s = state(OnnxBackendPreference::TensorRT);
    assert!(s.request_onnx_backend_switch(OnnxBackendPreference::DirectML, false, edited, saved));
    assert_eq!(s.selected, OnnxBackendPreference::DirectML);
}

#[test]
fn a_click_without_a_change_asks_for_the_other_backend() {
    assert_eq!(
        requested_backend(OnnxBackendPreference::DirectML, Some(true), true),
        Some(OnnxBackendPreference::TensorRT)
    );
    assert_eq!(
        requested_backend(OnnxBackendPreference::TensorRT, None, true),
        Some(OnnxBackendPreference::DirectML)
    );
    assert_eq!(requested_backend(OnnxBackendPreference::TensorRT, None, false), None);
}

#[test]
fn another_card_without_the_backend_falls_back() {
    let mut s = state(OnnxBackendPreference::TensorRT);
    assert_eq!(s.on_gpu_change(false), OnnxBackendPreference::DirectML);
    assert_eq!(s.selected, OnnxBackendPreference::DirectML);
    let mut s = state(OnnxBackendPreference::DirectML);
    assert_eq!(s.on_gpu_change(true), OnnxBackendPreference::DirectML);
}

fn facts(now: u64) -> CropFacts {
    CropFacts { now, running: true, fixed_shape: false, fixed_resolution: true, pointer_down: true }
}

#[test]
fn an_edit_is_previewed_and_saved_in_the_end() {
    let mut flow = CropFlow::new();
    let first = CaptureCrop { enabled: true, left: 1, ..CaptureCrop::default() };
    let second = CaptureCrop { left: 2, ..first };
    let out = flow.on_edit(facts(1_000_000_000), first);
    assert_eq!(out.preview, Some(first));
    // Too soon after the first: it waits.
    let out = flow.on_edit(facts(1_000_000_000 + 1_000_000), second);
    assert_eq!(out.preview, None);
    let out = flow.on_poll(facts(1_000_000_000 + LIVE_CROP_INTERVAL_NS));
    assert_eq!(out.preview, Some(second));
    let mut late = facts(1_000_000_000 + CROP_SAVE_DELAY_NS + CROP_SETTLE_NS + 2_000_000);
    late.pointer_down = false;
    assert!(flow.on_poll(late).save);
}

#[test]
fn a_fixed_shape_sees_only_the_settled_margins() {
    let mut flow = CropFlow::new();
    let crop = CaptureCrop { enabled: true, left: 1, ..CaptureCrop::default() };
    let mut f = facts(1_000_000_000);
    f.fixed_shape = true;
    let out = flow.on_edit(f, crop);
    assert_eq!(out.preview, None);
    f.now += CROP_SETTLE_NS;
    assert_eq!(flow.on_poll(f).commit, None);
    // The time runs from when the pointer is let go.
    f.pointer_down = false;
    assert_eq!(flow.on_poll(f).commit, None);
    f.now += CROP_SETTLE_NS;
    assert_eq!(flow.on_poll(f).commit, Some(crop));
    assert_eq!(flow.on_poll(f).commit, None);
}

#[test]
fn without_a_fixed_resolution_every_edit_is_previewed() {
    let mut flow = CropFlow::new();
    let mut f = facts(1_000_000_000);
    f.fixed_resolution = false;
    for left in 1..5 {
        let crop = CaptureCrop { enabled: true, left, ..CaptureCrop::default() };
        f.now += 1;
        assert_eq!(flow.on_edit(f, crop).preview, Some(crop));
    }
    // At the end of the capture what is not written yet is written.
    f.running = false;
    assert!(flow.on_poll(f).save);
    assert_eq!(flow, CropFlow::new());
}
