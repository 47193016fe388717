use chidescaler_neo::gpu::{
    adapter_display_name, adapter_for_luid, device_id_for_luid, enumerate_adapters, enumerate_adapters_quiet,
    high_performance_luid_order_quiet, luid_u64, normalize_adapters, preference_data, preference_size_reply,
    settings_update_result, specific_adapter_id, specific_gpu_preference, AdapterDesc, GpuAdapter, SizeReply,
    ADAPTER_FLAG_SOFTWARE,
};
use chidescaler_neo::handoff::{
    ready_file_name, relaunch_for_selection, signal_relaunch_render_ready, HandoffEvent, HandoffOutcome,
    HandoffState, GPU_HANDOFF_TIMEOUT_MS,
};
use chidescaler_neo::selection::{
    commit_selection, cross_gpu_compute_active, current_choice, gpu_change_enabled, gpu_selector_visible,
    resolve_compute_gpu_luid, selected_text, selection_change, selection_report, selector_rows, startup_selection,
    FinalizeStep, GpuChoice, ProbeKind, ProbeWishes, SelectionReport, StartupChecks,
};
use chidescaler_neo::backend::{BackendState, OnnxBackendPreference, TensorRtAvailability};
use chidescaler_neo::session::Busy;

fn adapter() -> GpuAdapter {
    GpuAdapter {
        device_id: 1,
        luid: 20,
        name: "GPU B".into(),
        dedicated_video_memory: 2,
        vendor_id: 0x10de,
        pci_device_id: 0x2c05,
        subsys_id: 0x18c21043,
        revision: 0xa1,
    }
}

fn plain_adapter(device_id: i32, luid: u64, name: &str) -> GpuAdapter {
    GpuAdapter {
        device_id,
        luid,
        name: name.into(),
        dedicated_video_memory: 1,
        vendor_id: 0x10de,
        pci_device_id: 1,
        subsys_id: 2,
        revision: 3,
    }
}

#[test]
fn gpu_auto_follows_actual_render_adapter() {
    assert_eq!(resolve_compute_gpu_luid(None, Some(0x22)), Some(0x22));
    assert!(!cross_gpu_compute_active(None, Some(0x22)));
}

#[test]
fn explicit_gpu_remains_onnx_authority_when_wgl_mismatches() {
    assert_eq!(resolve_compute_gpu_luid(Some(0x44), Some(0x22)), Some(0x44));
    assert!(cross_gpu_compute_active(Some(0x44), Some(0x22)));
}

#[test]
fn resolves_stable_luid_to_current_directml_index() {
    let adapters = vec![
        GpuAdapter {
            device_id: 0,
            luid: 10,
            name: "A".into(),
            dedicated_video_memory: 1,
            vendor_id: 0,
            pci_device_id: 0,
            subsys_id: 0,
            revision: 0,
        },
        adapter(),
    ];
    assert_eq!(device_id_for_luid(&adapters, Some(20)), Some(1));
    assert_eq!(device_id_for_luid(&adapters, Some(30)), None);
    assert_eq!(device_id_for_luid(&adapters, None), None);
    assert_eq!(adapter_for_luid(&adapters, Some(10)).map(|a| a.name.as_str()), Some("A"));
    assert!(adapter_for_luid(&adapters, Some(30)).is_none());
}

#[test]
fn specific_gpu_id_uses_stable_pci_identity_not_dxgi_index() {
    assert_eq!(specific_adapter_id(&adapter()), "10DE&2C05&18C21043");
    assert_eq!(
        specific_gpu_preference(&adapter()),
        "SpecificAdapter=10DE&2C05&18C21043;GpuPreference=1073741824;"
    );
}

#[test]
fn duplicate_luids_are_collapsed_but_real_same_name_gpus_remain() {
    let a = GpuAdapter {
        device_id: 0,
        luid: 0x1111,
        name: "NVIDIA GeForce RTX 4070 Ti".into(),
        dedicated_video_memory: 12,
        vendor_id: 0x10de,
        pci_device_id: 1,
        subsys_id: 2,
        revision: 0,
    };
    let duplicate = GpuAdapter {
        device_id: 2,
        ..a.clone()
    };
    let b = GpuAdapter {
        device_id: 3,
        luid: 0x2222,
        ..a.clone()
    };
    let adapters = normalize_adapters(vec![a.clone(), duplicate, b.clone()]);
    assert_eq!(adapters.len(), 2);
    assert_eq!(adapters[0].luid, a.luid);
    assert_eq!(adapters[0].device_id, 0);
    assert_eq!(adapters[1].luid, b.luid);
    assert_eq!(
        adapter_display_name(&adapters, &adapters[0]),
        "NVIDIA GeForce RTX 4070 Ti (GPU 1)"
    );
    assert_eq!(
        adapter_display_name(&adapters, &adapters[1]),
        "NVIDIA GeForce RTX 4070 Ti (GPU 2)"
    );
}

#[test]
fn a_luid_is_put_together_from_its_halves() {
    assert_eq!(luid_u64(0, 0x2222), 0x2222);
    assert_eq!(luid_u64(1, 2), 0x1_0000_0002);
    assert_eq!(luid_u64(-1, 0), 0xffff_ffff_0000_0000);
}

fn desc(luid_low: u32, name: &str, flags: u32) -> Option<AdapterDesc> {
    let mut description: Vec<u16> = name.encode_utf16().collect();
    description.push(0);
    description.push(b'x' as u16);
    Some(AdapterDesc {
        luid_high: 0,
        luid_low,
        description,
        dedicated_video_memory: 5,
        vendor_id: 6,
        device_id: 7,
        subsys_id: 8,
        revision: 9,
        flags,
    })
}

#[test]
fn software_adapters_and_unreadable_ones_are_left_out() {
    let descs = vec![desc(10, "Gr\u{e4}fik", 0), None, desc(11, "Basic", ADAPTER_FLAG_SOFTWARE), desc(12, "C", 0)];
    let adapters = enumerate_adapters(&descs);
    assert_eq!(adapters.len(), 2);
    assert_eq!(adapters[0].name, "Gr\u{e4}fik");
    assert_eq!(adapters[0].device_id, 0);
    assert_eq!(adapters[0].pci_device_id, 7);
    assert_eq!(adapters[1].luid, 12);
    assert_eq!(adapters[1].device_id, 3);
    assert_eq!(enumerate_adapters_quiet(&descs), adapters);
    assert_eq!(high_performance_luid_order_quiet(&descs), vec![10, 12]);
}

#[test]
fn the_reply_to_the_size_of_a_preference() {
    assert_eq!(preference_size_reply(2, 0), SizeReply::Absent);
    assert_eq!(preference_size_reply(5, 8), SizeReply::Refused(5));
    assert_eq!(preference_size_reply(0, 0), SizeReply::Empty);
    assert_eq!(preference_size_reply(0, 8), SizeReply::Read(8));
}

#[test]
fn a_preference_is_decoded_up_to_its_end() {
    let bytes: Vec<u8> = vec![b'G', 0, b'p', 0, 0, 0, b'x', 0];
    assert_eq!(preference_data(0, &bytes, 8), Ok("Gp".to_string()));
    assert_eq!(preference_data(5, &bytes, 8), Err(5));
    assert_eq!(settings_update_result(0, false), Ok(()));
    assert_eq!(settings_update_result(2, true), Ok(()));
    assert_eq!(settings_update_result(2, false), Err(2));
}

#[test]
fn the_selector_is_shown_for_two_adapters() {
    let one = vec![plain_adapter(0, 10, "A")];
    assert!(!gpu_selector_visible(&one));
    let two = vec![plain_adapter(0, 10, "A"), plain_adapter(1, 20, "B")];
    assert!(gpu_selector_visible(&two));
}

#[test]
fn a_vanished_adapter_is_given_up_at_startup() {
    let adapters = vec![plain_adapter(0, 10, "A"), plain_adapter(1, 20, "B")];
    let gone = GpuChoice { luid: Some(99), force_vulkan: true };
    let (kept, changed) = startup_selection(gone, &adapters);
    assert_eq!(kept.luid, None);
    assert!(changed);
    let there = GpuChoice { luid: Some(20), force_vulkan: false };
    assert_eq!(startup_selection(there, &adapters), (there, false));
}

#[test]
fn rows_and_the_shown_text_agree() {
    let adapters = vec![plain_adapter(0, 10, "A"), plain_adapter(1, 20, "B")];
    let rows = selector_rows(&adapters, "Auto");
    assert_eq!(rows[0].label, "Auto");
    assert_eq!(rows[0].choice, GpuChoice { luid: None, force_vulkan: false });
    assert_eq!(rows.len(), 5);
    assert_eq!(rows[2].label, "B");
    assert_eq!(rows[4].label, "B [Vulkan]");
    for row in &rows {
        assert_eq!(selected_text(&adapters, row.choice, "Auto"), row.label);
    }
    assert_eq!(current_choice(None, true), GpuChoice { luid: None, force_vulkan: false });
}

#[test]
fn choosing_another_adapter_tells_the_engine() {
    let adapters = vec![plain_adapter(0, 10, "A"), plain_adapter(1, 20, "B")];
    let auto = GpuChoice { luid: None, force_vulkan: false };
    let b = GpuChoice { luid: Some(20), force_vulkan: true };
    let tensorrt = TensorRtAvailability { available: true, device_id: Some(0), gpu_luid: Some(10) };
    assert!(selection_change(&adapters, auto, auto, Some(10), tensorrt).is_none());
    let change = selection_change(&adapters, auto, b, Some(10), tensorrt).unwrap();
    assert_eq!(change.effective, Some(20));
    assert_eq!(change.gpu_adapter, Some(1));
    let mut state = BackendState {
        selected: OnnxBackendPreference::DirectML,
        pending: None,
        revision_seen: 0,
        preference: OnnxBackendPreference::DirectML,
    };
    let command = commit_selection(&mut state, b, change, TensorRtAvailability::default());
    assert_eq!(command.gpu_adapter, Some(1));
    assert_eq!(command.explicit_gpu_luid, Some(20));
    assert!(command.force_vulkan_glsl);
    assert_eq!(command.backend, OnnxBackendPreference::DirectML);
}

#[test]
fn an_adapter_is_not_changed_during_a_capture() {
    let idle = Busy { starting: false, running: false, stopping: false, preparing: false };
    let running = Busy { running: true, ..idle };
    assert!(gpu_change_enabled(idle, false, false));
    assert!(!gpu_change_enabled(running, false, false));
    assert!(!gpu_change_enabled(idle, true, false));
    assert!(!gpu_change_enabled(idle, false, true));
}

#[test]
fn the_report_says_what_was_got() {
    assert_eq!(selection_report(Some(1), Some(1)), SelectionReport::Match { luid: 1 });
    assert_eq!(selection_report(Some(1), Some(2)), SelectionReport::Mismatch { requested: 1, actual: 2 });
    assert_eq!(selection_report(Some(1), None), SelectionReport::Unverified { requested: 1 });
    assert_eq!(selection_report(None, Some(2)), SelectionReport::Auto { render: Some(2) });
}

#[test]
fn startup_is_settled_once() {
    let mut checks = StartupChecks { verified: false, signaled: false, probed: false };
    let wishes = ProbeWishes { production: false, gpu: true, glsl: false, image: false };
    assert!(checks.maybe_finalize_gpu_selection_startup(false, None, None, false, wishes).is_empty());
    let steps = checks.maybe_finalize_gpu_selection_startup(true, Some(7), Some(7), true, wishes);
    assert_eq!(steps[0], FinalizeStep::Report(SelectionReport::Match { luid: 7 }));
    assert!(steps.contains(&FinalizeStep::SignalHandoff));
    assert!(steps.contains(&FinalizeStep::Probe { kind: ProbeKind::Gpu, luid: 7 }));
    assert!(checks.maybe_finalize_gpu_selection_startup(true, Some(7), Some(7), true, wishes).is_empty());
}

#[test]
fn a_plain_restart_needs_no_preference() {
    let state = relaunch_for_selection(None, &[]);
    assert!(matches!(state, HandoffState::SpawningPlain));
    let done = state.on_event(HandoffEvent::Spawned { ok: true, now: 0 });
    assert!(matches!(done, HandoffState::Done { outcome: HandoffOutcome::StartedPlain }));
    let missing = relaunch_for_selection(Some(5), &[]);
    assert!(matches!(missing, HandoffState::Done { outcome: HandoffOutcome::AdapterMissing }));
}

#[test]
fn the_preference_of_before_comes_back() {
    let adapters = vec![adapter()];
    let state = relaunch_for_selection(Some(20), &adapters);
    let state = state.on_event(HandoffEvent::PreferenceRead { value: Ok(Some("old".to_string())) });
    match &state {
        HandoffState::Overwriting { temporary, previous } => {
            assert_eq!(temporary, "SpecificAdapter=10DE&2C05&18C21043;GpuPreference=1073741824;");
            assert_eq!(previous.as_deref(), Some("old"));
        }
        other => panic!("{other:?}"),
    }
    let state = state.on_event(HandoffEvent::PreferenceWritten { ok: true });
    assert!(matches!(state, HandoffState::SpawningMarked { .. }));
    let state = state.on_event(HandoffEvent::Spawned { ok: true, now: 100 });
    match &state {
        HandoffState::Waiting { deadline, .. } => assert_eq!(*deadline, 100 + GPU_HANDOFF_TIMEOUT_MS),
        other => panic!("{other:?}"),
    }
    let state = state.on_event(HandoffEvent::Polled { now: 120, ready: false });
    assert!(matches!(state, HandoffState::Waiting { .. }));
    let state = state.on_event(HandoffEvent::Polled { now: 140, ready: true });
    match &state {
        HandoffState::Restoring { previous, ready } => {
            assert_eq!(previous.as_deref(), Some("old"));
            assert!(*ready);
        }
        other => panic!("{other:?}"),
    }
    let state = state.on_event(HandoffEvent::PreferenceWritten { ok: true });
    assert!(matches!(state, HandoffState::Done { outcome: HandoffOutcome::Restored { ready: true } }));
}

#[test]
fn an_unusable_preference_still_marks_the_child() {
    let adapters = vec![adapter()];
    let unread = relaunch_for_selection(Some(20), &adapters)
        .on_event(HandoffEvent::PreferenceRead { value: Err(5) });
    let unwritten = relaunch_for_selection(Some(20), &adapters)
        .on_event(HandoffEvent::PreferenceRead { value: Ok(None) })
        .on_event(HandoffEvent::PreferenceWritten { ok: false });
    for state in [unread, unwritten] {
        assert!(matches!(state, HandoffState::SpawningMarkedOnly));
        assert!(state.with_marker());
        let done = state.on_event(HandoffEvent::Spawned { ok: true, now: 7 });
        assert!(matches!(done, HandoffState::Done { outcome: HandoffOutcome::StartedMarked }));
        assert!(!done.with_marker());
    }
    let failed = HandoffState::SpawningMarkedOnly.on_event(HandoffEvent::Spawned { ok: false, now: 7 });
    assert!(matches!(failed, HandoffState::Done { outcome: HandoffOutcome::SpawnFailed }));
    assert!(HandoffState::SpawningMarked { previous: None }.with_marker());
    assert!(!relaunch_for_selection(None, &adapters).with_marker());
}

#[test]
fn a_failed_start_gives_the_preference_back() {
    let state = HandoffState::SpawningMarked { previous: None };
    let state = state.on_event(HandoffEvent::Spawned { ok: false, now: 0 });
    assert!(matches!(state, HandoffState::RestoringAfterFailure { previous: None }));
    let state = state.on_event(HandoffEvent::PreferenceWritten { ok: true });
    assert!(matches!(state, HandoffState::Done { outcome: HandoffOutcome::SpawnFailed }));
}

#[test]
fn the_marker_file_and_what_it_says() {
    assert_eq!(ready_file_name(12, 3456), "cHiDeScaler-Neo-gpu-handoff-12-3456.ready");
    let body = signal_relaunch_render_ready(Some(0x2a), "Card\nX");
    assert!(body.contains("Card X"));
    assert!(!body.contains("Card\nX"));
}
