use chidescaler_neo::backend::CaptureCrop;
use chidescaler_neo::chain::{
    append_filter_stage, apply_chain_edits, apply_resize_scale, builtin_display_name, clamp_resize_scale, drag_frame, drop_item,
    drop_row, is_frozen_neoflow_stage, is_resize_shader_path, move_down, move_up, resize_scale_of, stage_badge,
    stage_display_name, ChainEdits, Drag, DragList, StageKind, StageSpec, DRAG_HOLD_NS, RESIZE_SCALE_MAX, RESIZE_SCALE_MIN,
};
use chidescaler_neo::markup::{
    preset_fg_tag_range, preset_markup_segments, preset_name_job, NameRun, NameStyle, PresetNameAccent,
};
use chidescaler_neo::presets::{
    active_chain, apply_live, chains_equal, delete_active, may_delete, save_active, select_preset, startup_workbench,
    AspectCorrection, AspectCorrectionMode, Draft, Preset, PresetEditError, PresetStore, SaveAsDialog, Workbench,
};
use chidescaler_neo::resolution::CaptureResolution;

fn stage(kind: StageKind, path: &str) -> StageSpec {
    StageSpec { kind, path: path.into(), enabled: true, params: Vec::new() }
}

fn plain_aspect() -> AspectCorrection {
    AspectCorrection {
        enabled: false,
        mode: AspectCorrectionMode::Manual,
        width_scale: 1.0f32.to_bits(),
        height_scale: 1.0f32.to_bits(),
    }
}

fn draft(paths: &[&str]) -> Draft {
    Draft {
        chain: paths.iter().map(|p| stage(StageKind::Glsl, p)).collect(),
        aspect: plain_aspect(),
        crop: CaptureCrop::default(),
        resolution: None,
    }
}

fn preset(name: &str, path: &str) -> Preset {
    Preset {
        name: name.into(),
        chain: vec![stage(StageKind::Glsl, path)],
        aspect: None,
        crop: None,
        resolution: None,
    }
}

fn store() -> PresetStore {
    PresetStore { presets: vec![preset("One", "a.glsl"), preset("Two", "b.glsl")], active: "One".into() }
}

#[test]
fn fg_tag_detection_colors_only_the_standalone_marker() {
    assert_eq!(preset_fg_tag_range("RIFE 4.25 Lite  FG"), Some(16..18));
    assert_eq!(preset_fg_tag_range("RIFE 4.25 Lite  FGen"), None);
    assert_eq!(preset_fg_tag_range("FSRCNNX x2"), None);
    // A letter of any script in front of the marker makes it a part of a word.
    assert_eq!(preset_fg_tag_range("\u{e9}FG"), None);
    assert_eq!(preset_fg_tag_range("\u{221e} FG"), Some(4..6));
}

#[test]
fn preset_fg_badge_is_center_aligned_for_every_locale() {
    // The badge is a run of its own, in every language, and no character is lost.
    for name in ["RIFE FG Lite", "補間 FG", "***∞*** FG"] {
        let runs = preset_name_job(name);
        let badges: Vec<&NameRun> = runs.iter().filter(|r| r.style == NameStyle::Badge).collect();
        assert_eq!(badges.len(), 1);
        assert_eq!(badges[0].text, "FG");
        let all: String = runs.iter().map(|r| r.text.as_str()).collect();
        assert_eq!(all, name.replace('*', ""));
    }
}

#[test]
fn preset_name_markup_hides_delimiters_and_selects_color() {
    assert_eq!(
        preset_markup_segments("A *Σ* **Ω** ***∞*** Z"),
        vec![
            ("A ", None),
            ("Σ", Some(PresetNameAccent::Gold)),
            (" ", None),
            ("Ω", Some(PresetNameAccent::Cyan)),
            (" ", None),
            ("∞", Some(PresetNameAccent::Red)),
            (" Z", None),
        ]
    );
    assert_eq!(
        preset_markup_segments("plain * unmatched"),
        vec![("plain * unmatched", None)]
    );
}

#[test]
fn an_emphasised_marker_is_no_badge() {
    let runs = preset_name_job("*FG* x");
    assert_eq!(runs[0].style, NameStyle::Accent(PresetNameAccent::Gold));
    assert_eq!(runs[1].style, NameStyle::Normal);
    assert_eq!(runs.len(), 2);
}

#[test]
fn empty_emphasis_is_plain_text() {
    assert_eq!(preset_markup_segments("a ** b"), vec![("a ** b", None)]);
    assert!(preset_markup_segments("").is_empty());
}

#[test]
fn resize_filter_defaults_to_point_seven_five() {
    let mut chain = Vec::new();
    append_filter_stage(
        &mut chain,
        StageKind::Glsl,
        "shaders/Resize/Spline36_Neo.glsl".to_string(),
    );
    assert_eq!(chain[0].param("RESIZE_SCALE"), Some(0.75f32.to_bits()));
}

#[test]
fn stopped_chain_accepts_repeated_filter_additions() {
    let mut chain = Vec::new();
    append_filter_stage(
        &mut chain,
        StageKind::Onnx,
        "models/custom/first.onnx".into(),
    );
    append_filter_stage(
        &mut chain,
        StageKind::Glsl,
        "shaders/custom/second.glsl".into(),
    );
    append_filter_stage(
        &mut chain,
        StageKind::Onnx,
        "models/custom/third.onnx".into(),
    );
    assert_eq!(chain.len(), 3);
    assert!(chain.iter().all(|stage| stage.enabled));
    assert_eq!(chain[2].path, "models/custom/third.onnx");
}

#[test]
fn unspecified_preset_capture_resolution_inherits_current_gui_value() {
    let current = Some(CaptureResolution { w: 1280, h: 720 });
    let mut s = store();
    let mut bench = Workbench { current: draft(&[]), saved: draft(&[]) };
    bench.current.resolution = current;
    let given = select_preset(&mut s, &mut bench, "Two", plain_aspect());
    assert_eq!(given, Some(false));
    assert_eq!(bench.current.resolution, current);
}

#[test]
fn fixed_preset_capture_resolution_overrides_current_gui_value() {
    let current = Some(CaptureResolution { w: 1280, h: 720 });
    let fixed = Some(CaptureResolution { w: 640, h: 480 });
    let mut s = store();
    s.presets[1].resolution = fixed;
    let mut bench = Workbench { current: draft(&[]), saved: draft(&[]) };
    bench.current.resolution = current;
    let given = select_preset(&mut s, &mut bench, "Two", plain_aspect());
    assert_eq!(given, Some(true));
    assert_eq!(bench.current.resolution, fixed);
}

#[test]
fn choosing_a_preset_leaves_nothing_unsaved() {
    let mut s = store();
    let mut bench = Workbench { current: draft(&["x.glsl"]), saved: draft(&["y.glsl"]) };
    assert!(bench.dirty());
    assert!(select_preset(&mut s, &mut bench, "Two", plain_aspect()).is_some());
    assert_eq!(s.active, "Two");
    assert_eq!(bench.current.chain[0].path, "b.glsl");
    assert!(!bench.dirty());
    assert!(select_preset(&mut s, &mut bench, "Three", plain_aspect()).is_none());
    assert_eq!(s.active, "Two");
}

#[test]
fn an_edited_preset_is_marked_until_it_is_saved() {
    let mut s = store();
    let mut bench = startup_workbench(Some(&s.presets[0]), plain_aspect(), CaptureCrop::default(), None, plain_aspect());
    assert_eq!(bench.display_name("One"), "One");
    bench.current.chain[0].set_param("S", 1.5f32.to_bits());
    assert_eq!(bench.display_name("One"), "One *");
    assert!(save_active(&mut s, &mut bench));
    assert!(!bench.dirty());
    assert_eq!(s.presets[0].chain[0].param("S"), Some(1.5f32.to_bits()));
    assert_eq!(s.presets[1].chain[0].path, "b.glsl");
    s.active = "gone".into();
    assert!(!save_active(&mut s, &mut bench));
    bench.clear_for_new_preset();
    assert!(bench.current.chain.is_empty());
    assert!(!bench.dirty());
}

#[test]
fn the_last_preset_is_kept() {
    assert!(!may_delete(1));
    assert!(may_delete(2));
    let mut s = store();
    let mut bench = Workbench { current: draft(&[]), saved: draft(&[]) };
    assert!(delete_active(&mut s, &mut bench, plain_aspect()).is_some());
    assert_eq!(s.presets.len(), 1);
    assert_eq!(s.active, "Two");
    assert_eq!(bench.current.chain[0].path, "b.glsl");
}

#[test]
fn numbers_are_compared_as_numbers() {
    let mut a = vec![stage(StageKind::Glsl, "a")];
    let mut b = vec![stage(StageKind::Glsl, "a")];
    a[0].set_param("x", 0.0f32.to_bits());
    b[0].set_param("x", (-0.0f32).to_bits());
    assert!(chains_equal(&a, &b));
    b[0].set_param("x", 1.0f32.to_bits());
    assert!(!chains_equal(&a, &b));
    a[0].set_param("x", f32::NAN.to_bits());
    b[0].set_param("x", f32::NAN.to_bits());
    assert!(!chains_equal(&a, &b));
}

#[test]
fn saving_under_a_name_can_fail() {
    let mut dialog = SaveAsDialog { open: false, name: String::new(), error: None };
    let mut bench = Workbench { current: draft(&["x.glsl"]), saved: draft(&[]) };
    dialog.open("One");
    assert!(dialog.open && dialog.name == "One");
    for error in [PresetEditError::EmptyName, PresetEditError::NameInUse, PresetEditError::ActivePresetMissing] {
        assert!(!dialog.saved(&mut bench, Err(error)));
        assert!(dialog.open);
        assert_eq!(dialog.error, Some(error));
        dialog.edited();
        assert_eq!(dialog.error, None);
    }
    assert!(dialog.saved(&mut bench, Ok(())));
    assert!(!dialog.open);
    assert!(!bench.dirty());
}

#[test]
fn a_running_capture_gets_the_edited_chain() {
    let d = draft(&["x.glsl"]);
    assert!(apply_live(false, &d, 1, 2).is_none());
    let command = apply_live(true, &d, 1, 2).unwrap();
    assert_eq!(command.chain[0].path, "x.glsl");
    assert_eq!((command.aspect.width_scale, command.aspect.height_scale), (1, 2));
}

#[test]
fn a_frozen_stage_is_left_out() {
    let mut flow = stage(StageKind::Flow, "builtin:NeoFlow");
    assert!(is_frozen_neoflow_stage(&flow));
    flow.enabled = false;
    let chain = vec![flow, stage(StageKind::Glsl, "a.glsl")];
    let kept = active_chain(&chain);
    assert_eq!(kept.len(), 1);
    assert_eq!(kept[0].path, "a.glsl");
}

#[test]
fn names_of_stages() {
    assert_eq!(stage_badge(StageKind::Onnx), "ONNX");
    assert_eq!(stage_badge(StageKind::Flow), "FG");
    assert_eq!(stage_display_name("shaders/Anime4K/Restore.glsl"), "Restore.glsl");
    assert_eq!(builtin_display_name("NeoFlow"), stage_display_name("builtin:NeoFlow"));
    assert!(is_resize_shader_path("shaders\\Resize\\Spline36_Neo.glsl"));
    assert!(!is_resize_shader_path("shaders/Restore.glsl"));
}

#[test]
fn rows_are_moved_by_dragging() {
    let mut list = vec!["a", "b", "c"];
    assert!(drop_item(&mut list, 0, 2));
    assert_eq!(list, vec!["b", "a", "c"]);
    move_down(&mut list, 0);
    assert_eq!(list, vec!["a", "b", "c"]);
    move_up(&mut list, 2);
    assert_eq!(list, vec!["a", "c", "b"]);
    assert_eq!(drop_row(&[false, false, true]), 2);
    let drag = Drag { list: DragList::Chain, from: 1, since: 0, active: false };
    assert!(!drag_frame(drag, DRAG_HOLD_NS - 1, true).insertion);
    let held = drag_frame(drag, DRAG_HOLD_NS, true);
    assert!(held.insertion && !held.drop);
    let dropped = drag_frame(Drag { active: true, ..drag }, DRAG_HOLD_NS, false);
    assert!(dropped.drop && dropped.next.is_none());
}

#[test]
fn a_scale_stays_within_its_bounds() {
    assert_eq!(clamp_resize_scale(9.0f32.to_bits()), RESIZE_SCALE_MAX);
    assert_eq!(clamp_resize_scale(0.01f32.to_bits()), RESIZE_SCALE_MIN);
    assert_eq!(clamp_resize_scale(1.5f32.to_bits()), 1.5f32.to_bits());
    let mut chain = vec![stage(StageKind::Glsl, "shaders/Resize/Spline36_Neo.glsl")];
    assert_eq!(resize_scale_of(&chain[0]), 0.75f32.to_bits());
    assert!(apply_resize_scale(&mut chain, 0, 2.0f32.to_bits()));
    assert_eq!(resize_scale_of(&chain[0]), 2.0f32.to_bits());
    assert!(!apply_resize_scale(&mut chain, 4, 2.0f32.to_bits()));
}

#[test]
fn the_edits_of_a_frame_are_carried_out_in_order() {
    let mut chain = vec![stage(StageKind::Glsl, "a"), stage(StageKind::Glsl, "b"), stage(StageKind::Glsl, "c")];
    let none = ChainEdits {
        toggled: false,
        dropped: None,
        edit_scale: None,
        move_down: None,
        move_up: None,
        remove: None,
    };
    assert_eq!(apply_chain_edits(&mut chain, none), (false, None));
    let edits = ChainEdits { dropped: Some((0, 3)), edit_scale: Some(2), move_up: Some(1), remove: Some(0), ..none };
    let (changed, editor) = apply_chain_edits(&mut chain, edits);
    assert!(changed);
    assert_eq!(editor, Some((2, 0.75f32.to_bits())));
    let paths: Vec<&str> = chain.iter().map(|s| s.path.as_str()).collect();
    assert_eq!(paths, vec!["b", "a"]);
    assert!(!apply_chain_edits(&mut chain, ChainEdits { dropped: Some((1, 2)), ..none }).0);
    assert!(apply_chain_edits(&mut chain, ChainEdits { toggled: true, ..none }).0);
}
