use chidescaler_neo::chain::{StageKind, StageSpec};
use chidescaler_neo::filters::{build_filter_tree, name_before, picker_rows, PickerRow};
use chidescaler_neo::meter::{load_bar, resource_meter, LoadLevel, LoadSegment};
use chidescaler_neo::stats::{
    metric_row_base_name, metric_row_occurrence, stage_file_name, stats_lines, stats_rows_in_filter_chain_order,
    ShownRow, StageStat,
};

fn stage(kind: StageKind, path: &str) -> StageSpec {
    StageSpec { kind, path: path.into(), enabled: true, params: Default::default() }
}

fn row(label: &str, kind: &str, ms: f64) -> (String, StageStat) {
    (label.to_string(), StageStat { kind: kind.into(), ms: ms.to_bits() })
}

#[test]
fn gui_statistics_follow_live_filter_chain_order() {
    let chain = vec![
        stage(StageKind::Onnx, "models/RIFE/rife_v4.22_lite_fp16.onnx"),
        stage(StageKind::Onnx, "models/AnimeJaNai/2x_AnimeJaNai.onnx"),
    ];
    let rows = vec![
        row("2x_AnimeJaNai.onnx [DirectML]", "onnx", 14.0),
        row("rife_v4.22_lite_fp16.onnx [DirectML]", "onnx", 10.0),
    ];
    let ordered = stats_rows_in_filter_chain_order(&chain, rows);
    assert_eq!(ordered[0].0, "rife_v4.22_lite_fp16.onnx [DirectML]");
    assert_eq!(ordered[1].0, "2x_AnimeJaNai.onnx [DirectML]");
    assert_eq!(f64::from_bits(ordered[0].1.ms), 10.0);
}

#[test]
fn gui_statistics_keep_unmeasured_live_shader_visible() {
    let chain = vec![
        stage(StageKind::Onnx, "models/rife_v4.22_lite_fp16.onnx"),
        stage(StageKind::Glsl, "shaders/FSRCNNX/FSRCNNX_x2_16_0_4_1.glsl"),
    ];
    let rows = vec![row("rife_v4.22_lite_fp16.onnx [DirectML]", "onnx", 13.8)];
    let ordered = stats_rows_in_filter_chain_order(&chain, rows);
    assert_eq!(ordered.len(), 2);
    assert_eq!(ordered[0].0, "rife_v4.22_lite_fp16.onnx [DirectML]");
    assert_eq!(ordered[1].0, "FSRCNNX_x2_16_0_4_1.glsl");
    assert!(f64::from_bits(ordered[1].1.ms) < 0.0);
    assert_eq!(ordered[1].1.kind, "glsl");
}

#[test]
fn gui_statistics_preserve_duplicate_filter_occurrences() {
    let chain = vec![stage(StageKind::Glsl, "shaders/Test.glsl"), stage(StageKind::Glsl, "shaders/Test.glsl")];
    let rows = vec![row("Test.glsl #2", "glsl", 2.0), row("Test.glsl #1", "glsl", 1.0)];
    let ordered = stats_rows_in_filter_chain_order(&chain, rows);
    assert_eq!(ordered.len(), 2);
    assert_eq!(ordered[0].0, "Test.glsl #1");
    assert_eq!(ordered[1].0, "Test.glsl #2");
}

#[test]
fn rows_without_a_filter_come_last() {
    let mut off = stage(StageKind::Glsl, "shaders/Off.glsl");
    off.enabled = false;
    let chain = vec![off, stage(StageKind::Glsl, "shaders/On.glsl")];
    let rows = vec![row("Capture", "system", 1.0), row("On.glsl", "glsl", 2.0)];
    let ordered = stats_rows_in_filter_chain_order(&chain, rows);
    let labels: Vec<&str> = ordered.iter().map(|r| r.0.as_str()).collect();
    assert_eq!(labels, vec!["On.glsl", "Capture"]);
}

#[test]
fn labels_are_taken_apart() {
    assert_eq!(metric_row_occurrence("Test.glsl #2"), Some(2));
    assert_eq!(metric_row_occurrence("Test.glsl"), None);
    assert_eq!(metric_row_base_name("Test.glsl #2"), "Test.glsl");
    assert_eq!(metric_row_base_name("A.onnx [DirectML]"), "A.onnx");
    assert_eq!(stage_file_name("C:\\models\\x\\y.onnx"), "y.onnx");
    assert_eq!(stage_file_name("models/x/"), "x");
    assert_eq!(stage_file_name(""), "");
    assert_eq!(stage_file_name("models/x/."), "x");
    assert_eq!(stage_file_name("models/.."), "models/..");
    assert_eq!(stage_file_name("C:"), "C:");
    assert_eq!(stage_file_name("C:x.onnx"), "x.onnx");
}

#[test]
fn a_prefix_is_no_file_name() {
    let paths = [r"\\a\b", "//a/b", r"\\a\b\", r"\\.\COM1", r"\\?\C:", r"\\?\C:\", r"\\?\UNC\a\b", r"\\?\x"];
    for path in paths {
        assert_eq!(stage_file_name(path), path);
    }
    assert_eq!(stage_file_name(r"\\a\b\c.glsl"), "c.glsl");
    assert_eq!(stage_file_name(r"\\a\b\c/d.glsl"), "d.glsl");
    assert_eq!(stage_file_name(r"\\.\COM1\c"), "c");
    assert_eq!(stage_file_name(r"\\?\UNC\a\b\c.glsl"), "c.glsl");
    assert_eq!(stage_file_name(r"\\?\C:\c/d.glsl"), "c/d.glsl");
    assert_eq!(stage_file_name(r"\\?\C:\."), r"\\?\C:\.");
    assert_eq!(stage_file_name(r"\\a"), "a");
}

#[test]
fn a_line_without_a_time_has_dashes() {
    let chain = vec![stage(StageKind::Glsl, "shaders/On.glsl")];
    assert_eq!(stats_lines(&chain, &[]), vec!["  --.--ms  [Glsl] On.glsl".to_string()]);
    let rows = vec![
        ShownRow { time: Some(" 1.50".into()), kind: "glsl".into(), name: "On.glsl".into() },
        ShownRow { time: None, kind: "onnx".into(), name: "X".into() },
    ];
    assert_eq!(
        stats_lines(&chain, &rows),
        vec!["   1.50ms  [glsl] On.glsl".to_string(), "  --.--ms  [onnx] X".to_string()]
    );
}

#[test]
fn the_bar_changes_colour_where_the_load_is_high() {
    assert!(load_bar(0).is_empty());
    assert_eq!(load_bar(5000), vec![LoadSegment { from: 0, to: 5000, level: LoadLevel::Low }]);
    assert_eq!(
        load_bar(12_345),
        vec![
            LoadSegment { from: 0, to: 7000, level: LoadLevel::Low },
            LoadSegment { from: 7000, to: 8500, level: LoadLevel::High },
            LoadSegment { from: 8500, to: 10_000, level: LoadLevel::Critical },
        ]
    );
    assert_eq!(resource_meter(7, Some(9)), (7, 9, None));
    assert_eq!(resource_meter(7, None), (7, 0, Some("GPU counter unavailable")));
}

#[test]
fn picker_tree_preserves_deep_model_and_shader_folders() {
    let available = vec![
        (
            StageKind::Onnx,
            "models/people/anime/rife/model.onnx".to_string(),
        ),
        (StageKind::Glsl, "shaders/anime/restore/filter.glsl".to_string()),
    ];
    let tree = build_filter_tree(&available);
    let rife = tree.dir("people").unwrap().dir("anime").unwrap().dir("rife").unwrap();
    assert!(rife.files.iter().any(|file| file.path.ends_with("model.onnx")));
    let restore = tree.dir("anime").unwrap().dir("restore").unwrap();
    assert!(restore.files.iter().any(|file| file.path.ends_with("filter.glsl")));
    assert!(tree.dir("models").is_none());
}

#[test]
fn builtin_neoflow_is_rendered_above_filter_folders() {
    let available = vec![
        (StageKind::Flow, "builtin:NeoFlow".to_string()),
        (StageKind::Glsl, "shaders/Anime4K/filter.glsl".to_string()),
    ];
    let tree = build_filter_tree(&available);
    let rows = picker_rows(&tree, "order-test", "内蔵");
    let builtin = rows
        .iter()
        .position(|r| matches!(r, PickerRow::Item { path, .. } if path == "builtin:NeoFlow"))
        .unwrap();
    let folder = rows
        .iter()
        .position(|r| matches!(r, PickerRow::Header { id, .. } if id == "order-test/Anime4K"))
        .unwrap();
    assert!(builtin < folder);
}

#[test]
fn picker_widget_accepts_repeated_real_click_events() {
    let path = "models/repeat.onnx".to_string();
    let tree = build_filter_tree(&[(StageKind::Onnx, path.clone())]);
    // The row that a click adds is there again after it was clicked.
    for _ in 0..2 {
        let rows = picker_rows(&tree, "repeat-test", "内蔵");
        let chosen: Vec<(StageKind, String)> = rows
            .iter()
            .filter_map(|r| match r {
                PickerRow::Item { kind, path, .. } => Some((*kind, path.clone())),
                _ => None,
            })
            .collect();
        assert_eq!(chosen, vec![(StageKind::Onnx, path.clone())]);
    }
}

#[test]
fn folders_are_in_order() {
    assert!(name_before("Anime4K", "FSRCNNX"));
    assert!(!name_before("b", "a"));
    assert!(!name_before("a", "a"));
    let available = vec![
        (StageKind::Glsl, "shaders/b/x.glsl".to_string()),
        (StageKind::Glsl, "shaders/a/y.glsl".to_string()),
    ];
    let tree = build_filter_tree(&available);
    let names: Vec<&str> = tree.dirs.iter().map(|d| d.name.as_str()).collect();
    assert_eq!(names, vec!["a", "b"]);
}
