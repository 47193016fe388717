use chidescaler_neo::controls::target_icon_and_label;
use chidescaler_neo::language::checkbox_label_reference;
use chidescaler_neo::layout::{
    basic_height, basic_restored_width, basic_size_for_stats, basic_stats_height, basic_stats_rows, basic_width,
    bounded_button_width, bounded_checkbox_width, bounded_plain_label_width, capture_resolution_field_width,
    full_chain_height, full_layout_key, full_rows, full_settings_height, full_split, full_wrapped_row_extra,
    gui_fallback_repaint_ms, language_popup_height, measure_full, mini_width, mode_at, mode_sizes, position_is_sane,
    preset_popup_height, preset_popup_id, remembered_position, restored_size, size_is_sane, width_changed, work_area_cap, FullDemand,
    FullRows, FullTexts, SavedSizes, ScreenRoom, Spacing, UiMode, BASIC_DEFAULT_HEIGHT, BASIC_MAX_RESTORED_WIDTH,
    BASIC_MIN_WIDTH, FULL_DEFAULT_WIDTH, FULL_LAYOUT_FIXED_RESERVE, FULL_MIN_WIDTH, FULL_SETTINGS_BOTTOM_GUTTER,
    FULL_SETTINGS_VISIBLE_BOTTOM_PADDING, FULL_TOOLBAR_WRAP_EXTRA_HEIGHT, MAX_TRANSLATED_BUTTON_WIDTH,
    MINI_DEFAULT_HEIGHT, MINI_LANGUAGE_POPUP_HEIGHT, MINI_PRESET_POPUP_HEIGHT, PRESET_POPUP_BOTTOM_GUTTER,
    PRESET_ROW_GAP, PRESET_ROW_HEIGHT, TARGET_ROW_HEIGHT, TARGET_TEXT_Y_OFFSET, UNIT,
};

fn units(points: u64) -> u64 {
    points * UNIT
}

fn units32(points: u32) -> u32 {
    points * UNIT as u32
}

fn spacing() -> Spacing {
    Spacing {
        item_gap: units32(8),
        button_padding: units32(4),
        interact_width: units32(40),
        icon_width: units32(14),
        icon_spacing: units32(4),
    }
}

fn texts(each: u32) -> FullTexts {
    let t = units32(each);
    FullTexts {
        display: t,
        fullscreen: t,
        windowed: t,
        cross: t,
        resize: t,
        capture_size: t,
        widest_resolution: t,
        aspect: t,
        aspect_mode: t,
        aspect_width: t,
        aspect_height: t,
        crop: t,
        crop_left: t,
        crop_top: t,
        crop_right: t,
        crop_bottom: t,
        fps_cap: t,
        duplicate_reduction: t,
        smooth_pacing: t,
        vsync: t,
        tensorrt: Some(t),
        stats: t,
        keep_on_top: t,
        show_panel: t,
        client_only: t,
        save_log: t,
        gpu: Some(t),
        autohide: t,
        cursor_speed: t,
        restart_as_admin: t,
        start: t,
        running: t,
        widest_preset: t,
        save: t,
        save_as: t,
        new_preset: t,
        delete: t,
    }
}

fn rows(each: u64) -> FullRows {
    let w = units(each);
    FullRows { display: w, aspect: w, crop: w, cadence: w, options: w, cursor: w, toolbar: w }
}

fn room() -> ScreenRoom {
    ScreenRoom { monitor_w: units32(1920), monitor_h: units32(1080), work_w: None, work_h: None }
}

fn demand(rows: FullRows) -> FullDemand {
    FullDemand { rows, zoom: UNIT as u32, room: room(), filter_count: 2, stats_on: false, stats_rows: 2 }
}

#[test]
fn gui_fallback_throttles_only_the_gui_side() {
    assert_eq!(gui_fallback_repaint_ms(false), 250);
    assert_eq!(gui_fallback_repaint_ms(true), 521);
}

#[test]
fn full_layout_retargets_both_directions_when_requirements_change() {
    // The target follows what is required, not the size that the window has: it grows with the
    // rows and shrinks with them again.
    let small = measure_full(demand(rows(700)));
    let large = measure_full(demand(rows(1200)));
    assert!(large.width > small.width);
    assert_ne!(small.key, large.key);
    let again = measure_full(demand(rows(700)));
    assert_eq!((again.width, again.height, again.key), (small.width, small.height, small.key));
    assert_eq!(small.key, full_layout_key(small.width, units32(1080 - 16), small.height));
}

#[test]
fn full_chain_height_follows_statistics_mode() {
    assert_eq!(full_chain_height(8, true), 226);
    assert_eq!(full_chain_height(3, true), 226);
    assert_eq!(full_chain_height(1, true), 170);
    assert_eq!(full_chain_height(2, false), 226);
    assert_eq!(full_chain_height(4, false), 338);
}

#[test]
fn full_settings_reserve_no_statistics_space_when_disabled() {
    assert_eq!(full_settings_height(false, 12), 458);
    assert_eq!(full_settings_height(true, 2), 616);
}

#[test]
fn full_layout_key_changes_when_statistics_need_more_height() {
    let stats_off = full_layout_key(units32(918), units32(1080), units32(700));
    let stats_on = full_layout_key(units32(918), units32(1080), units32(892));
    assert_ne!(stats_off, stats_on);
}

#[test]
fn full_wrapped_rows_reserve_only_the_extra_visual_lines() {
    assert_eq!(full_wrapped_row_extra(units(700), units(800), 32), 0);
    assert_eq!(full_wrapped_row_extra(units(801), units(800), 32), 32);
    assert_eq!(full_wrapped_row_extra(units(1601), units(800), 32), 64);
    // There is room for one point at least.
    assert_eq!(full_wrapped_row_extra(1433, 0, 32), 0);
    assert_eq!(full_wrapped_row_extra(1537, 0, 32), 32);
}

#[test]
fn full_bottom_panel_consumes_the_measured_settings_wrap_extra() {
    // Rows that are wider than the screen wrap; the settings get the height that this takes,
    // without the height of the tool bar's own wrapping.
    let mut d = demand(rows(2500));
    let target = measure_full(d);
    assert_eq!(target.settings_extra, 6 * 32);
    let (_, settings) = full_split(2000, 2, false, 2, target.settings_extra);
    assert_eq!(settings, full_settings_height(false, 2) + target.settings_extra as u64);
    d.rows = FullRows { toolbar: units(2500), ..rows(500) };
    assert_eq!(measure_full(d).settings_extra, 0);
}

#[test]
fn full_width_uses_basic_style_static_measurement_only() {
    // The widest row and a fixed reserve decide; the window's present size has no part in it.
    let target = measure_full(demand(FullRows { crop: units(1000), ..rows(500) }));
    assert_eq!(target.width as u64, units(1000 + FULL_LAYOUT_FIXED_RESERVE));
    let narrow = measure_full(demand(rows(500)));
    assert_eq!(narrow.width as u64, units(FULL_DEFAULT_WIDTH));
}

#[test]
fn popup_heights_keep_mini_compact_and_restore_basic_full_capacity() {
    assert_eq!(language_popup_height(UiMode::Mini), 58);
    assert_eq!(language_popup_height(UiMode::Basic), 286);
    assert_eq!(language_popup_height(UiMode::Full), 286);
    assert_eq!(preset_popup_height(UiMode::Mini), 80);
    assert_eq!(preset_popup_height(UiMode::Basic), 324);
    assert_eq!(preset_popup_height(UiMode::Full), 324);
    assert!(language_popup_height(UiMode::Basic) > MINI_LANGUAGE_POPUP_HEIGHT * 4);
    assert!(language_popup_height(UiMode::Full) > MINI_LANGUAGE_POPUP_HEIGHT * 4);
    assert!(preset_popup_height(UiMode::Basic) > MINI_PRESET_POPUP_HEIGHT * 4);
    assert!(preset_popup_height(UiMode::Full) > MINI_PRESET_POPUP_HEIGHT * 4);
}

#[test]
fn preset_popup_state_is_isolated_per_ui_mode() {
    let mini = preset_popup_id(UiMode::Mini);
    let basic = preset_popup_id(UiMode::Basic);
    let full = preset_popup_id(UiMode::Full);
    assert_ne!(mini, basic);
    assert_ne!(mini, full);
    assert_ne!(basic, full);
}

#[test]
fn target_row_has_a_fixed_non_expanding_height() {
    assert_eq!(TARGET_ROW_HEIGHT, 26);
}

#[test]
fn preset_rows_and_scroll_end_keep_explicit_breathing_room() {
    assert_eq!(PRESET_ROW_HEIGHT, 24);
    assert!(PRESET_ROW_GAP >= 4);
    assert!(PRESET_POPUP_BOTTOM_GUTTER >= 12);
}

#[test]
fn preset_popup_height_is_a_viewport_limit_not_a_content_clamp() {
    // The height of the list depends on the layout alone, never on how many presets there are:
    // more rows scroll.
    for mode in [UiMode::Mini, UiMode::Basic, UiMode::Full] {
        let shown = preset_popup_height(mode);
        let forty = 40 * (PRESET_ROW_HEIGHT + PRESET_ROW_GAP) + PRESET_POPUP_BOTTOM_GUTTER;
        assert!(forty > shown);
        assert_eq!(preset_popup_height(mode), shown);
    }
}

#[test]
fn preset_popup_and_scroll_ids_are_bound_to_live_ui_mode() {
    assert_eq!(preset_popup_id(UiMode::Mini), "preset_mini");
    assert_eq!(preset_popup_id(UiMode::Basic), "preset_basic");
    assert_eq!(preset_popup_id(UiMode::Full), "preset_full");
}

#[test]
fn full_settings_reserves_a_real_bottom_border_gutter() {
    assert!(FULL_SETTINGS_BOTTOM_GUTTER >= 32);
    assert!(FULL_SETTINGS_VISIBLE_BOTTOM_PADDING >= 18);
    assert!(FULL_SETTINGS_BOTTOM_GUTTER > FULL_SETTINGS_VISIBLE_BOTTOM_PADDING);
    assert_eq!(full_settings_height(false, 0), 458);
    assert!(full_settings_height(true, 3) > full_settings_height(false, 0));
}

#[test]
fn full_stats_off_two_and_three_filter_layouts_exceed_old_clipping_sizes() {
    let two_filters = 166 + full_chain_height(2, false) + full_settings_height(false, 2);
    let three_filters = 166 + full_chain_height(3, false) + full_settings_height(false, 3);
    assert_eq!(two_filters, 850);
    assert_eq!(three_filters, 906);
    assert!(two_filters > 722);
    assert!(three_filters > 778);
}

#[test]
fn full_toolbar_wrap_has_a_dedicated_height_reserve() {
    assert!(FULL_TOOLBAR_WRAP_EXTRA_HEIGHT >= 40);
    let one_line = 166 + full_chain_height(3, false) + full_settings_height(false, 3);
    let wrapped = one_line + FULL_TOOLBAR_WRAP_EXTRA_HEIGHT;
    assert_eq!(one_line, 906);
    assert!(wrapped >= 946);
}

#[test]
fn localized_checkbox_fix_preserves_geometry_and_uses_a_shared_script_line() {
    // The width of a box is that of its icon, the gap and the text, whatever the script.
    assert_eq!(bounded_checkbox_width(units32(50), spacing()), units(14 + 4 + 50));
    assert_eq!(
        checkbox_label_reference("統計"),
        checkbox_label_reference("描画安定化")
    );
    assert_eq!(
        checkbox_label_reference("Stats"),
        checkbox_label_reference("Keep GUI on top")
    );
    assert_ne!(checkbox_label_reference("統計"), checkbox_label_reference("Stats"));
}

#[test]
fn target_and_mini_capture_use_local_optical_centering_only() {
    assert_eq!(TARGET_TEXT_Y_OFFSET, 1);
    // The icon is drawn by itself, so it is taken off the words.
    assert_eq!(target_icon_and_label("🎯 Target:"), "Target:");
    assert_eq!(target_icon_and_label("🎯対象:"), "対象:");
    assert_eq!(target_icon_and_label("Capture:"), "Capture:");
}

#[test]
fn full_width_estimator_measures_localized_capture_toolbar() {
    let mut t = texts(40);
    let before = full_rows(t, spacing());
    t.save_as = units32(160);
    let after = full_rows(t, spacing());
    assert_eq!(after.toolbar, before.toolbar + units(120));
    // A tool bar that is the widest row decides the width.
    let target = measure_full(demand(FullRows { toolbar: units(1100), ..rows(500) }));
    assert_eq!(target.width as u64, units(1100 + FULL_LAYOUT_FIXED_RESERVE));
}

#[test]
fn basic_saved_width_can_never_restore_wider_than_full() {
    assert_eq!(basic_restored_width(units(1133)), units(BASIC_MAX_RESTORED_WIDTH));
    assert_eq!(basic_restored_width(units(720)), units(720));
    assert_eq!(basic_restored_width(units(400)), units(BASIC_MIN_WIDTH));
    assert!(BASIC_MAX_RESTORED_WIDTH < FULL_MIN_WIDTH);
}

#[test]
fn the_rows_of_the_full_layout_add_up() {
    let r = full_rows(texts(40), spacing());
    assert_eq!(r.aspect, units(58 + 40 + 112 + 40 + 40 + 132 + 56));
    assert_eq!(r.crop, units(58 + 4 * 40 + 224 + 72));
    assert_eq!(r.cadence, units(4 * 58 + 64 + 58 + 48));
    assert_eq!(r.cursor, units(3 * 58 + 92 + 14 + 32));
}

#[test]
fn texts_are_bounded() {
    assert_eq!(bounded_button_width(units32(1000), spacing()), units(MAX_TRANSLATED_BUTTON_WIDTH));
    assert_eq!(bounded_button_width(units32(10), spacing()), units(40));
    assert_eq!(bounded_plain_label_width(units32(1000)), units(220));
    assert_eq!(capture_resolution_field_width(units32(10)), units(96));
    assert_eq!(capture_resolution_field_width(units32(100)), units(122));
    assert_eq!(capture_resolution_field_width(units32(1000)), units(156));
}

#[test]
fn the_full_layout_stays_within_the_work_area() {
    let mut d = demand(rows(3000));
    d.stats_on = true;
    d.stats_rows = 40;
    d.room.work_w = Some(units32(1800));
    d.room.work_h = Some(units32(900));
    let target = measure_full(d);
    assert_eq!(target.width, units32(1800));
    assert_eq!(target.height, units32(900));
    assert_eq!(work_area_cap((1920, 1040), None, None), (1920 - 16 - 8, 1040 - 40 - 8));
    assert_eq!(work_area_cap((1920, 1040), Some((816, 639)), Some((800, 600))), (1896, 993));
    assert_eq!(work_area_cap((200, 200), None, None), (320, 320));
}

#[test]
fn the_small_layouts_keep_their_width_unless_they_may_shrink() {
    let zoom = UNIT as u32;
    let wide = mini_width(units32(60), units32(60), units32(60), zoom, units32(1920), Some(units32(1000)), false);
    assert_eq!(wide, units(1000));
    let free = mini_width(units32(60), units32(60), units32(60), zoom, units32(1920), Some(units32(1000)), true);
    assert!(free < wide);
    let basic = basic_width([units32(50); 4], zoom, units32(1920), None, true);
    assert!(basic >= units(BASIC_MIN_WIDTH));
}

#[test]
fn the_basic_layout_grows_with_its_statistics() {
    assert_eq!(basic_stats_rows(2, 5), 5);
    assert_eq!(basic_stats_rows(7, 5), 7);
    assert_eq!(basic_stats_height(3), 438 + 66);
    assert_eq!(basic_height(false, 3), BASIC_DEFAULT_HEIGHT);
    assert_eq!(basic_height(true, 3), 438 + 66);
    let (_, off) = basic_size_for_stats(Some(units32(720)), None, false, 3);
    let (_, on) = basic_size_for_stats(Some(units32(720)), None, true, 3);
    assert!(on > off);
}

#[test]
fn the_switch_has_three_segments() {
    assert_eq!(mode_at(-5, 40), UiMode::Mini);
    assert_eq!(mode_at(39, 40), UiMode::Mini);
    assert_eq!(mode_at(40, 40), UiMode::Basic);
    assert_eq!(mode_at(80, 40), UiMode::Full);
    assert_eq!(mode_sizes(UiMode::Mini), ((760, 105), (760, 101)));
}

#[test]
fn a_restored_window_is_sane() {
    assert_eq!(restored_size(UiMode::Mini, Some((units(800), units(900)))), Some((units(800), units(MINI_DEFAULT_HEIGHT))));
    assert_eq!(restored_size(UiMode::Full, None), None);
    assert!(size_is_sane(UiMode::Full, (units(900), units(840))));
    assert!(!size_is_sane(UiMode::Full, (units(500), units(840))));
    assert!(!size_is_sane(UiMode::Full, (units(5000), units(840))));
    assert!(position_is_sane(0, 0));
    assert!(!position_is_sane(-201 * 1024, 0));
    assert_eq!(width_changed(None, units(700)), (700, true));
    assert_eq!(width_changed(Some(700), units(700)), (700, false));
}

#[test]
fn every_layout_keeps_its_own_size() {
    let mut sizes = SavedSizes { mini: None, basic: None, full: None };
    sizes.remember(UiMode::Basic, (1, 2), false);
    sizes.remember(UiMode::Full, (3, 4), true);
    assert_eq!(sizes.of(UiMode::Basic), Some((1, 2)));
    assert_eq!(sizes.of(UiMode::Full), None);
    assert_eq!(sizes.of(UiMode::Mini), None);
    assert_eq!(remembered_position(Some((1, 2)), Some((3, 4)), false), Some((3, 4)));
    assert_eq!(remembered_position(Some((1, 2)), Some((3, 4)), true), Some((1, 2)));
    assert_eq!(remembered_position(Some((1, 2)), None, false), Some((1, 2)));
}
