use chidescaler_neo::actions::Rect;
use chidescaler_neo::display::ScaleMode;
use chidescaler_neo::hotkey_editor::{editor_error_phrase, EditorError};
use chidescaler_neo::hotkeys::HotkeyValidationError;
use chidescaler_neo::layout::{SizedFor, UiMode};
use chidescaler_neo::locale_menu::{update_language, LanguageUpdate};
use chidescaler_neo::options::{OptionChange, OptionCommand, Options};
use chidescaler_neo::presets::{
    AspectCorrection, AspectCorrectionMode, ASPECT_CORRECTION_SCALE_MAX,
    ASPECT_CORRECTION_SCALE_MIN,
};
use chidescaler_neo::session::{control_area, control_wait_ms, Busy, HALF_SECOND};

fn options() -> Options {
    Options {
        scale_mode: ScaleMode::Auto,
        ratio: 2.0f32.to_bits(),
        downscaler: 0,
        aspect: AspectCorrection {
            enabled: false,
            mode: AspectCorrectionMode::Manual,
            width_scale: 1.0f32.to_bits(),
            height_scale: 1.0f32.to_bits(),
        },
        fps_cap_enabled: false,
        fps_cap: 60,
        duplicate_frame_reduction: false,
        smooth_pacing: false,
        vsync: false,
        interp_factor: 2,
        stats_on: false,
        log_on: false,
        gui_topmost: false,
        panel_show: true,
        cursor_autohide: false,
        autohide_secs: 3.0f32.to_bits(),
        cursor_speed_fix: false,
        run_as_admin: false,
    }
}

#[test]
fn a_change_is_told_and_saved() {
    let mut o = options();
    assert_eq!(
        o.change(OptionChange::Vsync(true), false, false),
        vec![OptionCommand::SetVsync(true), OptionCommand::Save]
    );
    assert!(o.vsync);
    let shown = OptionCommand::SetMode { mode: ScaleMode::Auto, ratio: 2.0f32.to_bits() };
    assert_eq!(
        o.change(OptionChange::InterpFactor(4), true, false),
        vec![OptionCommand::SetInterpFactor(4), OptionCommand::Save, shown]
    );
    assert_eq!(
        o.change(OptionChange::Log(true), false, false),
        vec![OptionCommand::SetFileLogging(true), OptionCommand::RefreshTimers, OptionCommand::Save]
    );
    assert_eq!(
        o.change(OptionChange::FpsCap(1000), false, false),
        vec![OptionCommand::Save]
    );
    assert_eq!(o.fps_cap, 240);
    o.change(OptionChange::FpsCap(1), false, false);
    assert_eq!(o.fps_cap, 5);
}

#[test]
fn the_pointer_options_go_together() {
    let mut o = options();
    assert_eq!(
        o.change(OptionChange::AutohideSecs(0.1f32.to_bits()), false, false)[0],
        OptionCommand::SetInputOpts { autohide_secs: 0, speed_fix: false }
    );
    assert_eq!(
        o.change(OptionChange::CursorAutohide(true), false, false)[0],
        OptionCommand::SetInputOpts { autohide_secs: HALF_SECOND, speed_fix: false }
    );
    assert_eq!(
        o.change(OptionChange::CursorSpeedFix(true), false, false)[0],
        OptionCommand::SetInputOpts { autohide_secs: HALF_SECOND, speed_fix: true }
    );
}

#[test]
fn the_shape_is_told_to_a_running_capture_alone() {
    let mut o = options();
    assert_eq!(o.change(OptionChange::AspectEnabled(true), false, false), vec![OptionCommand::Save]);
    let commands = o.change(OptionChange::AspectMode(AspectCorrectionMode::Auto4x3), true, false);
    assert_eq!(commands[0], OptionCommand::SetAspectCorrection(o.aspect));
    assert_eq!(commands[1], OptionCommand::Save);
    assert!(o.aspect.enabled);
    assert_eq!(o.aspect.mode, AspectCorrectionMode::Auto4x3);
}

#[test]
fn the_wish_for_rights_is_saved_before_the_restart() {
    let mut o = options();
    assert_eq!(
        o.change(OptionChange::RunAsAdmin(true), false, false),
        vec![OptionCommand::Save, OptionCommand::Relaunch, OptionCommand::Save]
    );
    assert_eq!(
        o.change(OptionChange::RunAsAdmin(true), false, true),
        vec![OptionCommand::Save, OptionCommand::Save]
    );
}

#[test]
fn a_layout_is_sized_again_before_it_is_shown() {
    let sized = SizedFor {
        mini_width: Some(760),
        basic_width: Some(720),
        basic_stats: Some(false),
        basic_rows: Some(0),
        full_key: Some(7),
    };
    let mut basic = sized;
    basic.size_again(UiMode::Basic, true, 3);
    assert_eq!(
        basic,
        SizedFor { basic_width: None, basic_stats: Some(true), basic_rows: Some(3), ..sized }
    );
    let mut full = sized;
    full.size_again(UiMode::Full, true, 3);
    assert_eq!(full, SizedFor { full_key: None, ..sized });
}

#[test]
fn a_language_for_a_test_is_not_saved() {
    let mut current = 1;
    assert_eq!(
        update_language(&mut current, 1, false, false),
        LanguageUpdate { refresh: false, save: false }
    );
    assert_eq!(
        update_language(&mut current, 2, false, false),
        LanguageUpdate { refresh: true, save: true }
    );
    assert_eq!(current, 2);
    assert_eq!(
        update_language(&mut current, 2, true, true),
        LanguageUpdate { refresh: true, save: false }
    );
}

#[test]
fn the_main_control_is_drawn_while_it_moves() {
    let idle = Busy { starting: false, running: true, stopping: false, preparing: false };
    assert_eq!(control_wait_ms(idle, false), None);
    assert_eq!(control_wait_ms(idle, true), Some(16));
    assert_eq!(control_wait_ms(Busy { stopping: true, ..idle }, false), Some(33));
    assert_eq!(control_area(10, 20, 40, 50), Rect { x: 10, y: 20, w: 30, h: 30 });
    assert_eq!(control_area(10, 20, 10, 5), Rect { x: 10, y: 20, w: 1, h: 1 });
}

#[test]
fn the_editor_says_why_a_binding_is_not_taken() {
    assert_eq!(
        editor_error_phrase(&EditorError::InUse).en,
        "This shortcut is already used by Windows or another application."
    );
    assert_eq!(
        editor_error_phrase(&EditorError::LostInRegistration).ja,
        "登録中に競合が発生しました。以前のショートカットへ戻しました。"
    );
    assert_eq!(
        editor_error_phrase(&EditorError::Invalid(HotkeyValidationError::DuplicateKey)).en,
        "The same key is duplicated."
    );
}

#[test]
fn aspect_correction_defaults_are_noop_and_bounds_are_conservative() {
    let settings = AspectCorrection::off(AspectCorrectionMode::Manual);
    assert!(!settings.enabled);
    assert_eq!(f32::from_bits(settings.width_scale), 1.0);
    assert_eq!(f32::from_bits(settings.height_scale), 1.0);
    assert_eq!(f32::from_bits(ASPECT_CORRECTION_SCALE_MIN), 0.50);
    assert_eq!(f32::from_bits(ASPECT_CORRECTION_SCALE_MAX), 2.00);
}
