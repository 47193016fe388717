use chidescaler_neo::controls::{
    aspect_mode_label, basic_layout_outdated, client_only_changed, client_only_control, downscalers, internal_size,
    interpolation_factors, manual_scales_enabled, metrics_enabled, settings_changed, startup_mode, target_text,
};
use chidescaler_neo::help::{
    backend_help, client_only_help, gpu_selector_help, help_key, BackendHelp, HelpTopic,
};
use chidescaler_neo::language::{
    font_families, hotkey_error_phrase, locale_font_family, mixed_text_font_family, ordered_family, UiLanguage,
};
use chidescaler_neo::hotkeys::HotkeyValidationError;
use chidescaler_neo::launch::{
    already_running_line, argument_given, argument_value, given_target, launch_mode, on_exit, opened_dialogs,
    process_entry_line, root_is_current_folder, yields_to_other, ExitFacts, ExitStep, LaunchMode,
};
use chidescaler_neo::layout::UiMode;
use chidescaler_neo::locale_menu::{
    code_label, effective_language, find_locale, is_portuguese_alias, requested_tag, CustomLocale, LanguageSetting,
};
use chidescaler_neo::notices::{
    compact_status_line, ellipsis_candidates, ellipsize_to_width, engine_count_line, hidden_errors, model_label,
    more_errors_line, overload_place, shown_chain_errors, status_lines, Complaints, OverloadPlace, Tone,
};
use chidescaler_neo::presets::AspectCorrectionMode;
use chidescaler_neo::probe::{
    breadcrumb_line, glsl_probe_line, gpu_probe_line, image_probe_line, probe_skipped_line, probe_unavailable_line,
    GlslProbe, ImageProbe, ProbedGpu,
};
use chidescaler_neo::resolution::CaptureResolution;
use chidescaler_neo::selection::ProbeKind;
use chidescaler_neo::startup::{command_bytes, run_key, set_enabled, startup_command, value_name};
use chidescaler_neo::text::{
    contains, eq_ignore_ascii_case, parse_unsigned, push_decimal, push_hex, push_signed_decimal, split, split_once,
    starts_with, to_ascii_lowercase, to_ascii_uppercase, trim,
};
use chidescaler_neo::utf16::{decode_terminated, wide, wide_name};

#[test]
fn hover_help_uses_stable_locale_keys_instead_of_english_phrase_matching() {
    let topics = [
        (HelpTopic::SmoothPacing, "smooth.help"),
        (HelpTopic::InterpolationFactor, "interpolation.factor_help"),
        (HelpTopic::TensorRt, "tensorrt.help"),
        (HelpTopic::TensorRtPackRequired, "tensorrt.pack_required"),
        (HelpTopic::TensorRtUnavailable, "tensorrt.unavailable_help"),
        (HelpTopic::PanelTopmostOn, "panel.gui_topmost_enable_help"),
        (HelpTopic::PanelTopmostOff, "panel.gui_topmost_disable_help"),
    ];
    for (topic, key) in topics {
        assert_eq!(help_key(topic), key, "missing keyed tooltip: {key}");
        assert!(!help_key(topic).contains(' '));
    }
    assert_eq!(gpu_selector_help(false), HelpTopic::GpuStopFirst);
    assert_eq!(client_only_help(true), HelpTopic::ClientOnlyForced);
}

#[test]
fn the_help_of_the_backend_grows_with_what_there_is_to_say() {
    let texts = BackendHelp {
        help: "help".into(),
        crop_unsaved: "crop".into(),
        cuda_fallback: "cuda 2".into(),
        directml_fallback: "directml 1".into(),
    };
    assert_eq!(backend_help(&texts, false, true, 0, 0), "help");
    assert_eq!(backend_help(&texts, false, false, 2, 1), "help\ncrop\ncuda 2\ndirectml 1");
    assert_eq!(backend_help(&texts, true, false, 0, 1), "help\ndirectml 1");
}

#[test]
fn mixed_window_titles_use_one_native_font_family() {
    assert_eq!(
        mixed_text_font_family("YouTube 日本語タイトル", UiLanguage::EnUs),
        locale_font_family(UiLanguage::JaJp)
    );
    assert_eq!(
        mixed_text_font_family("Chrome 한글 제목", UiLanguage::EnUs),
        locale_font_family(UiLanguage::KoKr)
    );
    assert_eq!(
        mixed_text_font_family("Chrome 中文标题", UiLanguage::ZhCn),
        locale_font_family(UiLanguage::ZhCn)
    );
    assert_eq!(
        mixed_text_font_family("Chrome English title", UiLanguage::EnUs),
        locale_font_family(UiLanguage::EnUs)
    );
    assert_eq!(
        mixed_text_font_family("Chrome हिन्दी शीर्षक", UiLanguage::EnUs),
        "ui_indic"
    );
    assert_eq!(
        mixed_text_font_family("Chrome ชื่อภาษาไทย", UiLanguage::EnUs),
        "ui_thai"
    );
}

#[test]
fn fonts_of_a_family_come_once_and_the_native_one_first() {
    let loaded: Vec<String> = ["ui_segoe", "ui_ja_font"].iter().map(|s| s.to_string()).collect();
    let built_in: Vec<String> = ["Hack", "ui_segoe"].iter().map(|s| s.to_string()).collect();
    assert_eq!(ordered_family("ui_ja_font", &loaded, &built_in), vec!["ui_ja_font", "ui_segoe", "Hack"]);
    assert_eq!(ordered_family("ui_ko_font", &loaded, &built_in), vec!["ui_segoe", "ui_ja_font", "Hack"]);
    assert_eq!(font_families()[4], ("ui_ko", "ui_ko_font"));
    assert_eq!(
        hotkey_error_phrase(&HotkeyValidationError::MissingModifier).en,
        "Ctrl, Alt, or Shift is required."
    );
}

#[test]
fn a_status_line_is_short_and_on_one_line() {
    assert_eq!(compact_status_line(" a\n  b\tc "), "! a b c");
    let long = "x".repeat(200);
    assert_eq!(compact_status_line(&long), format!("! {}...", "x".repeat(140)));
    assert_eq!(shown_chain_errors(2), (2, 0));
    assert_eq!(shown_chain_errors(5), (3, 2));
    assert_eq!(more_errors_line(2, "more"), "! +2 more");
    let errors: Vec<String> = ["a", "b", "c"].iter().map(|s| s.to_string()).collect();
    assert_eq!(hidden_errors(&errors, 1), "b\n\nc");
}

#[test]
fn progress_of_an_engine() {
    assert_eq!(model_label("rife"), "rife.onnx");
    assert_eq!(model_label("rife.ONNX"), "rife.ONNX");
    assert_eq!(engine_count_line("Engine", 0, 3), "Engine: 1/3");
    assert_eq!(engine_count_line("Engine", 3, 3), "Engine: 3/3");
}

#[test]
fn a_text_is_cut_to_its_width() {
    assert_eq!(ellipsis_candidates("abc"), vec!["ab\u{2026}", "a\u{2026}", "\u{2026}"]);
    assert_eq!(ellipsize_to_width("abc", true, &[true, true, true]), "abc");
    assert_eq!(ellipsize_to_width("abc", false, &[false, true, true]), "a\u{2026}");
    assert_eq!(ellipsize_to_width("abc", false, &[false, false, false]), "\u{2026}");
}

fn args(list: &[&str]) -> Vec<String> {
    list.iter().map(|s| s.to_string()).collect()
}

#[test]
fn the_command_line_decides_what_starts() {
    assert!(matches!(launch_mode(&args(&["x", "--cursor-rescue"])), LaunchMode::CursorRescue));
    assert!(matches!(launch_mode(&args(&["--cursor-janitor=42"])), LaunchMode::Janitor { parent: 42 }));
    assert!(matches!(
        launch_mode(&args(&["--cursor-janitor=42", "--cursor-rescue"])),
        LaunchMode::CursorRescue
    ));
    assert!(matches!(launch_mode(&args(&["--cursor-janitor=x"])), LaunchMode::Normal));
    assert!(argument_given(&args(&["--no-elevate"]), "--no-elevate"));
    assert_eq!(argument_value(&args(&["a", "--shot=p q"]), "--shot="), Some("p q".to_string()));
    assert_eq!(argument_value(&args(&["a"]), "--shot="), None);
    assert!(yields_to_other(false, false));
    assert!(!yields_to_other(false, true));
}

#[test]
fn lines_of_the_log() {
    assert_eq!(
        process_entry_line("v1", true, 7),
        "vulkan-production-glsl: phase=process-entry build=v1 env=enabled result_sink=true pid=7 singleton=not-checked vulkan_init=false"
    );
    assert_eq!(
        already_running_line("v1", 7),
        "vulkan-production-glsl: result=blocked reason=single-instance-already-running build=v1 pid=7 action=close-existing-Neo-and-rerun vulkan_init=false"
    );
    assert_eq!(
        breadcrumb_line("v1", false, None, Some(0x2a), "a\nb"),
        "vulkan-production-glsl: phase=process-start build=v1 env=enabled result_sink=false requested_luid=Auto actual_gl_luid=000000000000002a renderer='a b' vulkan_init=false next=session-start"
    );
    let gpu = ProbedGpu {
        luid: 1,
        name: "N".into(),
        vendor_id: 0x10de,
        device_id: 0x2c05,
        api_version: "1.3.0".into(),
        queue_family_index: 2,
        queue_flags: "GRAPHICS".into(),
    };
    assert_eq!(
        probe_skipped_line(ProbeKind::Gpu),
        "vulkan-gpu-probe: result=skipped reason=no-dxgi-luid fallback=OpenGL-unchanged"
    );
    assert!(probe_unavailable_line(ProbeKind::Glsl, 1, "no").contains("error=no"));
    assert!(gpu_probe_line(1, &gpu).contains("vendor=10de device=2c05 api=1.3.0 queue_family=2"));
    let glsl = GlslProbe { spirv_words: 100, verified_values: 64, checksum: 4096 };
    assert!(glsl_probe_line(1, &gpu, &glsl).contains("spirv_words=100 workload=u32x64 verified=64/64 checksum=4096"));
    let image = ImageProbe { spirv_words: 100, verified_pixels: 64, checksum: 0xab, expected_checksum: 0xab };
    assert!(image_probe_line(1, &gpu, &image).contains("checksum=00000000000000ab expected_checksum=00000000000000ab"));
}

#[test]
fn leaving_frees_the_pointer_before_and_after_the_engine() {
    let steps = on_exit(ExitFacts { onepass: false, multipass: false, gui_cloaked: true, screenshot_test: false });
    assert_eq!(
        steps,
        vec![
            ExitStep::HideTransitionPicture,
            ExitStep::UncloakGui,
            ExitStep::SaveSettings,
            ExitStep::SavePresets,
            ExitStep::ReleaseInput,
            ExitStep::ShutDownEngine,
            ExitStep::ReleaseInput,
            ExitStep::StopHotkeys,
        ]
    );
    let test = on_exit(ExitFacts { onepass: true, multipass: false, gui_cloaked: false, screenshot_test: true });
    assert!(!test.contains(&ExitStep::SaveSettings));
    assert_eq!(test[0], ExitStep::RecordBegin);
}

fn locales() -> Vec<CustomLocale> {
    vec![
        CustomLocale { tag: "ka-GE".into(), name: "ქართული".into(), short: "KA".into() },
        CustomLocale { tag: "is-IS".into(), name: "Íslenska".into(), short: "IS".into() },
    ]
}

#[test]
fn an_added_language_is_kept_while_its_file_is_there() {
    let mut setting = LanguageSetting { fixed: None, custom: None };
    setting.choose_custom(1, "IS-is");
    assert_eq!(setting.settle(&locales()), Some(1));
    assert!(setting.marks_custom(&locales()[1]));
    assert!(!setting.marks_builtin(1));
    assert_eq!(setting.chip(&locales(), "EN"), "IS");
    assert_eq!(setting.settle(&locales()[..1]), None);
    assert!(setting.custom.is_none());
    setting.choose_builtin(4);
    assert!(setting.marks_builtin(4));
    setting.choose_auto();
    assert_eq!(setting.fixed, None);
    assert_eq!(find_locale(&locales(), "KA-ge"), Some(0));
    assert!(code_label("KA").contains("KA"));
    assert!(setting.tip(&locales(), "English", "en-US").contains("English"));
}

#[test]
fn the_language_of_the_system() {
    assert_eq!(requested_tag(&args(&["de-DE", "en-US"])), "de-DE");
    assert_eq!(requested_tag(&[]), "en-US");
    assert!(is_portuguese_alias("PT-pt"));
    assert!(!is_portuguese_alias("pt-br"));
    assert!(!is_portuguese_alias("de-DE"));
    assert_eq!(effective_language(Some(3), Some(2), 1), 3);
    assert_eq!(effective_language(None, Some(2), 1), 2);
    assert_eq!(effective_language(None, None, 1), 1);
}

#[test]
fn small_controls() {
    let size = Some(CaptureResolution { w: 640, h: 480 });
    assert_eq!(client_only_control(false, size), (true, false));
    assert_eq!(client_only_control(false, None), (false, true));
    assert_eq!(client_only_changed(false, size, Some(true)), (false, false));
    assert_eq!(client_only_changed(false, None, Some(true)), (true, true));
    assert!(metrics_enabled(false, true));
    assert_eq!(internal_size((0, 5), (7, 8)), (7, 8));
    assert_eq!(interpolation_factors(), [2, 3, 4, 5]);
    assert_eq!(downscalers()[0], "spline36");
    assert_eq!(aspect_mode_label(AspectCorrectionMode::Auto4x3), "4:3 (Auto)");
    assert!(manual_scales_enabled(true, AspectCorrectionMode::Manual));
    assert_eq!(target_text(true, "Film", "Other", "hint"), "Film");
    assert_eq!(target_text(false, "Film", "", "hint"), "hint");
    assert_eq!(settings_changed(true, false), (true, false));
    assert_eq!(startup_mode("FULL_stats", UiMode::Mini, false), (UiMode::Full, true));
    assert_eq!(startup_mode("", UiMode::Mini, true), (UiMode::Mini, true));
    assert!(basic_layout_outdated(Some(true), Some(2), true, 3));
    assert!(!basic_layout_outdated(Some(true), Some(3), true, 3));
}

#[test]
fn the_startup_entry_is_quoted_and_terminated() {
    let command = startup_command("C:\\a b.exe");
    let expected: Vec<u16> = "\"C:\\a b.exe\"\0".encode_utf16().collect();
    assert_eq!(command, expected);
    assert_eq!(command_bytes(&command) as usize, 2 * expected.len());
    assert_eq!(run_key(), "Software\\Microsoft\\Windows\\CurrentVersion\\Run");
    assert_eq!(value_name(), "cHiDeScaler-Neo");
    assert_eq!(set_enabled(true, 0), Ok(()));
    assert_eq!(set_enabled(false, 2), Ok(()));
    assert_eq!(set_enabled(true, 2), Err("Windows startup registration failed: 2".to_string()));
}

#[test]
fn numbers_are_spelt_and_read() {
    let mut out = String::new();
    push_decimal(&mut out, u64::MAX);
    out.push(' ');
    push_signed_decimal(&mut out, i32::MIN);
    out.push(' ');
    push_hex(&mut out, 0x2c05, 8, true);
    push_hex(&mut out, 0xabc, 1, false);
    assert_eq!(out, "18446744073709551615 -2147483648 00002C05abc");
    assert_eq!(parse_unsigned("4294967295", u32::MAX as u64), Some(4294967295));
    assert_eq!(parse_unsigned("+7", 9), "+7".parse::<u64>().ok());
    assert_eq!(parse_unsigned("10", 9), None);
    assert_eq!(parse_unsigned("", 9), None);
    assert_eq!(parse_unsigned("1 ", 9), None);
}

#[test]
fn texts_are_taken_apart() {
    assert_eq!(trim("\u{3000} a b \n"), "a b");
    assert_eq!(split("a++b", '+'), vec!["a", "", "b"]);
    assert_eq!(split_once("axbxc", 'x'), Some(("a", "bxc")));
    assert_eq!(split_once("abc", 'x'), None);
    assert!(contains("hello", "ell"));
    assert!(starts_with("hello", "he"));
    assert!(eq_ignore_ascii_case("AbC", "aBc"));
    assert!(!eq_ignore_ascii_case("\u{c4}", "\u{e4}"));
    assert_eq!(to_ascii_lowercase("A\u{c4}b"), "a\u{c4}b");
    assert_eq!(to_ascii_uppercase("a\u{e4}b"), "A\u{e4}B");
}

#[test]
fn wide_texts_go_there_and_back() {
    let text = "Gr\u{e4}fik \u{1f3af}";
    let units = wide(text);
    let expected: Vec<u16> = text.encode_utf16().chain(std::iter::once(0)).collect();
    assert_eq!(units, expected);
    assert_eq!(decode_terminated(&units), text);
    assert_eq!(wide_name(&units), text);
    // A half of a pair is replaced.
    assert_eq!(decode_terminated(&[0x41, 0xd83c, 0x42]), "A\u{fffd}B");
}

#[test]
fn complaints_are_shown_in_order() {
    let complaints = Complaints {
        warning: Some("w".into()),
        error: None,
        backend: Some("b".into()),
        chain: ["1", "2", "3", "4", "5"].iter().map(|s| s.to_string()).collect(),
    };
    let lines = status_lines(&complaints, "switch failed", "more filter errors");
    let shown: Vec<(Tone, &str)> = lines.iter().map(|l| (l.tone, l.text.as_str())).collect();
    assert_eq!(
        shown,
        vec![
            (Tone::Warning, "! w"),
            (Tone::Notice, "! switch failed: b"),
            (Tone::Notice, "! 1"),
            (Tone::Notice, "! 2"),
            (Tone::Notice, "! 3"),
            (Tone::Notice, "! +2 more filter errors"),
        ]
    );
    assert_eq!(overload_place(UiMode::Mini, true, true), OverloadPlace::InLine);
    assert_eq!(overload_place(UiMode::Full, true, true), OverloadPlace::Window);
    assert_eq!(overload_place(UiMode::Full, false, true), OverloadPlace::Nowhere);
}

#[test]
fn what_the_environment_asks_for_at_the_start() {
    assert!(root_is_current_folder(false, true));
    assert!(!root_is_current_folder(true, true));
    let dialogs = opened_dialogs("SAVE_AS", "Active");
    assert!(dialogs.save_as && !dialogs.filters && !dialogs.hotkey);
    assert_eq!(dialogs.save_as_name, "Active");
    assert_eq!(opened_dialogs("filters", "Active").save_as_name, "");
    assert_eq!(given_target(Some(5), true, true), (5, true));
    assert_eq!(given_target(Some(5), false, true), (0, false));
    assert_eq!(given_target(None, true, true), (0, false));
    let mut setting = LanguageSetting { fixed: None, custom: None };
    setting.ask_for(&locales(), 1, "xx-XX");
    assert_eq!(setting.fixed, None);
    setting.ask_for(&locales(), 1, "ka-ge");
    assert_eq!(setting.fixed, Some(1));
    assert_eq!(setting.custom.as_deref(), Some("ka-ge"));
}
