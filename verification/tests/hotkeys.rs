use chidescaler_neo::hotkey_dispatch::{
    after_messages, binding_for_id, classify_background, direct_background_stop_allowed, dispatch_hotkey,
    hotkey_event, registration_failures, BackgroundGui, HotkeyAction, PumpStep, INTENT_HIDDEN, INTENT_MINIMIZED,
};
use chidescaler_neo::hotkey_editor::{
    capture_hotkey_candidate, change_result, commit_toggle_hotkey, egui_hotkey_name, held_hotkey_modifiers,
    hotkey_bindings, hotkey_chips, registration_outcome, shortcuts_line, EditorError, HotkeyChange, HotkeyEditor, HotkeyOutcome,
    KeyEvent, KeyName, PendingHotkey,
};
use chidescaler_neo::hotkeys::{
    hotkey_is_available, parse_hotkey, parse_hotkey_checked, primary_key, validate_user_hotkey,
    HotkeyValidationError, HK_PANEL, HK_QUIT, HK_TOGGLE, MOD_ALT, MOD_CONTROL, MOD_NOREPEAT, MOD_SHIFT, VK_F1,
};
use chidescaler_neo::language::hotkey_error_phrase;

#[test]
fn accepts_two_or_three_key_user_shortcuts() {
    assert_eq!(validate_user_hotkey("Ctrl+Z").unwrap(), "Ctrl+Z");
    assert_eq!(
        validate_user_hotkey("control+alt+f12").unwrap(),
        "Ctrl+Alt+F12"
    );
}

#[test]
fn rejects_modifier_only_and_four_key_shortcuts() {
    assert_eq!(
        validate_user_hotkey("Ctrl+Shift"),
        Err(HotkeyValidationError::MissingPrimary)
    );
    assert_eq!(
        validate_user_hotkey("Ctrl+Alt+Shift+Z"),
        Err(HotkeyValidationError::KeyCount)
    );
}

#[test]
fn every_background_stop_uses_the_resident_engine_lane() {
    assert!(direct_background_stop_allowed(BackgroundGui::Hidden, true));
    assert!(direct_background_stop_allowed(
        BackgroundGui::Minimized,
        true
    ));
    assert!(!direct_background_stop_allowed(BackgroundGui::Foreground, true));
    assert!(!direct_background_stop_allowed(BackgroundGui::Hidden, false));
    assert!(!direct_background_stop_allowed(BackgroundGui::Minimized, false));
}

#[test]
fn repeated_tray_hidden_stops_never_fall_back_to_the_gui_wake_lane() {
    for _ in 0..10_000 {
        assert!(direct_background_stop_allowed(BackgroundGui::Hidden, true));
    }
}

#[test]
fn ordinary_stop_and_quit_do_not_arm_emergency_input_recovery() {
    // A stop in the background goes to the engine; nothing else is armed.
    let (direct, actions) = dispatch_hotkey(HK_TOGGLE, BackgroundGui::Hidden, true);
    assert!(direct);
    assert!(actions.contains(&HotkeyAction::RequestStop));
    assert!(!actions.contains(&HotkeyAction::NotifyQuit));
    // Leaving wakes the window and tells the janitor.
    let (direct, actions) = dispatch_hotkey(HK_QUIT, BackgroundGui::Hidden, true);
    assert!(!direct);
    assert!(actions.contains(&HotkeyAction::NotifyQuit));
    assert!(actions.contains(&HotkeyAction::WakeGui));
    assert!(!actions.contains(&HotkeyAction::RequestStop));
}

#[test]
fn rejects_reserved_and_win_shortcuts() {
    assert_eq!(
        validate_user_hotkey("Ctrl+Alt+Q"),
        Err(HotkeyValidationError::Reserved)
    );
    assert_eq!(
        validate_user_hotkey("Win+Z"),
        Err(HotkeyValidationError::WinModifier)
    );
}

#[test]
fn every_other_fault_of_a_shortcut() {
    assert_eq!(validate_user_hotkey("Z"), Err(HotkeyValidationError::KeyCount));
    assert_eq!(validate_user_hotkey("Z+X"), Err(HotkeyValidationError::MultiplePrimary));
    assert_eq!(validate_user_hotkey("Ctrl+Ctrl"), Err(HotkeyValidationError::DuplicateKey));
    assert_eq!(
        validate_user_hotkey("Ctrl+Bogus"),
        Err(HotkeyValidationError::UnsupportedKey("bogus".to_string()))
    );
}

#[test]
fn a_shortcut_is_parsed_to_its_codes() {
    assert_eq!(parse_hotkey("Ctrl+Shift+A"), Some((MOD_CONTROL | MOD_SHIFT | MOD_NOREPEAT, 0x41)));
    assert_eq!(parse_hotkey("nonsense"), None);
    let (mods, vk, text) = parse_hotkey_checked("alt + f1").unwrap();
    assert_eq!((mods, vk), (MOD_ALT | MOD_NOREPEAT, VK_F1));
    assert_eq!(text, "Alt+F1");
    assert_eq!(primary_key("f24"), Some((VK_F1 + 23, "F24".to_string())));
    assert_eq!(primary_key("F25"), None);
    assert_eq!(primary_key("7"), Some((0x37, "7".to_string())));
}

#[test]
fn parsing_a_canonical_shortcut_gives_it_back() {
    let (_, _, text) = parse_hotkey_checked("shift+control+pagedown").unwrap();
    let (_, _, again) = parse_hotkey_checked(&text).unwrap();
    assert_eq!(text, again);
}

#[test]
fn a_shortcut_is_available_if_the_system_takes_it() {
    assert!(hotkey_is_available("Ctrl+Z", true));
    assert!(!hotkey_is_available("Ctrl+Z", false));
    assert!(!hotkey_is_available("bogus", true));
}

#[test]
fn the_background_is_told_from_the_intent_or_the_window() {
    assert_eq!(classify_background(INTENT_HIDDEN, 5, false, true), BackgroundGui::Hidden);
    assert_eq!(classify_background(INTENT_MINIMIZED, 5, false, true), BackgroundGui::Minimized);
    assert_eq!(classify_background(0, 5, false, true), BackgroundGui::Foreground);
    assert_eq!(classify_background(0, 5, true, true), BackgroundGui::Minimized);
    assert_eq!(classify_background(0, 5, false, false), BackgroundGui::Hidden);
}

#[test]
fn an_event_carries_the_configured_binding() {
    let keys = vec![(HK_TOGGLE, "Ctrl+Z".to_string()), (HK_QUIT, "Ctrl+Alt+Q".to_string())];
    assert_eq!(binding_for_id(&keys, HK_QUIT), "Ctrl+Alt+Q");
    let event = hotkey_event(&keys, HK_TOGGLE, 77, BackgroundGui::Minimized, true, 3, 4);
    assert_eq!(event.binding, "Ctrl+Z");
    assert_eq!(event.received_at, 77);
    assert!(event.handled_directly);
    assert_eq!((event.foreground_hwnd, event.cursor_target_hwnd), (3, 4));
}

#[test]
fn refused_bindings_are_reported() {
    let keys = vec![
        (HK_TOGGLE, "Ctrl+Z".to_string()),
        (HK_QUIT, "nonsense".to_string()),
        (HK_PANEL, "Ctrl+Alt+P".to_string()),
    ];
    let failures = registration_failures(&keys, &[true, false, false]);
    assert!(failures.contains(&(HK_TOGGLE, "Ctrl+Z".to_string())));
    assert!(!failures.iter().any(|f| f.0 == HK_PANEL));
    assert_eq!(after_messages(true, true), PumpStep::Exit);
    assert_eq!(after_messages(false, false), PumpStep::Sleep);
    assert_eq!(after_messages(false, true), PumpStep::Again);
}

fn key(name: KeyName, pressed: bool) -> KeyEvent {
    KeyEvent { key: name, code: 26, pressed, repeat: false, ctrl: true, alt: true, shift: false }
}

#[test]
fn hotkey_editor_captures_three_key_combination() {
    let captured = capture_hotkey_candidate(&[key(KeyName::Named("Z".to_string()), true)]).unwrap();
    assert_eq!(captured.text, "Ctrl+Alt+Z");
    assert_eq!(captured.code, 26);
}

#[test]
fn only_a_fresh_press_is_a_candidate() {
    let mut event = key(KeyName::Named("Z".to_string()), true);
    event.ctrl = false;
    event.alt = false;
    // Without modifiers it is captured all the same; saving it is refused.
    assert_eq!(capture_hotkey_candidate(&[event]).unwrap().text, "Z");
    assert!(capture_hotkey_candidate(&[key(KeyName::Escape, true)]).is_none());
    assert!(capture_hotkey_candidate(&[key(KeyName::Named("Z".to_string()), false)]).is_none());
    assert_eq!(egui_hotkey_name(&KeyName::ArrowLeft), "Left");
    assert_eq!(held_hotkey_modifiers(true, false, true), "Ctrl+Shift");
}

#[test]
fn chips_are_the_keys_of_a_shortcut() {
    assert_eq!(hotkey_chips("Ctrl+Alt+Z"), vec!["Ctrl".to_string(), "Alt".to_string(), "Z".to_string()]);
}

#[test]
fn the_editor_takes_what_was_let_go() {
    let mut editor = HotkeyEditor { open: true, candidate: "Ctrl+A".to_string(), error: None, pending: None };
    editor.pressed(Some(PendingHotkey { text: "Ctrl+B".to_string(), code: 1 }));
    editor.released(true, false);
    editor.released(false, true);
    assert!(editor.pending.is_some());
    editor.released(false, false);
    assert_eq!(editor.candidate, "Ctrl+B");
    assert!(editor.pending.is_none());
    editor.saved(Err(EditorError::InUse));
    assert!(editor.open);
    assert!(matches!(editor.error, Some(EditorError::InUse)));
    editor.cancel("Ctrl+A");
    assert!(!editor.open);
    assert_eq!(editor.candidate, "Ctrl+A");
}

#[test]
fn a_new_binding_is_taken_or_the_old_one_restored() {
    assert!(matches!(commit_toggle_hotkey("Ctrl+A", "Ctrl+A"), Ok(HotkeyChange::Unchanged)));
    assert!(matches!(commit_toggle_hotkey("ctrl+b", "Ctrl+A"), Ok(HotkeyChange::Register(ref b)) if b == "Ctrl+B"));
    assert!(matches!(
        commit_toggle_hotkey("Ctrl", "Ctrl+A"),
        Err(EditorError::Invalid(HotkeyValidationError::KeyCount))
    ));
    assert_eq!(registration_outcome(false, &[]), HotkeyOutcome::KeepOld);
    assert_eq!(registration_outcome(true, &[]), HotkeyOutcome::TakeNew);
    let failures = vec![(HK_TOGGLE, "Ctrl+B".to_string())];
    assert_eq!(registration_outcome(true, &failures), HotkeyOutcome::RestoreOld);
    let taken = change_result(HotkeyChange::Register("Ctrl+B".to_string()), HotkeyOutcome::TakeNew);
    assert!(matches!(taken, Ok(Some(ref b)) if b == "Ctrl+B"));
    let lost = change_result(HotkeyChange::Register("Ctrl+B".to_string()), HotkeyOutcome::RestoreOld);
    assert!(matches!(lost, Err(EditorError::LostInRegistration)));
    let used = change_result(HotkeyChange::Register("Ctrl+B".to_string()), HotkeyOutcome::KeepOld);
    assert!(matches!(used, Err(EditorError::InUse)));
    let bindings = hotkey_bindings("Ctrl+B");
    assert_eq!(bindings[0], (HK_TOGGLE, "Ctrl+B".to_string()));
    assert_eq!(bindings.len(), 4);
}

#[test]
fn every_fault_has_a_phrase() {
    let reserved = hotkey_error_phrase(&HotkeyValidationError::Reserved);
    let count = hotkey_error_phrase(&HotkeyValidationError::KeyCount);
    assert!(!reserved.en.is_empty() && !reserved.ja.is_empty());
    assert_ne!(reserved.en, count.en);
}

#[test]
fn the_editor_opens_with_the_binding_in_use() {
    let mut editor =
        HotkeyEditor { open: false, candidate: String::new(), error: Some(EditorError::InUse), pending: None };
    editor.open("Ctrl+A");
    assert!(editor.open && editor.error.is_none());
    assert_eq!(editor.display(false, ""), "Ctrl+A");
    assert_eq!(editor.display(false, "Ctrl"), "Ctrl");
    assert_eq!(
        shortcuts_line("Shortcuts", "GUI", "Panel", "Quit"),
        "Shortcuts: Ctrl+Alt+G GUI\u{3000}Ctrl+Alt+P Panel\u{3000}Ctrl+Alt+Q Quit"
    );
}
