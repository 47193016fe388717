use chidescaler_neo::controls::{
    folder_error, folder_icon_geometry, settings_folder_control, FolderOpening,
};
use chidescaler_neo::dialogs::{
    button_phrase, delete_question, dialog_buttons, dialog_command, dialog_title,
    preset_error_phrase, stop_button_enabled, DialogButton, DialogCommand, DialogInput, DialogKind,
    DialogTitle,
};
use chidescaler_neo::presets::PresetEditError;
use chidescaler_neo::text::replace_all;

const KINDS: [DialogKind; 8] = [
    DialogKind::TensorRt,
    DialogKind::Elevated,
    DialogKind::FullscreenCaptureNotice,
    DialogKind::ResizeScale,
    DialogKind::Hotkey,
    DialogKind::FilterPicker,
    DialogKind::SaveAs,
    DialogKind::DeletePreset,
];

#[test]
fn modal_action_buttons_all_use_the_centered_control_painter() {
    let mut labels: Vec<&str> = Vec::new();
    for kind in KINDS {
        for button in dialog_buttons(kind) {
            labels.push(button_phrase(button).ja);
        }
    }
    for label in [
        "削除",
        "キャンセル",
        "適用",
        "保存",
        "上書き保存",
        "別名で保存",
    ] {
        assert!(labels.contains(&label), "missing modal label: {label}");
    }
}

#[test]
fn every_dialog_has_its_buttons_in_order() {
    assert_eq!(
        dialog_buttons(DialogKind::SaveAs),
        vec![DialogButton::Overwrite, DialogButton::SaveAs, DialogButton::Cancel]
    );
    assert_eq!(dialog_buttons(DialogKind::FullscreenCaptureNotice), vec![DialogButton::Confirm]);
    assert_eq!(
        button_phrase(DialogButton::RestartAsAdministrator).en,
        "Restart as administrator"
    );
    assert_eq!(button_phrase(DialogButton::Confirm).ja, "OK");
    assert_eq!(button_phrase(DialogButton::Stop).ja, "停止");
    assert!(stop_button_enabled(false));
    assert!(!stop_button_enabled(true));
}

#[test]
fn a_refused_preset_says_why() {
    assert_eq!(preset_error_phrase(PresetEditError::EmptyName).en, "Enter a preset name.");
    assert_eq!(
        preset_error_phrase(PresetEditError::NameInUse).ja,
        "同じ名前のプリセットが既にあります。"
    );
    assert_eq!(
        preset_error_phrase(PresetEditError::ActivePresetMissing).en,
        "The selected preset could not be found."
    );
}

#[test]
fn the_name_stands_in_the_question() {
    assert_eq!(delete_question("Delete \"{name}\"?", "FG x2"), "Delete \"FG x2\"?");
    assert_eq!(delete_question("{name}/{name}", "{name}"), "{name}/{name}");
    assert_eq!(delete_question("No place", "x"), "No place");
    assert_eq!(replace_all("aaa", "aa", "b"), "ba");
}

#[test]
fn settings_folder_control_is_an_icon_only_portable_action() {
    let control = settings_folder_control();
    assert_eq!(control.help_key, "settings.open_folder");
    assert!(control.label.is_none());
    assert_eq!(control.failure_key, "settings.open_folder_failed");
    assert_eq!(folder_error(&FolderOpening::Opened, "Failed"), None);
    assert_eq!(folder_error(&FolderOpening::AlreadyOpen, "Failed"), None);
    assert_eq!(
        folder_error(&FolderOpening::Failed("denied".to_owned()), "Failed"),
        Some("Failed: denied".to_owned())
    );
}

#[test]
fn settings_folder_icon_geometry_is_exactly_centered() {
    let icon = folder_icon_geometry(200, 100);
    let left = icon.body.x.min(icon.tab.x);
    let right = (icon.body.x + icon.body.w).max(icon.tab.x + icon.tab.w);
    let top = icon.body.y.min(icon.tab.y);
    let bottom = (icon.body.y + icon.body.h).max(icon.tab.y + icon.tab.h);
    assert_eq!(left + right, 2 * 200);
    assert_eq!(top + bottom, 2 * 100);
    assert_eq!(left, 200 - 17);
    assert_eq!(bottom, 100 + 14);
}

#[test]
fn buttons_lead_to_commands() {
    let click = |button| DialogInput { clicked: Some(button), picked: false, escape: false };
    assert_eq!(
        dialog_command(DialogKind::TensorRt, click(DialogButton::Stop)),
        DialogCommand::RequestStop
    );
    assert_eq!(
        dialog_command(DialogKind::Elevated, click(DialogButton::RestartAsAdministrator)),
        DialogCommand::SaveRightsAndRestart
    );
    assert_eq!(
        dialog_command(DialogKind::FullscreenCaptureNotice, click(DialogButton::Confirm)),
        DialogCommand::Close
    );
    assert_eq!(
        dialog_command(DialogKind::SaveAs, click(DialogButton::SaveAs)),
        DialogCommand::SavePresetAsNew
    );
    assert_eq!(
        dialog_command(DialogKind::DeletePreset, click(DialogButton::Cancel)),
        DialogCommand::Close
    );
    let escape = DialogInput { clicked: None, picked: false, escape: true };
    assert_eq!(dialog_command(DialogKind::Hotkey, escape), DialogCommand::Close);
    assert_eq!(dialog_command(DialogKind::SaveAs, escape), DialogCommand::Keep);
    let picked = DialogInput { clicked: Some(DialogButton::Cancel), picked: true, escape: false };
    assert_eq!(dialog_command(DialogKind::FilterPicker, picked), DialogCommand::AddFilter);
}

#[test]
fn dialogs_have_titles() {
    assert!(matches!(
        dialog_title(DialogKind::FullscreenCaptureNotice),
        DialogTitle::Key("capture.fullscreen_notice_title")
    ));
    match dialog_title(DialogKind::Hotkey) {
        DialogTitle::Words(phrase) => assert_eq!(phrase.en, "Edit Shortcut"),
        DialogTitle::Key(_) => panic!("words"),
    }
}
