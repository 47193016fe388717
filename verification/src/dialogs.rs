//! Dialogs: which one the smallest layout shows, how its window is kept in reach, and what the
//! buttons do.
use vstd::prelude::*;
use crate::actions::{Action, WindowFacts, provided, push_if};
use crate::chain::{
    Stage, StageSpec, apply_resize_scale, clamp_resize_scale, clamped_scale, rescaled, resize_scale_name, stages,
};
use crate::language::Phrase;
use crate::layout::UiMode;
use crate::presets::PresetEditError;
use crate::text::replace_all;
use crate::text::replaced;

verus! {

/// The dialogs, in the order in which they are shown.
#[derive(Clone, Copy, Debug, PartialEq, Eq, Structural)]
pub enum DialogKind {
    TensorRt,
    Elevated,
    FullscreenCaptureNotice,
    ResizeScale,
    Hotkey,
    FilterPicker,
    SaveAs,
    DeletePreset,
}

/// What asks for a dialog.
#[derive(Clone, Copy, Debug, PartialEq, Eq, Structural)]
pub struct DialogRequests {
    /// An inference engine is being built.
    pub tensorrt: bool,
    pub elevated: bool,
    pub fullscreen_notice: bool,
    pub resize_scale: bool,
    pub hotkey: bool,
    pub filter_picker: bool,
    pub save_as: bool,
    pub delete_preset: bool,
}

pub open spec fn is_requested(r: DialogRequests, kind: DialogKind) -> bool {
    match kind {
        DialogKind::TensorRt => r.tensorrt,
        DialogKind::Elevated => r.elevated,
        DialogKind::FullscreenCaptureNotice => r.fullscreen_notice,
        DialogKind::ResizeScale => r.resize_scale,
        DialogKind::Hotkey => r.hotkey,
        DialogKind::FilterPicker => r.filter_picker,
        DialogKind::SaveAs => r.save_as,
        DialogKind::DeletePreset => r.delete_preset,
    }
}

/// The place of a dialog in the order.
pub open spec fn rank(kind: DialogKind) -> int {
    match kind {
        DialogKind::TensorRt => 0,
        DialogKind::Elevated => 1,
        DialogKind::FullscreenCaptureNotice => 2,
        DialogKind::ResizeScale => 3,
        DialogKind::Hotkey => 4,
        DialogKind::FilterPicker => 5,
        DialogKind::SaveAs => 6,
        DialogKind::DeletePreset => 7,
    }
}

/// The dialog of the smallest layout: the first that is asked for. The other layouts show their
/// dialogs inside the main window.
pub fn mini_dialog(mode: UiMode, r: DialogRequests) -> (kind: Option<DialogKind>)
    ensures
        mode != UiMode::Mini ==> kind is None,
        mode == UiMode::Mini ==> match kind {
            Some(shown) => is_requested(r, shown) && forall|other: DialogKind|
                is_requested(r, other) ==> rank(shown) <= rank(other),
            None => forall|other: DialogKind| !is_requested(r, other),
        },
{
    if mode != UiMode::Mini {
        return None;
    }
    if r.tensorrt {
        Some(DialogKind::TensorRt)
    } else if r.elevated {
        Some(DialogKind::Elevated)
    } else if r.fullscreen_notice {
        Some(DialogKind::FullscreenCaptureNotice)
    } else if r.resize_scale {
        Some(DialogKind::ResizeScale)
    } else if r.hotkey {
        Some(DialogKind::Hotkey)
    } else if r.filter_picker {
        Some(DialogKind::FilterPicker)
    } else if r.save_as {
        Some(DialogKind::SaveAs)
    } else if r.delete_preset {
        Some(DialogKind::DeletePreset)
    } else {
        None
    }
}

/// The size that a dialog asks for, in points.
pub fn dialog_size(kind: DialogKind) -> (size: (u32, u32))
    ensures
        size == (match kind {
            DialogKind::TensorRt => (430u32, 285u32),
            DialogKind::Elevated => (440u32, 330u32),
            DialogKind::FullscreenCaptureNotice => (400u32, 280u32),
            DialogKind::ResizeScale => (340u32, 225u32),
            DialogKind::Hotkey => (430u32, 340u32),
            DialogKind::FilterPicker => (470u32, 520u32),
            DialogKind::SaveAs => (430u32, 250u32),
            DialogKind::DeletePreset => (390u32, 230u32),
        }),
{
    match kind {
        DialogKind::TensorRt => (430, 285),
        DialogKind::Elevated => (440, 330),
        DialogKind::FullscreenCaptureNotice => (400, 280),
        DialogKind::ResizeScale => (340, 225),
        DialogKind::Hotkey => (430, 340),
        DialogKind::FilterPicker => (470, 520),
        DialogKind::SaveAs => (430, 250),
        DialogKind::DeletePreset => (390, 230),
    }
}

pub open spec fn length_within(wanted: int, monitor: int, margin: int, least: int) -> int {
    if wanted <= least || wanted + margin <= monitor {
        wanted
    } else if monitor <= least + margin {
        least
    } else {
        monitor - margin
    }
}

/// A length within what the monitor has, but not below what the dialog needs to be usable. All
/// lengths are in points.
pub fn within_monitor(wanted: u32, monitor: u32, margin: u32, least: u32) -> (r: u32)
    ensures
        r == length_within(wanted as int, monitor as int, margin as int, least as int),
{
    let room: u32 = if monitor > margin && monitor - margin > least {
        monitor - margin
    } else {
        least
    };
    if wanted < room {
        wanted
    } else {
        room
    }
}

pub open spec fn window_taken(dialog: WindowFacts, found: Option<isize>) -> (isize, bool) {
    if dialog.handle != 0 && dialog.valid {
        (dialog.handle, false)
    } else {
        match found {
            Some(found) => (found, true),
            None => (0, false),
        }
    }
}

/// The handle of the dialog's window: a stale one is dropped, and a new one taken.
pub fn dialog_window(dialog: WindowFacts, found: Option<isize>) -> (r: (isize, bool))
    ensures
        r == window_taken(dialog, found),
{
    if dialog.handle != 0 && dialog.valid {
        return (dialog.handle, false);
    }
    match found {
        Some(found) => (found, true),
        None => (0, false),
    }
}

/// Keeping the dialog's window in reach: topmost, taking the pointer, and above the overlay of
/// a running capture. `adopted` says that the window was found in this frame.
pub fn keep_dialog_in_reach(
    dialog: WindowFacts,
    adopted: bool,
    is_topmost: bool,
    running: bool,
    overlay: isize,
    above_overlay: bool,
) -> (actions: Vec<Action>)
    ensures
        actions@ == reach_actions(dialog, adopted, is_topmost, running, overlay, above_overlay),
{
    let there = dialog.handle != 0 && dialog.valid;
    let raise = there && running && overlay != 0 && !above_overlay;
    let mut actions: Vec<Action> = Vec::new();
    push_if(
        &mut actions,
        adopted && dialog.handle != 0,
        Action::SetPassthrough { window: dialog.handle, on: false },
    );
    push_if(&mut actions, there && !is_topmost, Action::SetTopmost { window: dialog.handle, on: true });
    push_if(&mut actions, there, Action::SetPassthrough { window: dialog.handle, on: false });
    push_if(&mut actions, raise, Action::Raise { window: dialog.handle });
    push_if(&mut actions, raise, Action::KeepCursorOnTop);
    actions
}

/// The handle of the dialog's window after a frame. The window is looked at again once it was
/// drawn: one that is not there any more is forgotten.
pub fn dialog_after_frame(dialog: WindowFacts) -> (handle: isize)
    ensures
        handle == (if dialog.valid {
            dialog.handle
        } else {
            0
        }),
{
    if dialog.valid {
        dialog.handle
    } else {
        0
    }
}

pub open spec fn reach_actions(
    dialog: WindowFacts,
    adopted: bool,
    is_topmost: bool,
    running: bool,
    overlay: isize,
    above_overlay: bool,
) -> Seq<Action> {
    let there = dialog.handle != 0 && dialog.valid;
    let raise = there && running && overlay != 0 && !above_overlay;
    Seq::<Action>::empty() + provided(
        adopted && dialog.handle != 0,
        Action::SetPassthrough { window: dialog.handle, on: false },
    ) + provided(there && !is_topmost, Action::SetTopmost { window: dialog.handle, on: true }) + provided(
        there,
        Action::SetPassthrough { window: dialog.handle, on: false },
    ) + provided(raise, Action::Raise { window: dialog.handle }) + provided(raise, Action::KeepCursorOnTop)
}

/// A dialog that is there always takes the pointer.
pub proof fn a_dialog_takes_the_pointer(
    dialog: WindowFacts,
    adopted: bool,
    is_topmost: bool,
    running: bool,
    overlay: isize,
    above_overlay: bool,
)
    requires
        dialog.handle != 0,
        dialog.valid,
    ensures
        reach_actions(dialog, adopted, is_topmost, running, overlay, above_overlay).contains(
            Action::SetPassthrough { window: dialog.handle, on: false },
        ),
        running && overlay != 0 && !above_overlay ==> reach_actions(
            dialog,
            adopted,
            is_topmost,
            running,
            overlay,
            above_overlay,
        ).contains(Action::Raise { window: dialog.handle }),
{
    let actions = reach_actions(dialog, adopted, is_topmost, running, overlay, above_overlay);
    let n: int = (if adopted { 1int } else { 0 }) + (if is_topmost { 0int } else { 1 });
    assert(actions[n] == (Action::SetPassthrough { window: dialog.handle, on: false }));
    if running && overlay != 0 && !above_overlay {
        assert(actions[n + 1] == (Action::Raise { window: dialog.handle }));
    }
}

// ---------------------------------------------------------------------------------------
// The scale of a resize stage

/// The stage whose scale is edited, and the scale as the bits of a 32-bit floating-point number.
#[derive(Clone, Copy, Debug, PartialEq, Eq, Structural)]
pub struct ResizeEditor {
    pub index: usize,
    pub scale: u32,
}

/// One frame of the editor: `apply` says that its scale is to be taken over, `close` that it is
/// to go in any case. The dialog window closes by its other button alone, so that a press on the
/// first with the stage gone leaves it open; in the main window every button closes. Applying sets the scale of the
/// stage, where it is still there; `true` means that a running capture takes the chain over.
pub fn edit_resize_scale(
    editor: ResizeEditor,
    value: u32,
    apply: bool,
    close: bool,
    chain: &mut Vec<StageSpec>,
) -> (r: (Option<ResizeEditor>, bool))
    ensures
        r.1 == (apply && editor.index < old(chain)@.len()),
        r.0 == (if r.1 || close {
            None
        } else {
            Some((ResizeEditor { index: editor.index, scale: clamped_scale(value) }))
        }),
        r.1 ==> stages(final(chain)@) == rescaled(stages(old(chain)@), editor.index as int, value),
        !r.1 ==> final(chain)@ == old(chain)@,
        final(chain)@.len() == old(chain)@.len(),
        forall|i: int|
            0 <= i < old(chain)@.len() ==> #[trigger] final(chain)@[i]@ == (if r.1 && i == editor.index {
                Stage {
                    params: old(chain)@[i]@.params.insert(resize_scale_name(), clamped_scale(value)),
                    ..old(chain)@[i]@
                }
            } else {
                old(chain)@[i]@
            }),
{
    if apply && editor.index < chain.len() {
        let applied = apply_resize_scale(chain, editor.index, value);
        (None, applied)
    } else if close {
        (None, false)
    } else {
        (Some(ResizeEditor { index: editor.index, scale: clamp_resize_scale(value) }), false)
    }
}

// ---------------------------------------------------------------------------------------
// The notice on a window with more rights

/// How the notice ends.
#[derive(Clone, Copy, Debug, PartialEq, Eq, Structural)]
pub enum ElevatedOutcome {
    /// It stays open.
    Stay,
    /// It is closed.
    Closed,
    /// The program runs again with more rights; this one ends.
    Restarted,
    /// The restart failed, and the user is told.
    RestartFailed,
}

/// What the notice's buttons do; `relaunched` is the outcome of the restart, which is tried
/// after the wish to run with more rights was saved.
pub fn elevated_notice(restart: bool, cancel: bool, relaunched: bool) -> (outcome: ElevatedOutcome)
    ensures
        outcome == (if restart {
            if relaunched {
                ElevatedOutcome::Restarted
            } else {
                ElevatedOutcome::RestartFailed
            }
        } else if cancel {
            ElevatedOutcome::Closed
        } else {
            ElevatedOutcome::Stay
        }),
{
    if restart {
        if relaunched {
            ElevatedOutcome::Restarted
        } else {
            ElevatedOutcome::RestartFailed
        }
    } else if cancel {
        ElevatedOutcome::Closed
    } else {
        ElevatedOutcome::Stay
    }
}

/// Takes the wish to run with more rights from the notice into the settings. `true` means that
/// the settings are saved and the restart is tried, in this order.
pub fn wish_for_rights(run_as_admin: &mut bool, restart: bool) -> (relaunch: bool)
    ensures
        relaunch == restart,
        *final(run_as_admin) == (*old(run_as_admin) || restart),
{
    if restart {
        *run_as_admin = true;
    }
    restart
}

/// What the user is told of a restart that failed.
pub fn restart_failed_phrase() -> (phrase: Phrase)
    ensures
        phrase.ja@
            == "管理者として再起動できませんでした。Windowsの確認画面で許可してから、もう一度お試しください。"@,
        phrase.en@
            == "Could not restart as administrator. Allow the Windows confirmation prompt and try again."@,
{
    Phrase {
        ja: "管理者として再起動できませんでした。Windowsの確認画面で許可してから、もう一度お試しください。",
        en: "Could not restart as administrator. Allow the Windows confirmation prompt and try again.",
    }
}

/// Whether the program starts itself again with more rights before anything else.
pub fn relaunch_as_admin(wanted: bool, elevated: bool, forbidden: bool) -> (r: bool)
    ensures
        r == (wanted && !elevated && !forbidden),
{
    wanted && !elevated && !forbidden
}

/// The buttons of the dialogs.
#[derive(Clone, Copy, Debug, PartialEq, Eq, Structural)]
pub enum DialogButton {
    Stop,
    RestartAsAdministrator,
    Confirm,
    Apply,
    Save,
    Overwrite,
    SaveAs,
    Delete,
    Cancel,
}

pub open spec fn buttons_of(kind: DialogKind) -> Seq<DialogButton> {
    match kind {
        DialogKind::TensorRt => seq![DialogButton::Stop],
        DialogKind::Elevated => seq![DialogButton::RestartAsAdministrator, DialogButton::Cancel],
        DialogKind::FullscreenCaptureNotice => seq![DialogButton::Confirm],
        DialogKind::ResizeScale => seq![DialogButton::Apply, DialogButton::Cancel],
        DialogKind::Hotkey => seq![DialogButton::Save, DialogButton::Cancel],
        DialogKind::FilterPicker => seq![DialogButton::Cancel],
        DialogKind::SaveAs => seq![DialogButton::Overwrite, DialogButton::SaveAs, DialogButton::Cancel],
        DialogKind::DeletePreset => seq![DialogButton::Delete, DialogButton::Cancel],
    }
}

/// The buttons of a dialog, from left to right.
pub fn dialog_buttons(kind: DialogKind) -> (buttons: Vec<DialogButton>)
    ensures
        buttons@ == buttons_of(kind),
{
    match kind {
        DialogKind::TensorRt => vec![DialogButton::Stop],
        DialogKind::Elevated => vec![DialogButton::RestartAsAdministrator, DialogButton::Cancel],
        DialogKind::FullscreenCaptureNotice => vec![DialogButton::Confirm],
        DialogKind::ResizeScale => vec![DialogButton::Apply, DialogButton::Cancel],
        DialogKind::Hotkey => vec![DialogButton::Save, DialogButton::Cancel],
        DialogKind::FilterPicker => vec![DialogButton::Cancel],
        DialogKind::SaveAs => vec![DialogButton::Overwrite, DialogButton::SaveAs, DialogButton::Cancel],
        DialogKind::DeletePreset => vec![DialogButton::Delete, DialogButton::Cancel],
    }
}

/// What the user did in a dialog in one frame.
#[derive(Clone, Copy, Debug, PartialEq, Eq, Structural)]
pub struct DialogInput {
    pub clicked: Option<DialogButton>,
    /// A filter of the list was chosen.
    pub picked: bool,
    pub escape: bool,
}

/// What follows.
#[derive(Clone, Copy, Debug, PartialEq, Eq, Structural)]
pub enum DialogCommand {
    Keep,
    /// The dialog closes, and nothing else happens.
    Close,
    RequestStop,
    SaveRightsAndRestart,
    ApplyScale,
    TakeHotkey,
    AddFilter,
    OverwritePreset,
    SavePresetAsNew,
    DeletePreset,
}

pub open spec fn command_of(kind: DialogKind, input: DialogInput) -> DialogCommand {
    let cancelled = if input.clicked == Some(DialogButton::Cancel) {
        DialogCommand::Close
    } else {
        DialogCommand::Keep
    };
    match kind {
        DialogKind::TensorRt => if input.clicked == Some(DialogButton::Stop) {
            DialogCommand::RequestStop
        } else {
            DialogCommand::Keep
        },
        DialogKind::Elevated => if input.clicked == Some(DialogButton::RestartAsAdministrator) {
            DialogCommand::SaveRightsAndRestart
        } else {
            cancelled
        },
        DialogKind::FullscreenCaptureNotice => if input.clicked == Some(DialogButton::Confirm) {
            DialogCommand::Close
        } else {
            DialogCommand::Keep
        },
        DialogKind::ResizeScale => if input.clicked == Some(DialogButton::Apply) {
            DialogCommand::ApplyScale
        } else {
            cancelled
        },
        DialogKind::Hotkey => if input.clicked == Some(DialogButton::Save) {
            DialogCommand::TakeHotkey
        } else if input.escape {
            DialogCommand::Close
        } else {
            cancelled
        },
        DialogKind::FilterPicker => if input.picked {
            DialogCommand::AddFilter
        } else {
            cancelled
        },
        DialogKind::SaveAs => if input.clicked == Some(DialogButton::Overwrite) {
            DialogCommand::OverwritePreset
        } else if input.clicked == Some(DialogButton::SaveAs) {
            DialogCommand::SavePresetAsNew
        } else {
            cancelled
        },
        DialogKind::DeletePreset => if input.clicked == Some(DialogButton::Delete) {
            DialogCommand::DeletePreset
        } else {
            cancelled
        },
    }
}

/// What a frame of a dialog leads to. A choice goes before a cancellation.
pub fn dialog_command(kind: DialogKind, input: DialogInput) -> (command: DialogCommand)
    ensures
        command == command_of(kind, input),
{
    match (kind, input.clicked) {
        (DialogKind::TensorRt, Some(DialogButton::Stop)) => DialogCommand::RequestStop,
        (DialogKind::TensorRt, _) => DialogCommand::Keep,
        (DialogKind::Elevated, Some(DialogButton::RestartAsAdministrator)) => DialogCommand::SaveRightsAndRestart,
        (DialogKind::FullscreenCaptureNotice, Some(DialogButton::Confirm)) => DialogCommand::Close,
        (DialogKind::FullscreenCaptureNotice, _) => DialogCommand::Keep,
        (DialogKind::ResizeScale, Some(DialogButton::Apply)) => DialogCommand::ApplyScale,
        (DialogKind::Hotkey, Some(DialogButton::Save)) => DialogCommand::TakeHotkey,
        (DialogKind::SaveAs, Some(DialogButton::Overwrite)) => DialogCommand::OverwritePreset,
        (DialogKind::SaveAs, Some(DialogButton::SaveAs)) => DialogCommand::SavePresetAsNew,
        (DialogKind::DeletePreset, Some(DialogButton::Delete)) => DialogCommand::DeletePreset,
        (kind, clicked) => if kind == DialogKind::FilterPicker && input.picked {
            DialogCommand::AddFilter
        } else if kind == DialogKind::Hotkey && input.escape {
            DialogCommand::Close
        } else if clicked == Some(DialogButton::Cancel) {
            DialogCommand::Close
        } else {
            DialogCommand::Keep
        },
    }
}

/// Every button of a dialog leads to something, and no two buttons of one dialog to the same; a
/// dialog that nobody touches stays.
pub proof fn every_button_does_something(kind: DialogKind, i: int, j: int)
    requires
        0 <= i < buttons_of(kind).len(),
        0 <= j < buttons_of(kind).len(),
    ensures
        ({
            let on = |k: int|
                DialogInput { clicked: Some(buttons_of(kind)[k]), picked: false, escape: false };
            &&& command_of(kind, on(i)) != DialogCommand::Keep
            &&& i != j ==> command_of(kind, on(i)) != command_of(kind, on(j))
        }),
        command_of(kind, (DialogInput { clicked: None, picked: false, escape: false })) == DialogCommand::Keep,
{
}

/// The title of a dialog.
#[derive(Debug)]
pub enum DialogTitle {
    Words(Phrase),
    /// The key of a translated text.
    Key(&'static str),
}

pub fn dialog_title(kind: DialogKind) -> (title: DialogTitle)
    ensures
        match kind {
            DialogKind::TensorRt => title matches DialogTitle::Words(p) && p.ja@ == "TensorRT用エンジンを作成中"@ && p.en@
                == "Preparing TensorRT engine"@,
            DialogKind::Elevated => title matches DialogTitle::Words(p) && p.ja@ == "管理者権限が必要です"@ && p.en@
                == "Administrator permission required"@,
            DialogKind::FullscreenCaptureNotice => title matches DialogTitle::Key(key) && key@
                == "capture.fullscreen_notice_title"@,
            DialogKind::ResizeScale => title matches DialogTitle::Words(p) && p.ja@ == "リサイズ倍率"@ && p.en@
                == "Resize scale"@,
            DialogKind::Hotkey => title matches DialogTitle::Words(p) && p.ja@ == "ショートカット編集"@ && p.en@
                == "Edit Shortcut"@,
            DialogKind::FilterPicker => title matches DialogTitle::Words(p) && p.ja@ == "フィルター追加"@ && p.en@
                == "Add Filter"@,
            DialogKind::SaveAs => title matches DialogTitle::Words(p) && p.ja@ == "別名で保存"@ && p.en@ == "Save As"@,
            DialogKind::DeletePreset => title matches DialogTitle::Words(p) && p.ja@ == "プリセットの削除"@ && p.en@
                == "Delete Preset"@,
        },
{
    match kind {
        DialogKind::TensorRt => DialogTitle::Words(
            Phrase { ja: "TensorRT用エンジンを作成中", en: "Preparing TensorRT engine" },
        ),
        DialogKind::Elevated => DialogTitle::Words(
            Phrase { ja: "管理者権限が必要です", en: "Administrator permission required" },
        ),
        DialogKind::FullscreenCaptureNotice => DialogTitle::Key("capture.fullscreen_notice_title"),
        DialogKind::ResizeScale => DialogTitle::Words(Phrase { ja: "リサイズ倍率", en: "Resize scale" }),
        DialogKind::Hotkey => DialogTitle::Words(Phrase { ja: "ショートカット編集", en: "Edit Shortcut" }),
        DialogKind::FilterPicker => DialogTitle::Words(Phrase { ja: "フィルター追加", en: "Add Filter" }),
        DialogKind::SaveAs => DialogTitle::Words(Phrase { ja: "別名で保存", en: "Save As" }),
        DialogKind::DeletePreset => DialogTitle::Words(Phrase { ja: "プリセットの削除", en: "Delete Preset" }),
    }
}

/// What stands on a button.
pub fn button_phrase(button: DialogButton) -> (phrase: Phrase)
    ensures
        match button {
            DialogButton::Stop => phrase.ja@ == "停止"@ && phrase.en@ == "Stop"@,
            DialogButton::RestartAsAdministrator => phrase.ja@ == "管理者として再起動"@ && phrase.en@
                == "Restart as administrator"@,
            DialogButton::Confirm => phrase.ja@ == "OK"@ && phrase.en@ == "OK"@,
            DialogButton::Apply => phrase.ja@ == "適用"@ && phrase.en@ == "Apply"@,
            DialogButton::Save => phrase.ja@ == "保存"@ && phrase.en@ == "Save"@,
            DialogButton::Overwrite => phrase.ja@ == "上書き保存"@ && phrase.en@ == "Overwrite"@,
            DialogButton::SaveAs => phrase.ja@ == "別名で保存"@ && phrase.en@ == "Save As"@,
            DialogButton::Delete => phrase.ja@ == "削除"@ && phrase.en@ == "Delete"@,
            DialogButton::Cancel => phrase.ja@ == "キャンセル"@ && phrase.en@ == "Cancel"@,
        },
{
    match button {
        DialogButton::Stop => Phrase { ja: "停止", en: "Stop" },
        DialogButton::RestartAsAdministrator => Phrase {
            ja: "管理者として再起動",
            en: "Restart as administrator",
        },
        DialogButton::Confirm => Phrase { ja: "OK", en: "OK" },
        DialogButton::Apply => Phrase { ja: "適用", en: "Apply" },
        DialogButton::Save => Phrase { ja: "保存", en: "Save" },
        DialogButton::Overwrite => Phrase { ja: "上書き保存", en: "Overwrite" },
        DialogButton::SaveAs => Phrase { ja: "別名で保存", en: "Save As" },
        DialogButton::Delete => Phrase { ja: "削除", en: "Delete" },
        DialogButton::Cancel => Phrase { ja: "キャンセル", en: "Cancel" },
    }
}

/// The button that stops a build is there but cannot be used twice.
pub fn stop_button_enabled(cancel_requested: bool) -> (r: bool)
    ensures
        r == !cancel_requested,
{
    !cancel_requested
}

/// Why a preset was not saved.
pub fn preset_error_phrase(error: PresetEditError) -> (phrase: Phrase)
    ensures
        match error {
            PresetEditError::EmptyName => phrase.ja@ == "名前を入力してください。"@ && phrase.en@
                == "Enter a preset name."@,
            PresetEditError::NameInUse => phrase.ja@ == "同じ名前のプリセットが既にあります。"@ && phrase.en@
                == "A preset with this name already exists."@,
            PresetEditError::ActivePresetMissing => phrase.ja@ == "選択中のプリセットが見つかりません。"@ && phrase.en@
                == "The selected preset could not be found."@,
        },
{
    match error {
        PresetEditError::EmptyName => Phrase { ja: "名前を入力してください。", en: "Enter a preset name." },
        PresetEditError::NameInUse => Phrase {
            ja: "同じ名前のプリセットが既にあります。",
            en: "A preset with this name already exists.",
        },
        PresetEditError::ActivePresetMissing => Phrase {
            ja: "選択中のプリセットが見つかりません。",
            en: "The selected preset could not be found.",
        },
    }
}

/// The question before a preset is deleted, with its name in the place for it.
pub fn delete_question(template: &str, name: &str) -> (question: String)
    ensures
        question@ == replaced(template@, "{name}"@, name@),
{
    proof {
        reveal_strlit("{name}");
    }
    replace_all(template, "{name}", name)
}

// ---------------------------------------------------------------------------------------
// What the dialogs are for

/// A button does what it says, in the dialog that has it, and nothing else does that; to cancel
/// closes the dialog and does nothing.
pub proof fn a_button_does_what_it_says(kind: DialogKind, input: DialogInput)
    ensures
        command_of(kind, input) == DialogCommand::RequestStop <==> kind == DialogKind::TensorRt && input.clicked == Some(
            DialogButton::Stop,
        ),
        command_of(kind, input) == DialogCommand::SaveRightsAndRestart <==> kind == DialogKind::Elevated && input.clicked
            == Some(DialogButton::RestartAsAdministrator),
        command_of(kind, input) == DialogCommand::ApplyScale <==> kind == DialogKind::ResizeScale && input.clicked
            == Some(DialogButton::Apply),
        command_of(kind, input) == DialogCommand::TakeHotkey <==> kind == DialogKind::Hotkey && input.clicked == Some(
            DialogButton::Save,
        ),
        command_of(kind, input) == DialogCommand::AddFilter <==> kind == DialogKind::FilterPicker && input.picked,
        command_of(kind, input) == DialogCommand::OverwritePreset <==> kind == DialogKind::SaveAs && input.clicked
            == Some(DialogButton::Overwrite),
        command_of(kind, input) == DialogCommand::SavePresetAsNew <==> kind == DialogKind::SaveAs && input.clicked
            == Some(DialogButton::SaveAs),
        command_of(kind, input) == DialogCommand::DeletePreset <==> kind == DialogKind::DeletePreset && input.clicked
            == Some(DialogButton::Delete),
        input.clicked == Some(DialogButton::Cancel) && !input.picked && kind != DialogKind::TensorRt && kind
            != DialogKind::FullscreenCaptureNotice ==> command_of(kind, input) == DialogCommand::Close,
        input.clicked is None && !input.picked && !input.escape ==> command_of(kind, input) == DialogCommand::Keep,
        kind == DialogKind::FullscreenCaptureNotice ==> (command_of(kind, input) == DialogCommand::Close
            <==> input.clicked == Some(DialogButton::Confirm)),
{
}

/// A dialog that can be left without doing anything has a button for that, and every dialog has the
/// button for what it is about.
pub proof fn every_dialog_has_its_buttons(kind: DialogKind)
    ensures
        buttons_of(kind).len() > 0,
        kind != DialogKind::TensorRt && kind != DialogKind::FullscreenCaptureNotice ==> buttons_of(kind).last()
            == DialogButton::Cancel,
        buttons_of(DialogKind::TensorRt) == seq![DialogButton::Stop],
        buttons_of(DialogKind::FullscreenCaptureNotice) == seq![DialogButton::Confirm],
        buttons_of(DialogKind::Elevated)[0] == DialogButton::RestartAsAdministrator,
        buttons_of(DialogKind::ResizeScale)[0] == DialogButton::Apply,
        buttons_of(DialogKind::Hotkey)[0] == DialogButton::Save,
        buttons_of(DialogKind::SaveAs)[0] == DialogButton::Overwrite,
        buttons_of(DialogKind::SaveAs)[1] == DialogButton::SaveAs,
        buttons_of(DialogKind::DeletePreset)[0] == DialogButton::Delete,
{
}

/// A dialog that is there is topmost and takes the pointer; it is raised only above the overlay of a
/// running capture, and the cursor with it; of one that is not there nothing is asked but what was
/// found in the frame.
pub proof fn a_dialog_is_kept_in_reach(
    dialog: WindowFacts,
    adopted: bool,
    is_topmost: bool,
    running: bool,
    overlay: isize,
    above_overlay: bool,
)
    ensures
        ({
            let actions = reach_actions(dialog, adopted, is_topmost, running, overlay, above_overlay);
            let there = dialog.handle != 0 && dialog.valid;
            let raise = there && running && overlay != 0 && !above_overlay;
            &&& (exists|i: int| 0 <= i < actions.len() && #[trigger] actions[i] is Raise) <==> raise
            &&& (exists|i: int| 0 <= i < actions.len() && #[trigger] actions[i] is KeepCursorOnTop) <==> raise
            &&& (exists|i: int| 0 <= i < actions.len() && #[trigger] actions[i] is SetTopmost) <==> there && !is_topmost
            &&& forall|i: int|
                0 <= i < actions.len() ==> match #[trigger] actions[i] {
                    Action::Raise { window } => window == dialog.handle,
                    Action::SetTopmost { window, on } => window == dialog.handle && on,
                    Action::SetPassthrough { window, on } => window == dialog.handle && !on,
                    Action::KeepCursorOnTop => true,
                    _ => false,
                }
        }),
{
    let actions = reach_actions(dialog, adopted, is_topmost, running, overlay, above_overlay);
    let there = dialog.handle != 0 && dialog.valid;
    let a: int = if adopted && dialog.handle != 0 { 1 } else { 0 };
    if there && !is_topmost {
        assert(actions[a] is SetTopmost);
    }
    if there && running && overlay != 0 && !above_overlay {
        assert(actions[actions.len() - 2] is Raise);
        assert(actions[actions.len() - 1] is KeepCursorOnTop);
    }
}

/// What cannot wait comes before what the user asked for: each dialog has its own place in this
/// order, and is asked for by its own request.
pub proof fn dialogs_have_their_order(r: DialogRequests)
    ensures
        rank(DialogKind::TensorRt) < rank(DialogKind::Elevated) < rank(DialogKind::FullscreenCaptureNotice),
        rank(DialogKind::FullscreenCaptureNotice) < rank(DialogKind::ResizeScale) < rank(DialogKind::Hotkey),
        rank(DialogKind::Hotkey) < rank(DialogKind::FilterPicker) < rank(DialogKind::SaveAs) < rank(
            DialogKind::DeletePreset,
        ),
        is_requested(r, DialogKind::TensorRt) == r.tensorrt,
        is_requested(r, DialogKind::Elevated) == r.elevated,
        is_requested(r, DialogKind::FullscreenCaptureNotice) == r.fullscreen_notice,
        is_requested(r, DialogKind::ResizeScale) == r.resize_scale,
        is_requested(r, DialogKind::Hotkey) == r.hotkey,
        is_requested(r, DialogKind::FilterPicker) == r.filter_picker,
        is_requested(r, DialogKind::SaveAs) == r.save_as,
        is_requested(r, DialogKind::DeletePreset) == r.delete_preset,
{
}

/// A dialog gets the length that it asks for where the monitor has it, less where it has less, and
/// never less than it needs; on a larger monitor it is never smaller.
pub proof fn a_dialog_fits_its_monitor(wanted: int, monitor: int, wider: int, margin: int, least: int)
    requires
        0 <= margin,
        monitor <= wider,
    ensures
        ({
            let r = length_within(wanted, monitor, margin, least);
            &&& r <= wanted
            &&& wanted + margin <= monitor ==> r == wanted
            &&& wanted <= least ==> r == wanted
            &&& wanted > least ==> r >= least
            &&& monitor >= least + margin && wanted >= least ==> r + margin <= monitor
            &&& r < wanted && r > least ==> r + margin == monitor
            &&& r <= length_within(wanted, wider, margin, least)
        }),
{
}

/// A dialog's window is kept while it is there; one that is gone gives way to the one that was
/// found, and only that one is new.
pub proof fn a_dialog_keeps_its_window(dialog: WindowFacts, found: Option<isize>)
    ensures
        dialog.handle != 0 && dialog.valid ==> window_taken(dialog, found) == (dialog.handle, false),
        dialog.handle == 0 || !dialog.valid ==> (found matches Some(handle) ==> window_taken(dialog, found) == (handle, true)),
        dialog.handle == 0 || !dialog.valid ==> (found is None ==> window_taken(dialog, found) == (0isize, false)),
{
}

} // verus!
