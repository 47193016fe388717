//! The smaller controls of the main window.
use vstd::prelude::*;
use crate::actions::Rect;
use crate::layout::UiMode;
use crate::presets::AspectCorrectionMode;
use crate::resolution::CaptureResolution;
use crate::text::{chars_of, eq_ignore_ascii_case, string_of, white_space};
use crate::text::{lower_text, trimmed_start};

verus! {

/// How the option to leave the frame away is shown: on and locked while a capture resolution is
/// set, which keeps the setting underneath.
pub fn client_only_control(client_only: bool, resolution: Option<CaptureResolution>) -> (r: (bool, bool))
    ensures
        r.0 == (resolution is Some || client_only),
        r.1 == (resolution is None),
{
    if resolution.is_some() {
        (true, false)
    } else {
        (client_only, true)
    }
}

/// The setting after the option was used: a locked option changes nothing.
pub fn client_only_changed(client_only: bool, resolution: Option<CaptureResolution>, changed_to: Option<bool>) -> (r: (
    bool,
    bool,
))
    ensures
        r == (match changed_to {
            Some(on) if resolution is None => (on, true),
            _ => (client_only, false),
        }),
{
    match changed_to {
        Some(on) => if resolution.is_none() {
            (on, true)
        } else {
            (client_only, false)
        },
        None => (client_only, false),
    }
}

/// Timers run for the statistics or for the log.
pub fn metrics_enabled(stats_on: bool, diagnostics: bool) -> (r: bool)
    ensures
        r == (stats_on || diagnostics),
{
    stats_on || diagnostics
}

/// The size of the picture inside the chain, as the statistics show it: the size of the output
/// where it is not known.
pub fn internal_size(internal: (u32, u32), out: (u32, u32)) -> (r: (u32, u32))
    ensures
        r == (if internal.0 > 0 && internal.1 > 0 {
            internal
        } else {
            out
        }),
{
    if internal.0 > 0 && internal.1 > 0 {
        internal
    } else {
        out
    }
}

/// The factors by which frames are multiplied.
pub fn interpolation_factors() -> (factors: [u32; 4])
    ensures
        factors@ == seq![2u32, 3, 4, 5],
{
    let factors: [u32; 4] = [2, 3, 4, 5];
    proof {
        assert(factors@ =~= seq![2u32, 3, 4, 5]);
    }
    factors
}

/// The ways to scale the finished picture down.
pub fn downscalers() -> (names: [&'static str; 5])
    ensures
        names@[0]@ == "spline36"@,
        names@[1]@ == "lanczos3"@,
        names@[2]@ == "bicubic"@,
        names@[3]@ == "bilinear"@,
        names@[4]@ == "nearest"@,
{
    ["spline36", "lanczos3", "bicubic", "bilinear", "nearest"]
}

/// The name of a way to correct the aspect ratio.
pub fn aspect_mode_label(mode: AspectCorrectionMode) -> (label: &'static str)
    ensures
        label@ == (match mode {
            AspectCorrectionMode::Manual => "Manual"@,
            AspectCorrectionMode::Auto4x3 => "4:3 (Auto)"@,
            AspectCorrectionMode::Auto16x9 => "16:9 (Auto)"@,
        }),
{
    match mode {
        AspectCorrectionMode::Manual => "Manual",
        AspectCorrectionMode::Auto4x3 => "4:3 (Auto)",
        AspectCorrectionMode::Auto16x9 => "16:9 (Auto)",
    }
}

/// The two scales can be edited: the correction is on and is made by hand.
pub fn manual_scales_enabled(enabled: bool, mode: AspectCorrectionMode) -> (r: bool)
    ensures
        r == (enabled && mode == AspectCorrectionMode::Manual),
{
    enabled && mode == AspectCorrectionMode::Manual
}

/// The controls of the row about frames.
#[derive(Clone, Copy, Debug, PartialEq, Eq, Structural)]
pub enum CadenceControl {
    FpsCap,
    FpsValue,
    DuplicateReduction,
    SmoothPacing,
    Vsync,
    TensorRt,
}

/// The row about frames, from left to right: the value of the limit only while there is a
/// limit, and the optional backend, once, where it was found.
pub fn cadence_controls(fps_cap_enabled: bool, tensorrt_available: bool) -> (row: Vec<CadenceControl>)
    ensures
        row@ == seq![CadenceControl::FpsCap] + (if fps_cap_enabled {
            seq![CadenceControl::FpsValue]
        } else {
            seq![]
        }) + seq![CadenceControl::DuplicateReduction, CadenceControl::SmoothPacing, CadenceControl::Vsync] + (
        if tensorrt_available {
            seq![CadenceControl::TensorRt]
        } else {
            seq![]
        }),
{
    let mut row: Vec<CadenceControl> = Vec::new();
    row.push(CadenceControl::FpsCap);
    if fps_cap_enabled {
        row.push(CadenceControl::FpsValue);
    }
    row.push(CadenceControl::DuplicateReduction);
    row.push(CadenceControl::SmoothPacing);
    row.push(CadenceControl::Vsync);
    if tensorrt_available {
        row.push(CadenceControl::TensorRt);
    }
    proof {
        assert(row@ =~= seq![CadenceControl::FpsCap] + (if fps_cap_enabled {
            seq![CadenceControl::FpsValue]
        } else {
            seq![]
        }) + seq![CadenceControl::DuplicateReduction, CadenceControl::SmoothPacing, CadenceControl::Vsync] + (
        if tensorrt_available {
            seq![CadenceControl::TensorRt]
        } else {
            seq![]
        }));
    }
    row
}

/// The title in the target row: that of the capture, else that of the selected window, else a
/// hint.
pub fn target_text(running: bool, session_title: &str, selected_title: &str, hint: &str) -> (text: String)
    ensures
        ({
            let title = if running {
                session_title@
            } else {
                selected_title@
            };
            text@ == (if title.len() == 0 {
                hint@
            } else {
                title
            })
        }),
{
    let title = if running {
        session_title
    } else {
        selected_title
    };
    if title.is_empty() {
        hint.to_owned()
    } else {
        title.to_owned()
    }
}

/// What follows changed settings: they are saved, and a running capture learns the display mode.
pub fn settings_changed(changed: bool, running: bool) -> (r: (bool, bool))
    ensures
        r.0 == changed,
        r.1 == (changed && running),
{
    (changed, changed && running)
}

pub open spec fn mode_named(name: Seq<char>) -> Option<(UiMode, bool)> {
    let lower = lower_text(name);
    if lower == "mini"@ {
        Some((UiMode::Mini, false))
    } else if lower == "basic"@ {
        Some((UiMode::Basic, false))
    } else if lower == "basic_stats"@ {
        Some((UiMode::Basic, true))
    } else if lower == "full"@ {
        Some((UiMode::Full, false))
    } else if lower == "full_stats"@ {
        Some((UiMode::Full, true))
    } else {
        None
    }
}

fn is_named(name: &str, word: &str) -> (r: bool)
    requires
        lower_text(word@) == word@,
    ensures
        r == (lower_text(name@) == word@),
{
    eq_ignore_ascii_case(name, word)
}

/// The layout, and whether statistics are shown, when a test names a layout.
pub fn startup_mode(name: &str, saved: UiMode, stats_on: bool) -> (r: (UiMode, bool))
    ensures
        r == (match mode_named(name@) {
            Some((mode, stats)) => (mode, stats_on || stats),
            None => (saved, stats_on),
        }),
{
    proof {
        reveal_strlit("mini");
        reveal_strlit("basic");
        reveal_strlit("basic_stats");
        reveal_strlit("full");
        reveal_strlit("full_stats");
        assert(lower_text("mini"@) =~= "mini"@);
        assert(lower_text("basic"@) =~= "basic"@);
        assert(lower_text("basic_stats"@) =~= "basic_stats"@);
        assert(lower_text("full"@) =~= "full"@);
        assert(lower_text("full_stats"@) =~= "full_stats"@);
    }
    if is_named(name, "mini") {
        (UiMode::Mini, stats_on)
    } else if is_named(name, "basic") {
        (UiMode::Basic, stats_on)
    } else if is_named(name, "basic_stats") {
        (UiMode::Basic, true)
    } else if is_named(name, "full") {
        (UiMode::Full, stats_on)
    } else if is_named(name, "full_stats") {
        (UiMode::Full, true)
    } else {
        (saved, stats_on)
    }
}

/// Whether the basic layout has to be resized: the statistics came or went, or have another
/// number of rows.
pub fn basic_layout_outdated(applied: Option<bool>, applied_rows: Option<u32>, stats_on: bool, rows: u32) -> (r: bool)
    ensures
        r == (applied != Some(stats_on) || applied_rows != Some(rows)),
{
    applied != Some(stats_on) || applied_rows != Some(rows)
}

/// The words of the target's label, without the icon in front of them: the icon is drawn by
/// itself.
pub open spec fn label_words(label: Seq<char>) -> Seq<char> {
    if label.len() > 0 && label[0] == '\u{1f3af}' {
        trimmed_start(label.skip(1))
    } else {
        label
    }
}

pub fn target_icon_and_label(label: &str) -> (words: String)
    ensures
        words@ == label_words(label@),
{
    let chars = chars_of(label);
    if chars.len() == 0 || chars[0] != '\u{1f3af}' {
        return label.to_owned();
    }
    let ghost rest = label@.skip(1);
    let mut from: usize = 1;
    assert(label@.skip(1) =~= rest.skip(0));
    assert(rest.skip(0) =~= rest);
    while from < chars.len() && white_space(chars[from])
        invariant
            chars@ == label@,
            1 <= from <= chars@.len(),
            trimmed_start(label@.skip(1)) == trimmed_start(label@.skip(from as int)),
        decreases chars@.len() - from,
    {
        proof {
            assert(label@.skip(from as int).skip(1) =~= label@.skip(from + 1));
            assert(label@.skip(from as int)[0] == label@[from as int]);
        }
        from += 1;
    }
    proof {
        assert(from < chars@.len() ==> label@.skip(from as int)[0] == label@[from as int]);
        assert(label@.skip(from as int) =~= label@.subrange(from as int, label@.len() as int));
    }
    string_of(&chars, from, chars.len())
}

// ---------------------------------------------------------------------------------------
// The settings folder

/// The two parts of the folder icon, in half points.
#[derive(Clone, Copy, Debug, PartialEq, Eq, Structural)]
pub struct FolderIcon {
    pub body: Rect,
    pub tab: Rect,
}

/// The folder icon around a centre. All lengths are half points.
pub fn folder_icon_geometry(center_x: i32, center_y: i32) -> (icon: FolderIcon)
    requires
        i32::MIN + 17 <= center_x <= i32::MAX - 17,
        i32::MIN + 14 <= center_y <= i32::MAX - 14,
    ensures
        icon.body == (Rect { x: (center_x - 17) as i32, y: (center_y - 8) as i32, w: 34, h: 22 }),
        icon.tab == (Rect { x: (center_x - 14) as i32, y: (center_y - 14) as i32, w: 14, h: 9 }),
{
    FolderIcon {
        body: Rect { x: center_x - 17, y: center_y - 8, w: 34, h: 22 },
        tab: Rect { x: center_x - 14, y: center_y - 14, w: 14, h: 9 },
    }
}

/// The box round both parts of an icon: left, top, right, bottom.
pub open spec fn icon_bounds(icon: FolderIcon) -> (int, int, int, int) {
    let body = icon.body;
    let tab = icon.tab;
    (
        if body.x <= tab.x { body.x as int } else { tab.x as int },
        if body.y <= tab.y { body.y as int } else { tab.y as int },
        if body.x + body.w >= tab.x + tab.w { body.x + body.w } else { tab.x + tab.w },
        if body.y + body.h >= tab.y + tab.h { body.y + body.h } else { tab.y + tab.h },
    )
}

/// The folder icon is exactly centred: the box round it has the same centre, and the tab stands
/// out of the body at the top alone.
pub proof fn the_folder_icon_is_centred(icon: FolderIcon, center_x: int, center_y: int)
    requires
        icon.body.x == center_x - 17 && icon.body.y == center_y - 8,
        icon.body.w == 34 && icon.body.h == 22,
        icon.tab.x == center_x - 14 && icon.tab.y == center_y - 14,
        icon.tab.w == 14 && icon.tab.h == 9,
    ensures
        icon_bounds(icon).0 + icon_bounds(icon).2 == 2 * center_x,
        icon_bounds(icon).1 + icon_bounds(icon).3 == 2 * center_y,
        icon.body.x <= icon.tab.x && icon.tab.x + icon.tab.w <= icon.body.x + icon.body.w,
{
}

/// What the control of the settings folder shows and does: an icon, its help, and the folder of
/// the program.
#[derive(Debug)]
pub struct FolderControl {
    /// Words on the control, if any.
    pub label: Option<&'static str>,
    pub help_key: &'static str,
    pub failure_key: &'static str,
}

/// The control has no words: its help alone is translated.
pub fn settings_folder_control() -> (control: FolderControl)
    ensures
        control.label is None,
        control.help_key@ == "settings.open_folder"@,
        control.failure_key@ == "settings.open_folder_failed"@,
{
    FolderControl {
        label: None,
        help_key: "settings.open_folder",
        failure_key: "settings.open_folder_failed",
    }
}

/// How opening the folder went.
#[derive(Debug)]
pub enum FolderOpening {
    Opened,
    AlreadyOpen,
    Failed(String),
}

/// What the window reports after the folder was asked for: nothing unless it failed, and the
/// error behind the words for it.
pub fn folder_error(opening: &FolderOpening, failure: &str) -> (error: Option<String>)
    ensures
        match opening {
            FolderOpening::Failed(reason) => error matches Some(e) && e@ == failure@ + ": "@ + reason@,
            _ => error is None,
        },
{
    match opening {
        FolderOpening::Failed(reason) => {
            let mut text = failure.to_owned();
            text.append(": ");
            text.append(reason.as_str());
            Some(text)
        },
        _ => None,
    }
}

/// A layout is asked for by its name, whatever the case of its letters, with the statistics where
/// the name says so.
pub proof fn layouts_are_asked_for_by_name(name: Seq<char>)
    ensures
        lower_text(name) == "mini"@ ==> mode_named(name) == Some((UiMode::Mini, false)),
        lower_text(name) == "basic"@ ==> mode_named(name) == Some((UiMode::Basic, false)),
        lower_text(name) == "basic_stats"@ ==> mode_named(name) == Some((UiMode::Basic, true)),
        lower_text(name) == "full"@ ==> mode_named(name) == Some((UiMode::Full, false)),
        lower_text(name) == "full_stats"@ ==> mode_named(name) == Some((UiMode::Full, true)),
        mode_named(name) == mode_named(lower_text(name)),
{
    reveal_strlit("mini");
    reveal_strlit("basic");
    reveal_strlit("basic_stats");
    reveal_strlit("full");
    reveal_strlit("full_stats");
    assert("mini"@[0] == 'm' && "basic"@[0] == 'b' && "basic_stats"@[0] == 'b' && "full"@[0] == 'f' && "full_stats"@[0]
        == 'f');
    assert("basic"@.len() == 5 && "basic_stats"@.len() == 11 && "full"@.len() == 4 && "full_stats"@.len() == 10);
    assert(lower_text(lower_text(name)) =~= lower_text(name));
}

/// The icon before a label is taken off with the blanks behind it, and a label without it is kept.
pub proof fn only_the_icon_is_taken_off(label: Seq<char>)
    ensures
        label.len() == 0 || label[0] != '\u{1f3af}' ==> label_words(label) == label,
        label_words(seq!['\u{1f3af}'] + label) == trimmed_start(label),
{
    assert((seq!['\u{1f3af}'] + label).skip(1) =~= label);
}

} // verus!
