//! Window sizes. Lengths that come from measured text are whole numbers of units, of which one
//! point has 1024; heights that are made of fixed rows are whole points. The zoom factor has the
//! same denominator.
use vstd::prelude::*;

verus! {

/// Units in a point.
pub const UNIT: u64 = 1024;

/// The three layouts of the main window.
#[derive(Clone, Copy, Debug, PartialEq, Eq, Structural)]
pub enum UiMode {
    Mini,
    Basic,
    Full,
}

// ---------------------------------------------------------------------------------------
// Fixed measures, in points

pub const FULL_DEFAULT_WIDTH: u64 = 900;

pub const FULL_DEFAULT_HEIGHT: u64 = 840;

pub const FULL_MIN_WIDTH: u64 = 880;

pub const FULL_MIN_HEIGHT: u64 = 700;

pub const BASIC_DEFAULT_WIDTH: u64 = 720;

pub const BASIC_DEFAULT_HEIGHT: u64 = 390;

pub const BASIC_MIN_WIDTH: u64 = 720;

pub const BASIC_MIN_HEIGHT: u64 = 350;

pub const BASIC_MAX_RESTORED_WIDTH: u64 = 870;

pub const MINI_DEFAULT_WIDTH: u64 = 760;

pub const MINI_DEFAULT_HEIGHT: u64 = 105;

pub const MINI_MIN_WIDTH: u64 = 760;

pub const MINI_MIN_HEIGHT: u64 = 101;

/// Room beside the rows: margins, the scroll bar and a visible right edge.
pub const FULL_LAYOUT_FIXED_RESERVE: u64 = 76;

pub const MAX_TRANSLATED_BUTTON_WIDTH: u64 = 176;

pub const MAX_TRANSLATED_CHECKBOX_LABEL_WIDTH: u64 = 210;

pub const MAX_TRANSLATED_PLAIN_LABEL_WIDTH: u64 = 220;

pub const MAX_CAPTURE_BUTTON_WIDTH: u64 = 220;

pub const CAPTURE_RESOLUTION_FIELD_MIN_WIDTH: u64 = 96;

pub const CAPTURE_RESOLUTION_FIELD_MAX_WIDTH: u64 = 156;

pub const MINI_LANGUAGE_POPUP_HEIGHT: u64 = 58;

pub const FULL_LANGUAGE_POPUP_HEIGHT: u64 = 286;

pub const MINI_PRESET_POPUP_HEIGHT: u64 = 80;

pub const FULL_PRESET_POPUP_HEIGHT: u64 = 324;

pub const TARGET_ROW_HEIGHT: u64 = 26;

/// How far below the middle the words of the target row stand.
pub const TARGET_TEXT_Y_OFFSET: u64 = 1;

pub const PRESET_ROW_HEIGHT: u64 = 24;

pub const PRESET_ROW_GAP: u64 = 5;

pub const PRESET_POPUP_BOTTOM_GUTTER: u64 = 14;

pub const FULL_SETTINGS_BOTTOM_GUTTER: u64 = 36;

pub const FULL_SETTINGS_VISIBLE_BOTTOM_PADDING: u64 = 20;

pub const FULL_SETTINGS_MEASURED_EXTRA_HEIGHT: u64 = 28;

pub const FULL_TOOLBAR_WRAP_EXTRA_HEIGHT: u64 = 44;

/// The extra height of a settings row that is wrapped, per line.
pub const FULL_ROW_WRAP_EXTRA_HEIGHT: u64 = 32;

/// What stands above the chain in the full layout.
pub const FULL_HEADER_HEIGHT: u64 = 166;

// ---------------------------------------------------------------------------------------
// Small rules

/// The height of the list of languages.
pub fn language_popup_height(mode: UiMode) -> (h: u64)
    ensures
        h == (if mode == UiMode::Mini {
            MINI_LANGUAGE_POPUP_HEIGHT
        } else {
            FULL_LANGUAGE_POPUP_HEIGHT
        }),
{
    match mode {
        UiMode::Mini => MINI_LANGUAGE_POPUP_HEIGHT,
        UiMode::Basic | UiMode::Full => FULL_LANGUAGE_POPUP_HEIGHT,
    }
}

/// The height of the list of presets.
pub fn preset_popup_height(mode: UiMode) -> (h: u64)
    ensures
        h == (if mode == UiMode::Mini {
            MINI_PRESET_POPUP_HEIGHT
        } else {
            FULL_PRESET_POPUP_HEIGHT
        }),
{
    match mode {
        UiMode::Mini => MINI_PRESET_POPUP_HEIGHT,
        UiMode::Basic | UiMode::Full => FULL_PRESET_POPUP_HEIGHT,
    }
}

pub open spec fn popup_id(mode: UiMode) -> Seq<char> {
    match mode {
        UiMode::Mini => "preset_mini"@,
        UiMode::Basic => "preset_basic"@,
        UiMode::Full => "preset_full"@,
    }
}

/// The name under which a layout keeps the state of its list of presets.
pub fn preset_popup_id(mode: UiMode) -> (id: &'static str)
    ensures
        id@ == popup_id(mode),
{
    match mode {
        UiMode::Mini => "preset_mini",
        UiMode::Basic => "preset_basic",
        UiMode::Full => "preset_full",
    }
}

/// No two layouts share the state of their list of presets.
pub proof fn popup_state_is_not_shared(a: UiMode, b: UiMode)
    requires
        a != b,
    ensures
        popup_id(a) != popup_id(b),
{
    reveal_strlit("preset_mini");
    reveal_strlit("preset_basic");
    reveal_strlit("preset_full");
    assert("preset_mini"@[7] == 'm');
    assert("preset_basic"@[7] == 'b');
    assert("preset_full"@[7] == 'f');
}

pub open spec fn clamp(value: int, low: int, high: int) -> int {
    if value < low {
        low
    } else if value > high {
        high
    } else {
        value
    }
}

/// The width, in units, at which the basic layout opens again.
pub fn basic_restored_width(width: u64) -> (w: u64)
    ensures
        w == clamp(width as int, BASIC_MIN_WIDTH * UNIT, BASIC_MAX_RESTORED_WIDTH * UNIT),
{
    let low: u64 = BASIC_MIN_WIDTH * UNIT;
    let high: u64 = BASIC_MAX_RESTORED_WIDTH * UNIT;
    if width < low {
        low
    } else if width > high {
        high
    } else {
        width
    }
}

/// How long the main window waits before it draws itself unasked, in milliseconds. While a
/// capture runs the pause has no common measure with the usual frame rates.
pub fn gui_fallback_repaint_ms(running: bool) -> (ms: u64)
    ensures
        ms == (if running {
            521u64
        } else {
            250u64
        }),
{
    if !running {
        return 250;
    }
    521
}

pub open spec fn mode_under(offset: int, segment: int) -> UiMode {
    if offset < segment {
        UiMode::Mini
    } else if offset < 2 * segment {
        UiMode::Basic
    } else {
        UiMode::Full
    }
}

/// The layout under the pointer on the switch with three segments; `offset` counts from its
/// left edge.
pub fn mode_at(offset: i64, segment: u32) -> (mode: UiMode)
    ensures
        mode == mode_under(offset as int, segment as int),
{
    let segment: i64 = segment as i64;
    if offset < segment {
        UiMode::Mini
    } else if offset < 2 * segment {
        UiMode::Basic
    } else {
        UiMode::Full
    }
}

pub open spec fn sizes_of(mode: UiMode) -> ((u64, u64), (u64, u64)) {
    match mode {
        UiMode::Mini => ((MINI_DEFAULT_WIDTH, MINI_DEFAULT_HEIGHT), (MINI_MIN_WIDTH, MINI_MIN_HEIGHT)),
        UiMode::Basic => ((BASIC_DEFAULT_WIDTH, BASIC_DEFAULT_HEIGHT), (BASIC_MIN_WIDTH, BASIC_MIN_HEIGHT)),
        UiMode::Full => ((FULL_DEFAULT_WIDTH, FULL_DEFAULT_HEIGHT), (FULL_MIN_WIDTH, FULL_MIN_HEIGHT)),
    }
}

/// The default and the least size of a layout, in points.
pub fn mode_sizes(mode: UiMode) -> (r: ((u64, u64), (u64, u64)))
    ensures
        r == sizes_of(mode),
{
    match mode {
        UiMode::Mini => ((MINI_DEFAULT_WIDTH, MINI_DEFAULT_HEIGHT), (MINI_MIN_WIDTH, MINI_MIN_HEIGHT)),
        UiMode::Basic => ((BASIC_DEFAULT_WIDTH, BASIC_DEFAULT_HEIGHT), (BASIC_MIN_WIDTH, BASIC_MIN_HEIGHT)),
        UiMode::Full => ((FULL_DEFAULT_WIDTH, FULL_DEFAULT_HEIGHT), (FULL_MIN_WIDTH, FULL_MIN_HEIGHT)),
    }
}

pub open spec fn restored(mode: UiMode, saved: Option<(u64, u64)>) -> Option<(u64, u64)> {
    match saved {
        None => None,
        Some(s) => Some(
            match mode {
                UiMode::Mini => (s.0, (MINI_DEFAULT_HEIGHT * UNIT) as u64),
                UiMode::Basic => (
                    clamp(s.0 as int, BASIC_MIN_WIDTH * UNIT, BASIC_MAX_RESTORED_WIDTH * UNIT) as u64,
                    (BASIC_DEFAULT_HEIGHT * UNIT) as u64,
                ),
                UiMode::Full => s,
            },
        ),
    }
}

/// The size, in units, that a saved window gives back: the small layouts keep their height.
pub fn restored_size(mode: UiMode, saved: Option<(u64, u64)>) -> (size: Option<(u64, u64)>)
    ensures
        size == restored(mode, saved),
{
    match saved {
        None => None,
        Some((w, h)) => Some(
            match mode {
                UiMode::Mini => (w, MINI_DEFAULT_HEIGHT * UNIT),
                UiMode::Basic => (basic_restored_width(w), BASIC_DEFAULT_HEIGHT * UNIT),
                UiMode::Full => (w, h),
            },
        ),
    }
}

/// The largest size that is taken over from the settings, in points.
pub const MAX_RESTORED_SIZE: u64 = 4000;

pub open spec fn is_sane_size(mode: UiMode, size: (u64, u64)) -> bool {
    let least = sizes_of(mode).1;
    least.0 * UNIT <= size.0 <= MAX_RESTORED_SIZE * UNIT && least.1 * UNIT <= size.1 <= MAX_RESTORED_SIZE * UNIT
}

/// Whether a restored size, in units, is sane.
pub fn size_is_sane(mode: UiMode, size: (u64, u64)) -> (r: bool)
    ensures
        r == is_sane_size(mode, size),
{
    let (_, least) = mode_sizes(mode);
    size.0 >= least.0 * UNIT && size.0 <= MAX_RESTORED_SIZE * UNIT && size.1 >= least.1 * UNIT && size.1
        <= MAX_RESTORED_SIZE * UNIT
}

pub open spec fn is_sane_position(x: int, y: int) -> bool {
    -200 * UNIT <= x <= 8000 * UNIT && -50 * UNIT <= y <= 8000 * UNIT
}

/// Whether a restored position, in units, is sane.
pub fn position_is_sane(x: i64, y: i64) -> (r: bool)
    ensures
        r == is_sane_position(x as int, y as int),
{
    let unit: i64 = UNIT as i64;
    x >= -200 * unit && x <= 8000 * unit && y >= -50 * unit && y <= 8000 * unit
}

// ---------------------------------------------------------------------------------------
// Heights, in points

pub open spec fn chain_rows(filter_count: nat, stats_on: bool) -> int {
    if stats_on {
        clamp(filter_count as int, 2, 3)
    } else {
        filter_count as int + 1
    }
}

pub open spec fn chain_height(filter_count: nat, stats_on: bool) -> int {
    58 + 56 * chain_rows(filter_count, stats_on)
}

/// The height of the chain: with statistics two or three rows, without them every filter and
/// one row to add another.
pub fn full_chain_height(filter_count: u32, stats_on: bool) -> (h: u64)
    ensures
        h == chain_height(filter_count as nat, stats_on),
{
    let rows: u64 = if stats_on {
        if filter_count < 2 {
            2
        } else if filter_count > 3 {
            3
        } else {
            filter_count as u64
        }
    } else {
        filter_count as u64 + 1
    };
    58 + rows * 56
}

pub open spec fn settings_height(stats_on: bool, stats_rows: nat) -> int {
    394 + FULL_SETTINGS_BOTTOM_GUTTER + FULL_SETTINGS_MEASURED_EXTRA_HEIGHT + (if stats_on {
        122 + 18 * stats_rows
    } else {
        0
    })
}

/// The height of the settings: statistics take room only when they are shown.
pub fn full_settings_height(stats_on: bool, stats_rows: u32) -> (h: u64)
    ensures
        h == settings_height(stats_on, stats_rows as nat),
{
    let stats: u64 = if stats_on {
        122 + stats_rows as u64 * 18
    } else {
        0
    };
    394 + FULL_SETTINGS_BOTTOM_GUTTER + FULL_SETTINGS_MEASURED_EXTRA_HEIGHT + stats
}

/// How many rows the statistics have: as many as were measured or as there are filters that
/// run, whichever is more.
pub fn basic_stats_rows(measured: u32, enabled: u32) -> (rows: u32)
    ensures
        rows == (if measured > enabled {
            measured
        } else {
            enabled
        }),
{
    if measured > enabled {
        measured
    } else {
        enabled
    }
}

/// The height of the basic layout with statistics.
pub fn basic_stats_height(rows: u32) -> (h: u64)
    ensures
        h == 438 + 22 * rows,
{
    438 + rows as u64 * 22
}

/// How many lines a row takes: at most three. There is always room for one point, and half a
/// point is no reason for another line.
pub open spec fn wrapped_lines(row: int, usable: int) -> int {
    let usable = if usable < UNIT {
        UNIT as int
    } else {
        usable
    };
    if row <= usable + UNIT as int / 2 {
        1
    } else {
        clamp((row + usable - 1) / usable, 1, 3)
    }
}

/// The height that wrapping adds to a row; the widths are in units, the height in points.
pub fn full_wrapped_row_extra(row_width: u64, usable_width: u64, per_extra_line: u32) -> (extra: u64)
    requires
        row_width + usable_width + UNIT <= u64::MAX,
    ensures
        extra == (wrapped_lines(row_width as int, usable_width as int) - 1) * per_extra_line,
{
    let usable: u64 = if usable_width < UNIT {
        UNIT
    } else {
        usable_width
    };
    if row_width <= usable + UNIT / 2 {
        proof {
            assert(wrapped_lines(row_width as int, usable_width as int) - 1 == 0);
            assert(0 * (per_extra_line as int) == 0);
        }
        return 0;
    }
    let lines: u64 = (row_width + usable - 1) / usable;
    proof {
        assert((row_width + usable - 1) / usable as int >= 1) by (nonlinear_arith)
            requires
                row_width > usable,
                usable >= 1,
        ;
    }
    let more: u64 = if lines > 3 {
        2
    } else {
        lines - 1
    };
    proof {
        let per: int = per_extra_line as int;
        assert(more == wrapped_lines(row_width as int, usable_width as int) - 1);
        assert(0 <= more * per <= 2 * 0xffff_ffff) by (nonlinear_arith)
            requires
                0 <= more <= 2,
                0 <= per <= 0xffff_ffff,
        ;
    }
    more * per_extra_line as u64
}

/// A row wraps only when it does not fit, and never into more than three lines.
pub proof fn wrapping_is_bounded(row: int, usable: int)
    ensures
        1 <= wrapped_lines(row, usable) <= 3,
        row <= usable ==> wrapped_lines(row, usable) == 1,
{
}

// ---------------------------------------------------------------------------------------
// Widths, in units

pub open spec fn lesser(a: int, b: int) -> int {
    if a < b {
        a
    } else {
        b
    }
}

pub open spec fn greater(a: int, b: int) -> int {
    if a > b {
        a
    } else {
        b
    }
}

/// The style's measures.
#[derive(Clone, Copy, Debug, PartialEq, Eq, Structural)]
pub struct Spacing {
    pub item_gap: u32,
    pub button_padding: u32,
    pub interact_width: u32,
    pub icon_width: u32,
    pub icon_spacing: u32,
}

/// A button no wider than its limit, and wide enough to be hit.
pub open spec fn button_width(text: u32, s: Spacing) -> int {
    greater(
        lesser(text as int, MAX_TRANSLATED_BUTTON_WIDTH * UNIT - 2 * s.button_padding) + 2 * s.button_padding,
        s.interact_width as int,
    )
}

pub open spec fn checkbox_width(text: u32, s: Spacing) -> int {
    s.icon_width + s.icon_spacing + lesser(text as int, MAX_TRANSLATED_CHECKBOX_LABEL_WIDTH * UNIT)
}

pub open spec fn label_width(text: u32) -> int {
    lesser(text as int, MAX_TRANSLATED_PLAIN_LABEL_WIDTH * UNIT)
}

pub fn bounded_button_width(text: u32, s: Spacing) -> (w: u64)
    ensures
        w == button_width(text, s),
        w <= 0x1_0000_0000,
{
    let limit: u64 = MAX_TRANSLATED_BUTTON_WIDTH * UNIT;
    let padded: u64 = text as u64 + 2 * s.button_padding as u64;
    let inner: u64 = if padded < limit {
        padded
    } else {
        limit
    };
    if inner > s.interact_width as u64 {
        inner
    } else {
        s.interact_width as u64
    }
}

pub fn bounded_checkbox_width(text: u32, s: Spacing) -> (w: u64)
    ensures
        w == checkbox_width(text, s),
        w <= 0x3_0000_0000,
{
    let limit: u64 = MAX_TRANSLATED_CHECKBOX_LABEL_WIDTH * UNIT;
    let label: u64 = if (text as u64) < limit {
        text as u64
    } else {
        limit
    };
    s.icon_width as u64 + s.icon_spacing as u64 + label
}

pub fn bounded_plain_label_width(text: u32) -> (w: u64)
    ensures
        w == label_width(text),
        w <= 0x1_0000_0000,
{
    let limit: u64 = MAX_TRANSLATED_PLAIN_LABEL_WIDTH * UNIT;
    if (text as u64) < limit {
        text as u64
    } else {
        limit
    }
}

/// The width of the field for the capture resolution, given its widest text.
pub fn capture_resolution_field_width(widest: u32) -> (w: u64)
    ensures
        w == clamp(
            widest + 22 * UNIT,
            CAPTURE_RESOLUTION_FIELD_MIN_WIDTH * UNIT,
            CAPTURE_RESOLUTION_FIELD_MAX_WIDTH * UNIT,
        ),
        w <= 0x1_0000_0000,
{
    let wanted: u64 = widest as u64 + 22 * UNIT;
    let low: u64 = CAPTURE_RESOLUTION_FIELD_MIN_WIDTH * UNIT;
    let high: u64 = CAPTURE_RESOLUTION_FIELD_MAX_WIDTH * UNIT;
    if wanted < low {
        low
    } else if wanted > high {
        high
    } else {
        wanted
    }
}

/// The measured texts of the full layout.
#[derive(Clone, Copy, Debug, PartialEq, Eq, Structural)]
pub struct FullTexts {
    pub display: u32,
    pub fullscreen: u32,
    pub windowed: u32,
    pub cross: u32,
    pub resize: u32,
    pub capture_size: u32,
    pub widest_resolution: u32,
    pub aspect: u32,
    pub aspect_mode: u32,
    pub aspect_width: u32,
    pub aspect_height: u32,
    pub crop: u32,
    pub crop_left: u32,
    pub crop_top: u32,
    pub crop_right: u32,
    pub crop_bottom: u32,
    pub fps_cap: u32,
    pub duplicate_reduction: u32,
    pub smooth_pacing: u32,
    pub vsync: u32,
    /// Present where the optional backend was found.
    pub tensorrt: Option<u32>,
    pub stats: u32,
    pub keep_on_top: u32,
    pub show_panel: u32,
    pub client_only: u32,
    pub save_log: u32,
    /// Present where there is an adapter to choose.
    pub gpu: Option<u32>,
    pub autohide: u32,
    pub cursor_speed: u32,
    pub restart_as_admin: u32,
    pub start: u32,
    pub running: u32,
    pub widest_preset: u32,
    pub save: u32,
    pub save_as: u32,
    pub new_preset: u32,
    pub delete: u32,
}

/// The separator between groups, in units.
pub const SEPARATOR_WIDTH: u64 = 14 * 1024;

pub open spec fn display_row(t: FullTexts, s: Spacing) -> int {
    (label_width(t.display) + 8 * UNIT) + button_width(t.fullscreen, s) + button_width(t.windowed, s) + 82 * UNIT
        + t.cross + 6 * s.item_gap + (label_width(t.resize) + 104 * UNIT + 2 * s.item_gap) + (label_width(
        t.capture_size,
    ) + clamp(
        t.widest_resolution + 22 * UNIT,
        CAPTURE_RESOLUTION_FIELD_MIN_WIDTH * UNIT,
        CAPTURE_RESOLUTION_FIELD_MAX_WIDTH * UNIT,
    ) + 28 * UNIT + 3 * s.item_gap) + 2 * SEPARATOR_WIDTH + 2 * s.item_gap
}

pub open spec fn aspect_row(t: FullTexts, s: Spacing) -> int {
    checkbox_width(t.aspect, s) + label_width(t.aspect_mode) + 112 * UNIT + label_width(t.aspect_width) + label_width(
        t.aspect_height,
    ) + 132 * UNIT + 7 * s.item_gap
}

pub open spec fn crop_row(t: FullTexts, s: Spacing) -> int {
    checkbox_width(t.crop, s) + label_width(t.crop_left) + label_width(t.crop_top) + label_width(t.crop_right)
        + label_width(t.crop_bottom) + 224 * UNIT + 9 * s.item_gap
}

/// The row of the frame options: the limit, the repeated frames, the pacing, the
/// synchronisation and, where there is one, the optional backend.
pub open spec fn cadence_row(t: FullTexts, s: Spacing) -> int {
    checkbox_width(t.fps_cap, s) + checkbox_width(t.duplicate_reduction, s) + checkbox_width(t.smooth_pacing, s)
        + checkbox_width(t.vsync, s) + 64 * UNIT + (match t.tensorrt {
        Some(text) => checkbox_width(text, s) + 6 * s.item_gap,
        None => 5 * s.item_gap,
    })
}

pub open spec fn options_row(t: FullTexts, s: Spacing) -> int {
    checkbox_width(t.stats, s) + checkbox_width(t.keep_on_top, s) + checkbox_width(t.show_panel, s) + checkbox_width(
        t.client_only,
        s,
    ) + checkbox_width(t.save_log, s) + (match t.gpu {
        Some(text) => label_width(text) + 190 * UNIT + SEPARATOR_WIDTH + 3 * s.item_gap,
        None => 0,
    }) + 30 * UNIT + SEPARATOR_WIDTH + 8 * s.item_gap
}

pub open spec fn cursor_row(t: FullTexts, s: Spacing) -> int {
    checkbox_width(t.autohide, s) + checkbox_width(t.cursor_speed, s) + checkbox_width(t.restart_as_admin, s) + 92
        * UNIT + SEPARATOR_WIDTH + 4 * s.item_gap
}

pub open spec fn start_button_width(t: FullTexts) -> int {
    lesser(
        greater(greater(t.start as int, t.running as int) + 53 * UNIT, 150 * UNIT as int),
        MAX_CAPTURE_BUTTON_WIDTH * UNIT,
    )
}

/// The list of presets is as wide as its widest name, in whole points.
pub open spec fn preset_width(t: FullTexts, s: Spacing) -> int {
    let exact = t.widest_preset + 2 * s.button_padding + 18 * UNIT;
    clamp((exact + UNIT - 1) / UNIT as int * UNIT, 190 * UNIT, 420 * UNIT)
}

pub open spec fn toolbar_row(t: FullTexts, s: Spacing) -> int {
    start_button_width(t) + preset_width(t, s) + button_width(t.save, s) + button_width(t.save_as, s) + button_width(
        t.new_preset,
        s,
    ) + button_width(t.delete, s) + SEPARATOR_WIDTH + 7 * s.item_gap
}

/// The rows of the full layout, in units.
#[derive(Clone, Copy, Debug, PartialEq, Eq, Structural)]
pub struct FullRows {
    pub display: u64,
    pub aspect: u64,
    pub crop: u64,
    pub cadence: u64,
    pub options: u64,
    pub cursor: u64,
    pub toolbar: u64,
}

/// No row is wider than this; texts have limits, and the rest is given by the style.
pub const MAX_ROW_WIDTH: u64 = 0x40_0000_0000;

pub open spec fn rows_are_bounded(rows: FullRows) -> bool {
    rows.display <= MAX_ROW_WIDTH && rows.aspect <= MAX_ROW_WIDTH && rows.crop <= MAX_ROW_WIDTH && rows.cadence
        <= MAX_ROW_WIDTH && rows.options <= MAX_ROW_WIDTH && rows.cursor <= MAX_ROW_WIDTH && rows.toolbar
        <= MAX_ROW_WIDTH
}

/// The widths of the rows.
pub fn full_rows(t: FullTexts, s: Spacing) -> (rows: FullRows)
    ensures
        rows.display == display_row(t, s),
        rows.aspect == aspect_row(t, s),
        rows.crop == crop_row(t, s),
        rows.cadence == cadence_row(t, s),
        rows.options == options_row(t, s),
        rows.cursor == cursor_row(t, s),
        rows.toolbar == toolbar_row(t, s),
        rows_are_bounded(rows),
{
    let gap: u64 = s.item_gap as u64;
    let display: u64 = bounded_plain_label_width(t.display) + 8 * UNIT + bounded_button_width(t.fullscreen, s)
        + bounded_button_width(t.windowed, s) + 82 * UNIT + t.cross as u64 + 6 * gap + bounded_plain_label_width(
        t.resize,
    ) + 104 * UNIT + 2 * gap + bounded_plain_label_width(t.capture_size) + capture_resolution_field_width(
        t.widest_resolution,
    ) + 28 * UNIT + 3 * gap + 2 * SEPARATOR_WIDTH + 2 * gap;
    let aspect: u64 = bounded_checkbox_width(t.aspect, s) + bounded_plain_label_width(t.aspect_mode) + 112 * UNIT
        + bounded_plain_label_width(t.aspect_width) + bounded_plain_label_width(t.aspect_height) + 132 * UNIT + 7
        * gap;
    let crop: u64 = bounded_checkbox_width(t.crop, s) + bounded_plain_label_width(t.crop_left)
        + bounded_plain_label_width(t.crop_top) + bounded_plain_label_width(t.crop_right) + bounded_plain_label_width(
        t.crop_bottom,
    ) + 224 * UNIT + 9 * gap;
    let backend: u64 = match t.tensorrt {
        Some(text) => bounded_checkbox_width(text, s) + 6 * gap,
        None => 5 * gap,
    };
    let cadence: u64 = bounded_checkbox_width(t.fps_cap, s) + bounded_checkbox_width(t.duplicate_reduction, s)
        + bounded_checkbox_width(t.smooth_pacing, s) + bounded_checkbox_width(t.vsync, s) + 64 * UNIT + backend;
    let gpu: u64 = match t.gpu {
        Some(text) => bounded_plain_label_width(text) + 190 * UNIT + SEPARATOR_WIDTH + 3 * gap,
        None => 0,
    };
    let options: u64 = bounded_checkbox_width(t.stats, s) + bounded_checkbox_width(t.keep_on_top, s)
        + bounded_checkbox_width(t.show_panel, s) + bounded_checkbox_width(t.client_only, s) + bounded_checkbox_width(
        t.save_log,
        s,
    ) + gpu + 30 * UNIT + SEPARATOR_WIDTH + 8 * gap;
    let cursor: u64 = bounded_checkbox_width(t.autohide, s) + bounded_checkbox_width(t.cursor_speed, s)
        + bounded_checkbox_width(t.restart_as_admin, s) + 92 * UNIT + SEPARATOR_WIDTH + 4 * gap;
    let label: u64 = if t.start > t.running {
        t.start as u64
    } else {
        t.running as u64
    };
    let wanted: u64 = label + 53 * UNIT;
    let start: u64 = if wanted < 150 * UNIT {
        150 * UNIT
    } else if wanted > MAX_CAPTURE_BUTTON_WIDTH * UNIT {
        MAX_CAPTURE_BUTTON_WIDTH * UNIT
    } else {
        wanted
    };
    let exact: u64 = t.widest_preset as u64 + 2 * s.button_padding as u64 + 18 * UNIT;
    let whole: u64 = (exact + UNIT - 1) / UNIT * UNIT;
    let preset: u64 = if whole < 190 * UNIT {
        190 * UNIT
    } else if whole > 420 * UNIT {
        420 * UNIT
    } else {
        whole
    };
    let toolbar: u64 = start + preset + bounded_button_width(t.save, s) + bounded_button_width(t.save_as, s)
        + bounded_button_width(t.new_preset, s) + bounded_button_width(t.delete, s) + SEPARATOR_WIDTH + 7 * gap;
    FullRows { display, aspect, crop, cadence, options, cursor, toolbar }
}

/// The widest row.
pub open spec fn required_row_width(rows: FullRows) -> int {
    greater(
        greater(
            greater(
                greater(
                    greater(greater(rows.display as int, rows.aspect as int), rows.crop as int),
                    rows.cadence as int,
                ),
                rows.options as int,
            ),
            rows.cursor as int,
        ),
        rows.toolbar as int,
    )
}

fn widest(rows: FullRows) -> (w: u64)
    ensures
        w == required_row_width(rows),
{
    let mut w: u64 = rows.display;
    if rows.aspect > w {
        w = rows.aspect;
    }
    if rows.crop > w {
        w = rows.crop;
    }
    if rows.cadence > w {
        w = rows.cadence;
    }
    if rows.options > w {
        w = rows.options;
    }
    if rows.cursor > w {
        w = rows.cursor;
    }
    if rows.toolbar > w {
        w = rows.toolbar;
    }
    w
}

// ---------------------------------------------------------------------------------------
// The size of the full layout

/// The room on the screen, in zoomed units: the monitor, and the work area without the frame of
/// the window where it is known.
#[derive(Clone, Copy, Debug, PartialEq, Eq, Structural)]
pub struct ScreenRoom {
    pub monitor_w: u32,
    pub monitor_h: u32,
    pub work_w: Option<u32>,
    pub work_h: Option<u32>,
}

pub open spec fn monitor_cap(length: u32) -> int {
    greater(length - 16 * UNIT, 320 * UNIT as int)
}

pub open spec fn max_width(room: ScreenRoom) -> int {
    match room.work_w {
        Some(work) => lesser(monitor_cap(room.monitor_w), work as int),
        None => monitor_cap(room.monitor_w),
    }
}

pub open spec fn max_height(room: ScreenRoom) -> int {
    match room.work_h {
        Some(work) => lesser(monitor_cap(room.monitor_h), work as int),
        None => monitor_cap(room.monitor_h),
    }
}

/// The inside of the work area, in points, given the frame around the window; the frame has its
/// usual size where it cannot be measured.
pub fn work_area_cap(work: (i32, i32), outer: Option<(i32, i32)>, client: Option<(i32, i32)>) -> (cap: (i64, i64))
    ensures
        ({
            let frame = match (outer, client) {
                (Some(o), Some(c)) => (greater(o.0 - c.0, 0), greater(o.1 - c.1, 0)),
                _ => (16int, 40int),
            };
            cap.0 == greater(work.0 - frame.0 - 8, 320) && cap.1 == greater(work.1 - frame.1 - 8, 320)
        }),
{
    let (frame_w, frame_h): (i64, i64) = match (outer, client) {
        (Some(o), Some(c)) => {
            let w: i64 = o.0 as i64 - c.0 as i64;
            let h: i64 = o.1 as i64 - c.1 as i64;
            (
                if w > 0 {
                    w
                } else {
                    0
                },
                if h > 0 {
                    h
                } else {
                    0
                },
            )
        },
        _ => (16, 40),
    };
    let w: i64 = work.0 as i64 - frame_w - 8;
    let h: i64 = work.1 as i64 - frame_h - 8;
    (
        if w > 320 {
            w
        } else {
            320
        },
        if h > 320 {
            h
        } else {
            320
        },
    )
}

/// What the full layout is measured for.
#[derive(Clone, Copy, Debug, PartialEq, Eq, Structural)]
pub struct FullDemand {
    pub rows: FullRows,
    pub zoom: u32,
    pub room: ScreenRoom,
    pub filter_count: u32,
    pub stats_on: bool,
    pub stats_rows: u32,
}

/// The width in zoomed units: the widest row, the default and the least width, as far as the
/// screen has room.
pub open spec fn full_width(d: FullDemand) -> int {
    let room = max_width(d.room);
    lesser(
        greater(
            greater(
                (required_row_width(d.rows) + FULL_LAYOUT_FIXED_RESERVE * UNIT) * d.zoom / UNIT as int,
                lesser(FULL_DEFAULT_WIDTH * UNIT, room),
            ),
            lesser(FULL_MIN_WIDTH * UNIT, room),
        ),
        room,
    )
}

/// The width, in units, that the rows have for themselves.
pub open spec fn usable_width(d: FullDemand) -> int {
    greater(full_width(d) * UNIT / d.zoom as int - FULL_LAYOUT_FIXED_RESERVE * UNIT, UNIT as int)
}

/// What wrapping adds to the settings: every row of them counts, the toolbar does not.
pub open spec fn settings_wrap_extra(d: FullDemand) -> int {
    let u = usable_width(d);
    FULL_ROW_WRAP_EXTRA_HEIGHT * (wrapped_lines(d.rows.display as int, u) + wrapped_lines(d.rows.aspect as int, u)
        + wrapped_lines(d.rows.crop as int, u) + wrapped_lines(d.rows.cadence as int, u) + wrapped_lines(
        d.rows.options as int,
        u,
    ) + wrapped_lines(d.rows.cursor as int, u) - 6)
}

pub open spec fn toolbar_wrap_extra(d: FullDemand) -> int {
    FULL_TOOLBAR_WRAP_EXTRA_HEIGHT * (wrapped_lines(d.rows.toolbar as int, usable_width(d)) - 1)
}

/// The height of everything, in points.
pub open spec fn content_height(d: FullDemand) -> int {
    FULL_HEADER_HEIGHT + settings_wrap_extra(d) + toolbar_wrap_extra(d) + chain_height(
        d.filter_count as nat,
        d.stats_on,
    ) + settings_height(d.stats_on, d.stats_rows as nat)
}

/// The height in zoomed units, as far as the screen has room.
pub open spec fn full_height(d: FullDemand) -> int {
    let room = max_height(d.room);
    lesser(greater(content_height(d) * UNIT, lesser(FULL_MIN_HEIGHT * UNIT, room)), room)
}

/// Rounds zoomed units to points, halves away from zero.
pub open spec fn rounded(units: int) -> int {
    (units + UNIT as int / 2) / UNIT as int
}

/// The number by which a layout is known, from three lengths in zoomed units.
pub open spec fn layout_key(width: u32, room_height: u32, height: u32) -> i32 {
    (rounded(width as int) as i32).wrapping_mul(31).wrapping_add(rounded(room_height as int) as i32).wrapping_mul(
        31,
    ).wrapping_add(rounded(height as int) as i32)
}

pub fn full_layout_key(width: u32, room_height: u32, height: u32) -> (key: i32)
    ensures
        key == layout_key(width, room_height, height),
{
    let w: i32 = ((width as u64 + UNIT / 2) / UNIT) as i32;
    let r: i32 = ((room_height as u64 + UNIT / 2) / UNIT) as i32;
    let h: i32 = ((height as u64 + UNIT / 2) / UNIT) as i32;
    w.wrapping_mul(31).wrapping_add(r).wrapping_mul(31).wrapping_add(h)
}

/// A layout that needs another height, by a point or more, has another number.
pub proof fn another_height_is_another_layout(width: u32, room_height: u32, a: u32, b: u32)
    requires
        a + UNIT <= b,
    ensures
        layout_key(width, room_height, a) != layout_key(width, room_height, b),
{
}

/// The measured layout. Lengths are in zoomed units but for `settings_extra`, which is in points.
#[derive(Clone, Copy, Debug, PartialEq, Eq, Structural)]
pub struct FullTarget {
    pub width: u32,
    pub height: u32,
    pub min_width: u32,
    pub min_height: u32,
    pub settings_extra: u32,
    pub key: i32,
}

fn cap(length: u32, work: Option<u32>) -> (r: u32)
    ensures
        r == (match work {
            Some(w) => lesser(monitor_cap(length), w as int),
            None => monitor_cap(length),
        }),
{
    let monitor: u32 = if length as u64 > 336 * UNIT {
        length - 16 * 1024
    } else {
        320 * 1024
    };
    match work {
        Some(w) => if monitor < w {
            monitor
        } else {
            w
        },
        None => monitor,
    }
}

fn row_extra(row: u64, usable: u64) -> (extra: u64)
    requires
        row <= MAX_ROW_WIDTH,
        usable <= 0x400_0000_0000,
    ensures
        extra == FULL_ROW_WRAP_EXTRA_HEIGHT * (wrapped_lines(row as int, usable as int) - 1),
        extra <= 64,
{
    proof {
        wrapping_is_bounded(row as int, usable as int);
    }
    full_wrapped_row_extra(row, usable, 32)
}

fn measure_width(d: FullDemand) -> (width: u32)
    requires
        rows_are_bounded(d.rows),
    ensures
        width == full_width(d),
{
    let room: u32 = cap(d.room.monitor_w, d.room.work_w);
    let min_width: u32 = if room < 880 * 1024 {
        room
    } else {
        880 * 1024
    };
    let preferred: u32 = if room < 900 * 1024 {
        room
    } else {
        900 * 1024
    };
    let needed: u64 = widest(d.rows) + FULL_LAYOUT_FIXED_RESERVE * UNIT;
    proof {
        let zoom: int = d.zoom as int;
        assert(0 <= needed * zoom <= 0x41_0000_0000 * 0xffff_ffff) by (nonlinear_arith)
            requires
                0 <= needed <= 0x41_0000_0000,
                0 <= zoom <= 0xffff_ffff,
        ;
    }
    let zoomed: u128 = needed as u128 * d.zoom as u128 / 1024;
    let mut width: u32 = preferred;
    if min_width > width {
        width = min_width;
    }
    if zoomed > width as u128 {
        width = if zoomed > room as u128 {
            room
        } else {
            zoomed as u32
        };
    }
    width
}

fn measure_usable(d: FullDemand, width: u32) -> (usable: u64)
    requires
        0 < d.zoom,
        width == full_width(d),
    ensures
        usable == usable_width(d),
        usable <= 0x400_0000_0000,
{
    let inner: u64 = width as u64 * UNIT / d.zoom as u64;
    proof {
        let zoom: int = d.zoom as int;
        let total: int = width * UNIT;
        assert(total / zoom <= total) by (nonlinear_arith)
            requires
                0 <= total,
                1 <= zoom,
        ;
    }
    let reserve: u64 = FULL_LAYOUT_FIXED_RESERVE * UNIT;
    if inner > reserve + UNIT {
        inner - reserve
    } else {
        UNIT
    }
}

/// What wrapping adds to the settings and to the toolbar, in points.
fn measure_wrapping(d: FullDemand, usable: u64) -> (r: (u32, u32))
    requires
        rows_are_bounded(d.rows),
        usable == usable_width(d),
        usable <= 0x400_0000_0000,
    ensures
        r.0 == settings_wrap_extra(d),
        r.1 == toolbar_wrap_extra(d),
        r.0 <= 384,
        r.1 <= 88,
{
    let settings: u64 = row_extra(d.rows.display, usable) + row_extra(d.rows.aspect, usable) + row_extra(
        d.rows.crop,
        usable,
    ) + row_extra(d.rows.cadence, usable) + row_extra(d.rows.options, usable) + row_extra(d.rows.cursor, usable);
    proof {
        wrapping_is_bounded(d.rows.toolbar as int, usable as int);
    }
    let toolbar: u64 = full_wrapped_row_extra(d.rows.toolbar, usable, 44);
    (settings as u32, toolbar as u32)
}

/// Measures the full layout.
pub fn measure_full(d: FullDemand) -> (target: FullTarget)
    requires
        rows_are_bounded(d.rows),
        0 < d.zoom,
    ensures
        target.width == full_width(d),
        target.height == full_height(d),
        target.min_width == lesser(FULL_MIN_WIDTH * UNIT, max_width(d.room)),
        target.min_height == lesser(FULL_MIN_HEIGHT * UNIT, max_height(d.room)),
        target.settings_extra == settings_wrap_extra(d),
        target.key == layout_key(full_width(d) as u32, max_height(d.room) as u32, full_height(d) as u32),
{
    let width: u32 = measure_width(d);
    let usable: u64 = measure_usable(d, width);
    let (settings_extra, toolbar_extra): (u32, u32) = measure_wrapping(d, usable);
    let room_w: u32 = cap(d.room.monitor_w, d.room.work_w);
    let room_h: u32 = cap(d.room.monitor_h, d.room.work_h);
    let min_width: u32 = if room_w < 880 * 1024 {
        room_w
    } else {
        880 * 1024
    };
    let min_height: u32 = if room_h < 700 * 1024 {
        room_h
    } else {
        700 * 1024
    };
    let content: u64 = FULL_HEADER_HEIGHT + settings_extra as u64 + toolbar_extra as u64 + full_chain_height(
        d.filter_count,
        d.stats_on,
    ) + full_settings_height(d.stats_on, d.stats_rows);
    proof {
        assert(content == content_height(d));
    }
    let wanted: u64 = content * UNIT;
    let mut height: u32 = min_height;
    if wanted > height as u64 {
        height = if wanted > room_h as u64 {
            room_h
        } else {
            wanted as u32
        };
    }
    proof {
        assert(height == full_height(d));
    }
    FullTarget {
        width,
        height,
        min_width,
        min_height,
        settings_extra,
        key: full_layout_key(width, room_h, height),
    }
}

/// The full layout never leaves the screen, and is never smaller than its least size where the
/// screen has room for that.
pub proof fn the_full_layout_stays_on_the_screen(d: FullDemand)
    ensures
        full_width(d) <= max_width(d.room),
        full_height(d) <= max_height(d.room),
        full_width(d) >= lesser(FULL_MIN_WIDTH * UNIT, max_width(d.room)),
        full_height(d) >= lesser(FULL_MIN_HEIGHT * UNIT, max_height(d.room)),
{
}

/// The height of the two parts of the full layout, in points, given the height that there is:
/// the settings stay usable on a short screen.
pub fn full_split(available: u32, filter_count: u32, stats_on: bool, stats_rows: u32, settings_extra: u32) -> (r: (
    u64,
    u64,
))
    ensures
        r.0 == lesser(
            chain_height(filter_count as nat, stats_on),
            greater(available - 240, 150),
        ),
        r.1 == lesser(
            settings_height(stats_on, stats_rows as nat) + settings_extra,
            greater(available - r.0, 240),
        ),
{
    let chain_wanted: u64 = full_chain_height(filter_count, stats_on);
    let chain_room: u64 = if available > 390 {
        available as u64 - 240
    } else {
        150
    };
    let chain: u64 = if chain_wanted < chain_room {
        chain_wanted
    } else {
        chain_room
    };
    let settings_wanted: u64 = full_settings_height(stats_on, stats_rows) + settings_extra as u64;
    let settings_room: u64 = if available as u64 > chain + 240 {
        available as u64 - chain
    } else {
        240
    };
    let settings: u64 = if settings_wanted < settings_room {
        settings_wanted
    } else {
        settings_room
    };
    (chain, settings)
}

// ---------------------------------------------------------------------------------------
// The sizes of the small layouts

/// The width of a small layout in zoomed units: what its texts and fixed parts take, within the
/// monitor, and not less than it has where it may not shrink.
pub open spec fn small_width(
    texts: int,
    fixed: int,
    least: int,
    zoom: int,
    monitor: int,
    current: Option<u32>,
    allow_shrink: bool,
) -> int {
    let wanted = lesser(
        greater(texts * zoom / UNIT as int + fixed * UNIT, least * UNIT),
        greater(monitor - 32 * UNIT, least * UNIT),
    );
    match current {
        Some(now) if !allow_shrink => greater(wanted, now as int),
        _ => wanted,
    }
}

fn measure_small(
    texts: u64,
    fixed: u64,
    least: u64,
    zoom: u32,
    monitor: u32,
    current: Option<u32>,
    allow_shrink: bool,
) -> (w: u64)
    requires
        texts <= 0x4_0000_0000,
        fixed <= 1000,
        least <= 1000,
    ensures
        w == small_width(
            texts as int,
            fixed as int,
            least as int,
            zoom as int,
            monitor as int,
            current,
            allow_shrink,
        ),
{
    proof {
        let z: int = zoom as int;
        assert(0 <= texts * z <= 0x4_0000_0000 * 0xffff_ffff) by (nonlinear_arith)
            requires
                0 <= texts <= 0x4_0000_0000,
                0 <= z <= 0xffff_ffff,
        ;
    }
    let scaled: u128 = texts as u128 * zoom as u128 / 1024;
    let natural: u64 = scaled as u64 + fixed * UNIT;
    let floor: u64 = least * UNIT;
    let wide: u64 = if natural > floor {
        natural
    } else {
        floor
    };
    let room: u64 = if monitor as u64 > floor + 32 * UNIT {
        monitor as u64 - 32 * UNIT
    } else {
        floor
    };
    let wanted: u64 = if wide < room {
        wide
    } else {
        room
    };
    match current {
        Some(now) => if !allow_shrink && now as u64 > wanted {
            now as u64
        } else {
            wanted
        },
        None => wanted,
    }
}

/// The width of the smallest layout: the wider of the two button texts and the label.
pub fn mini_width(
    start: u32,
    running: u32,
    capture: u32,
    zoom: u32,
    monitor: u32,
    current: Option<u32>,
    allow_shrink: bool,
) -> (w: u64)
    ensures
        w == small_width(
            greater(start as int, running as int) + capture,
            650,
            MINI_DEFAULT_WIDTH as int,
            zoom as int,
            monitor as int,
            current,
            allow_shrink,
        ),
{
    let button: u64 = if start > running {
        start as u64
    } else {
        running as u64
    };
    measure_small(button + capture as u64, 650, MINI_DEFAULT_WIDTH, zoom, monitor, current, allow_shrink)
}

/// The width of the basic layout: its four labels.
pub fn basic_width(
    labels: [u32; 4],
    zoom: u32,
    monitor: u32,
    current: Option<u32>,
    allow_shrink: bool,
) -> (w: u64)
    ensures
        w == small_width(
            labels[0] + labels[1] + labels[2] + labels[3],
            490,
            BASIC_DEFAULT_WIDTH as int,
            zoom as int,
            monitor as int,
            current,
            allow_shrink,
        ),
{
    let texts: u64 = labels[0] as u64 + labels[1] as u64 + labels[2] as u64 + labels[3] as u64;
    measure_small(texts, 490, BASIC_DEFAULT_WIDTH, zoom, monitor, current, allow_shrink)
}

/// The height of the basic layout, in points.
pub fn basic_height(stats_on: bool, rows: u32) -> (h: u64)
    ensures
        h == (if stats_on {
            438 + 22 * rows
        } else {
            BASIC_DEFAULT_HEIGHT as int
        }),
{
    if stats_on {
        basic_stats_height(rows)
    } else {
        BASIC_DEFAULT_HEIGHT
    }
}

/// The size of the basic layout, in zoomed units, when its statistics change: it grows as
/// needed and never shrinks by itself.
pub fn basic_size_for_stats(width: Option<u32>, height: Option<u32>, stats_on: bool, rows: u32) -> (r: (u64, u64))
    ensures
        r.0 == (match width {
            Some(w) => greater(w as int, BASIC_MIN_WIDTH * UNIT),
            None => BASIC_DEFAULT_WIDTH * UNIT,
        }),
        ({
            let needed = if stats_on {
                (438 + 22 * rows) * UNIT
            } else {
                BASIC_DEFAULT_HEIGHT * UNIT
            };
            r.1 == (match height {
                Some(h) => greater(needed, h as int),
                None => needed,
            })
        }),
{
    let least: u64 = BASIC_MIN_WIDTH * UNIT;
    let w: u64 = match width {
        Some(w) => if w as u64 > least {
            w as u64
        } else {
            least
        },
        None => BASIC_DEFAULT_WIDTH * UNIT,
    };
    let needed: u64 = basic_height(stats_on, rows) * UNIT;
    let h: u64 = match height {
        Some(h) => if h as u64 > needed {
            h as u64
        } else {
            needed
        },
        None => needed,
    };
    (w, h)
}

/// Whether a size has to be asked for again: the measured width, in whole points, is new.
pub fn width_changed(applied: Option<u64>, width: u64) -> (r: (u64, bool))
    requires
        width + UNIT <= u64::MAX,
    ensures
        r.0 == rounded(width as int),
        r.1 == (applied != Some(r.0)),
{
    let key: u64 = (width + UNIT / 2) / UNIT;
    (key, applied != Some(key))
}

/// A layout that may not shrink never does, unless the window is gone.
pub proof fn a_kept_width_never_shrinks(texts: int, fixed: int, least: int, zoom: int, monitor: int, now: u32)
    ensures
        small_width(texts, fixed, least, zoom, monitor, Some(now), false) >= now,
{
}

/// The sizes of the layouts that are kept for the next start, in units.
#[derive(Clone, Copy, Debug, PartialEq, Eq)]
pub struct SavedSizes {
    pub mini: Option<(u64, u64)>,
    pub basic: Option<(u64, u64)>,
    pub full: Option<(u64, u64)>,
}

pub open spec fn remembered(sizes: SavedSizes, mode: UiMode, size: (u64, u64), maximized: bool) -> SavedSizes {
    if maximized {
        sizes
    } else {
        match mode {
            UiMode::Mini => SavedSizes { mini: Some(size), ..sizes },
            UiMode::Basic => SavedSizes { basic: Some(size), ..sizes },
            UiMode::Full => SavedSizes { full: Some(size), ..sizes },
        }
    }
}

pub open spec fn remembered_size(sizes: SavedSizes, mode: UiMode) -> Option<(u64, u64)> {
    match mode {
        UiMode::Mini => sizes.mini,
        UiMode::Basic => sizes.basic,
        UiMode::Full => sizes.full,
    }
}

impl SavedSizes {
    /// Keeps the size of the layout that is shown; a maximized window has no size of its own.
    pub fn remember(&mut self, mode: UiMode, size: (u64, u64), maximized: bool)
        ensures
            *final(self) == remembered(*old(self), mode, size, maximized),
    {
        if maximized {
            return;
        }
        match mode {
            UiMode::Mini => {
                self.mini = Some(size);
            },
            UiMode::Basic => {
                self.basic = Some(size);
            },
            UiMode::Full => {
                self.full = Some(size);
            },
        }
    }

    /// The size that a layout had.
    pub fn of(&self, mode: UiMode) -> (size: Option<(u64, u64)>)
        ensures
            size == remembered_size(*self, mode),
    {
        match mode {
            UiMode::Mini => self.mini,
            UiMode::Basic => self.basic,
            UiMode::Full => self.full,
        }
    }
}

/// The place of the window that is kept for the next start, in units: where it is now, as far as
/// that is known; a maximized window has no place of its own.
pub fn remembered_position(kept: Option<(i64, i64)>, outer: Option<(i64, i64)>, maximized: bool) -> (r: Option<(i64, i64)>)
    ensures
        r == (if maximized || outer is None {
            kept
        } else {
            outer
        }),
{
    if maximized || outer.is_none() {
        kept
    } else {
        outer
    }
}

/// What each layout was last sized for; nothing where it has to be sized again.
#[derive(Clone, Copy, Debug, PartialEq, Eq, Structural)]
pub struct SizedFor {
    pub mini_width: Option<u64>,
    pub basic_width: Option<u64>,
    pub basic_stats: Option<bool>,
    pub basic_rows: Option<u32>,
    pub full_key: Option<i32>,
}

/// Before a change to a layout its own size is measured again; the others keep theirs, as the
/// layout on the screen is drawn until the change. What the statistics of the basic layout need
/// is part of that size.
pub open spec fn sized_again(sized: SizedFor, mode: UiMode, stats_on: bool, rows: u32) -> SizedFor {
    match mode {
        UiMode::Mini => SizedFor { mini_width: None, ..sized },
        UiMode::Basic => SizedFor {
            basic_width: None,
            basic_stats: Some(stats_on),
            basic_rows: Some(rows),
            ..sized
        },
        UiMode::Full => SizedFor { full_key: None, ..sized },
    }
}

impl SizedFor {
    pub fn size_again(&mut self, mode: UiMode, stats_on: bool, rows: u32)
        ensures
            *final(self) == sized_again(*old(self), mode, stats_on, rows),
    {
        match mode {
            UiMode::Mini => {
                self.mini_width = None;
            },
            UiMode::Basic => {
                self.basic_width = None;
                self.basic_stats = Some(stats_on);
                self.basic_rows = Some(rows);
            },
            UiMode::Full => {
                self.full_key = None;
            },
        }
    }
}

// ---------------------------------------------------------------------------------------
// What measuring is for

/// The chain has room for its filters: without statistics for all of them and one more, with them
/// for two or three.
pub proof fn the_chain_has_room_for_its_filters(n: nat)
    ensures
        chain_height(n, false) == 58 + 56 * (n + 1),
        n <= 2 ==> chain_height(n, true) == 58 + 56 * 2,
        n >= 3 ==> chain_height(n, true) == 58 + 56 * 3,
{
}

/// The settings have their height, and the statistics theirs only where they are shown, a line for
/// each row.
pub proof fn statistics_take_room_only_when_shown(rows: nat)
    ensures
        settings_height(false, rows) == 458,
        settings_height(true, rows) == 458 + 122 + 18 * rows,
{
}

/// A row has as many lines as it takes to hold it, three at the most; it wraps only where it is
/// wider, by more than half a point, than what there is.
pub proof fn a_row_has_the_lines_that_it_takes(row: int, usable: int)
    requires
        usable >= 1024,
        row >= 0,
    ensures
        wrapped_lines(row, usable) == 1 <==> row <= usable + 512,
        wrapped_lines(row, usable) < 3 ==> row <= wrapped_lines(row, usable) * usable + 512,
        wrapped_lines(row, usable) > 1 ==> row > (wrapped_lines(row, usable) - 1) * usable,
        wrapped_lines(row, 0) == wrapped_lines(row, 1024),
{
    if row > usable + 512 {
        let n = (row + usable - 1) / usable;
        assert(n >= 2 && (n - 1) * usable < row && row <= n * usable) by (nonlinear_arith)
            requires
                n == (row + usable - 1) / usable,
                usable >= 1024,
                row > usable + 512,
        ;
        if n > 3 {
            assert(row > 2 * usable) by (nonlinear_arith)
                requires
                    (n - 1) * usable < row,
                    n > 3,
                    usable >= 1024,
            ;
        }
    }
}

/// A button is as wide as its text and the padding on both sides, no wider than its limit and no
/// narrower than what can be hit; a box has its icon beside the text; a label is its text; and each
/// text has its limit.
pub proof fn controls_are_as_wide_as_their_texts(text: u32, s: Spacing)
    ensures
        button_width(text, s) >= s.interact_width,
        text + 2 * s.button_padding <= 176 * 1024 && text + 2 * s.button_padding
            >= s.interact_width ==> button_width(text, s) == text + 2 * s.button_padding,
        text + 2 * s.button_padding > 176 * 1024 && 176 * 1024
            >= s.interact_width ==> button_width(text, s) == 176 * 1024,
        text <= 210 * 1024 ==> checkbox_width(text, s) == s.icon_width + s.icon_spacing
            + text,
        text > 210 * 1024 ==> checkbox_width(text, s) == s.icon_width + s.icon_spacing
            + 210 * 1024,
        text <= 220 * 1024 ==> label_width(text) == text,
        text > 220 * 1024 ==> label_width(text) == 220 * 1024,
{
}

/// Every control of a row counts in its width: the row is the sum of its controls, of the fixed parts
/// between them, and of a gap for each.
pub proof fn a_row_is_the_sum_of_its_controls(t: FullTexts, s: Spacing)
    ensures
        aspect_row(t, s) - checkbox_width(t.aspect, s) - label_width(t.aspect_mode) - label_width(t.aspect_width)
            - label_width(t.aspect_height) - 7 * s.item_gap == 244 * 1024,
        crop_row(t, s) - checkbox_width(t.crop, s) - label_width(t.crop_left) - label_width(t.crop_top) - label_width(
            t.crop_right,
        ) - label_width(t.crop_bottom) - 9 * s.item_gap == 224 * 1024,
        t.tensorrt is None ==> cadence_row(t, s) - checkbox_width(t.fps_cap, s) - checkbox_width(
            t.duplicate_reduction,
            s,
        ) - checkbox_width(t.smooth_pacing, s) - checkbox_width(t.vsync, s) - 5 * s.item_gap == 64 * 1024,
        t.tensorrt matches Some(text) ==> cadence_row(t, s) == cadence_row(FullTexts { tensorrt: None, ..t }, s)
            + checkbox_width(text, s) + s.item_gap,
        t.gpu is None ==> options_row(t, s) - checkbox_width(t.stats, s) - checkbox_width(t.keep_on_top, s)
            - checkbox_width(t.show_panel, s) - checkbox_width(t.client_only, s) - checkbox_width(t.save_log, s) - 8
            * s.item_gap == 44 * 1024,
        t.gpu matches Some(text) ==> options_row(t, s) == options_row(FullTexts { gpu: None, ..t }, s) + label_width(text)
            + 204 * 1024 + 3 * s.item_gap,
        cursor_row(t, s) - checkbox_width(t.autohide, s) - checkbox_width(t.cursor_speed, s) - checkbox_width(
            t.restart_as_admin,
            s,
        ) - 4 * s.item_gap == 106 * 1024,
        toolbar_row(t, s) - button_width(t.save, s) - button_width(t.save_as, s) - button_width(t.new_preset, s)
            - button_width(t.delete, s) - start_button_width(t) - preset_width(t, s) - 7 * s.item_gap == 14 * 1024,
        display_row(t, s) - label_width(t.display) - button_width(t.fullscreen, s) - button_width(t.windowed, s)
            - t.cross - label_width(t.resize) - label_width(t.capture_size) - clamp(
            t.widest_resolution + 22 * 1024,
            96int * 1024,
            156int * 1024,
        ) - 13 * s.item_gap == 250 * 1024,
{
}

/// The main button is as wide as the longer of its two words needs, within its range, and the list of
/// presets as its longest name, in whole points within its own.
pub proof fn the_toolbar_fits_its_words(t: FullTexts, s: Spacing)
    ensures
        150 * 1024 <= start_button_width(t) <= 220 * 1024,
        t.start + 53 * 1024 <= 220 * 1024 ==> start_button_width(t) >= t.start + 53 * 1024,
        t.running + 53 * 1024 <= 220 * 1024 ==> start_button_width(t) >= t.running + 53 * 1024,
        190 * 1024 <= preset_width(t, s) <= 420 * 1024,
        preset_width(t, s) % 1024 == 0,
        t.widest_preset + 2 * s.button_padding + 18 * 1024 <= 420 * 1024 ==> preset_width(t, s) >= t.widest_preset + 2
            * s.button_padding + 18 * 1024,
        190 * 1024 < t.widest_preset + 2 * s.button_padding + 18 * 1024 <= 420 * 1024 ==> preset_width(t, s)
            < t.widest_preset + 2 * s.button_padding + 19 * 1024,
{
}

/// The widest row decides: every row fits into the width that is required, and one of them fills it.
pub proof fn the_widest_row_decides(rows: FullRows)
    ensures
        ({
            let w = required_row_width(rows);
            &&& w >= rows.display && w >= rows.aspect && w >= rows.crop && w >= rows.cadence && w >= rows.options && w
                >= rows.cursor && w >= rows.toolbar
            &&& w == rows.display || w == rows.aspect || w == rows.crop || w == rows.cadence || w == rows.options || w
                == rows.cursor || w == rows.toolbar
        }),
{
}

/// The window keeps sixteen points of the monitor free, has three hundred and twenty in any case, and
/// no more than the part of the screen that windows may use.
pub proof fn the_room_is_that_of_the_screen(room: ScreenRoom)
    ensures
        room.monitor_w >= 336 * 1024 && room.work_w is None ==> max_width(room) == room.monitor_w - 16 * 1024,
        room.monitor_w < 336 * 1024 && room.work_w is None ==> max_width(room) == 320 * 1024,
        room.work_w matches Some(work) ==> max_width(room) <= work && max_width(room) <= max_width(
            ScreenRoom { work_w: None, ..room },
        ) && (max_width(room) == work || max_width(room) == max_width(ScreenRoom { work_w: None, ..room })),
        room.monitor_h >= 336 * 1024 && room.work_h is None ==> max_height(room) == room.monitor_h - 16 * 1024,
        room.monitor_h < 336 * 1024 && room.work_h is None ==> max_height(room) == 320 * 1024,
        room.work_h matches Some(work) ==> max_height(room) <= work && max_height(room) <= max_height(
            ScreenRoom { work_h: None, ..room },
        ) && (max_height(room) == work || max_height(room) == max_height(ScreenRoom { work_h: None, ..room })),
{
}

/// The width is what the widest row needs with the reserve, zoomed; at least the usual width, and
/// never more than there is room for.
pub proof fn the_width_is_what_the_rows_need(d: FullDemand)
    ensures
        ({
            let needed = (required_row_width(d.rows) + 76 * 1024) * d.zoom / 1024;
            let room = max_width(d.room);
            &&& full_width(d) <= room
            &&& needed <= room && needed >= 900 * 1024 ==> full_width(d) == needed
            &&& needed > room ==> full_width(d) == room
            &&& needed < 900 * 1024 && room >= 900 * 1024 ==> full_width(d) == 900 * 1024
        }),
{
}

/// The height is that of the head, the chain and the settings, with what wrapping adds to each, as far
/// as there is room; and the rows that wrap are counted, each for its own lines.
pub proof fn the_height_is_that_of_its_parts(d: FullDemand)
    ensures
        content_height(d) == 166 + settings_wrap_extra(d) + toolbar_wrap_extra(d) + chain_height(
            d.filter_count as nat,
            d.stats_on,
        ) + settings_height(d.stats_on, d.stats_rows as nat),
        full_height(d) <= max_height(d.room),
        content_height(d) * 1024 <= max_height(d.room) && content_height(d) * 1024 >= 700 * 1024
            ==> full_height(d) == content_height(d) * 1024,
        content_height(d) * 1024 > max_height(d.room) ==> full_height(d) == max_height(d.room),
        ({
            let u = usable_width(d);
            &&& d.rows.display <= u && d.rows.aspect <= u && d.rows.crop <= u && d.rows.cadence <= u && d.rows.options
                <= u && d.rows.cursor <= u ==> settings_wrap_extra(d) == 0
            &&& d.rows.toolbar <= u ==> toolbar_wrap_extra(d) == 0
            &&& d.rows.toolbar > u + 512 ==> toolbar_wrap_extra(d) >= 44
            &&& d.rows.display > u + 512 ==> settings_wrap_extra(d) >= 32
            &&& d.rows.aspect > u + 512 ==> settings_wrap_extra(d) >= 32
            &&& d.rows.crop > u + 512 ==> settings_wrap_extra(d) >= 32
            &&& d.rows.cadence > u + 512 ==> settings_wrap_extra(d) >= 32
            &&& d.rows.options > u + 512 ==> settings_wrap_extra(d) >= 32
            &&& d.rows.cursor > u + 512 ==> settings_wrap_extra(d) >= 32
        }),
{
    let u = usable_width(d);
    assert(u >= 1024);
    a_row_has_the_lines_that_it_takes(d.rows.display as int, u);
    a_row_has_the_lines_that_it_takes(d.rows.aspect as int, u);
    a_row_has_the_lines_that_it_takes(d.rows.crop as int, u);
    a_row_has_the_lines_that_it_takes(d.rows.cadence as int, u);
    a_row_has_the_lines_that_it_takes(d.rows.options as int, u);
    a_row_has_the_lines_that_it_takes(d.rows.cursor as int, u);
    a_row_has_the_lines_that_it_takes(d.rows.toolbar as int, u);
    wrapping_is_bounded(d.rows.display as int, u);
    wrapping_is_bounded(d.rows.aspect as int, u);
    wrapping_is_bounded(d.rows.crop as int, u);
    wrapping_is_bounded(d.rows.cadence as int, u);
    wrapping_is_bounded(d.rows.options as int, u);
    wrapping_is_bounded(d.rows.cursor as int, u);
    wrapping_is_bounded(d.rows.toolbar as int, u);
}

/// A length is rounded to the nearest point.
pub proof fn lengths_are_rounded_to_points(units: int)
    requires
        units >= 0,
    ensures
        -512 <= rounded(units) * 1024 - units <= 512,
        units % 1024 == 0 ==> rounded(units) * 1024 == units,
{
}

/// The smaller layouts are as wide as their texts, zoomed, and their fixed parts, within the least
/// width and the screen; where they may not shrink they keep what they have.
pub proof fn the_smaller_layouts_fit_their_texts(
    texts: int,
    fixed: int,
    least: int,
    zoom: int,
    monitor: int,
    current: Option<u32>,
    allow_shrink: bool,
)
    ensures
        ({
            let w = small_width(texts, fixed, least, zoom, monitor, current, allow_shrink);
            let needed = texts * zoom / 1024 + fixed * 1024;
            &&& w >= least * 1024
            &&& current is None || allow_shrink ==> {
                &&& least * 1024 <= needed <= monitor - 32 * 1024 ==> w == needed
                &&& needed < least * 1024 ==> w == least * 1024
                &&& needed > monitor - 32 * 1024 && monitor - 32 * 1024 >= least * 1024 ==> w == monitor - 32 * 1024
            }
            &&& current matches Some(now) ==> (!allow_shrink ==> w == greater(
                now as int,
                small_width(texts, fixed, least, zoom, monitor, None, true),
            ))
        }),
{
}

/// Before a change to a layout that layout alone is measured again.
pub proof fn only_the_new_layout_is_measured_again(sized: SizedFor, stats_on: bool, rows: u32)
    ensures
        ({
            let mini = sized_again(sized, UiMode::Mini, stats_on, rows);
            let basic = sized_again(sized, UiMode::Basic, stats_on, rows);
            let full = sized_again(sized, UiMode::Full, stats_on, rows);
            &&& mini.mini_width is None && mini.basic_width == sized.basic_width && mini.basic_stats == sized.basic_stats
                && mini.basic_rows == sized.basic_rows && mini.full_key == sized.full_key
            &&& basic.basic_width is None && basic.basic_stats == Some(stats_on) && basic.basic_rows == Some(rows)
                && basic.mini_width == sized.mini_width && basic.full_key == sized.full_key
            &&& full.full_key is None && full.mini_width == sized.mini_width && full.basic_width == sized.basic_width
                && full.basic_stats == sized.basic_stats && full.basic_rows == sized.basic_rows
        }),
{
}

/// The switch has three segments of one width: the smallest layout on the left, the largest on the
/// right.
pub proof fn the_switch_has_three_segments(offset: int, segment: int)
    requires
        0 < segment,
    ensures
        0 <= offset < segment ==> mode_under(offset, segment) == UiMode::Mini,
        segment <= offset < 2 * segment ==> mode_under(offset, segment) == UiMode::Basic,
        2 * segment <= offset < 3 * segment ==> mode_under(offset, segment) == UiMode::Full,
        offset < 0 ==> mode_under(offset, segment) == UiMode::Mini,
        offset >= 3 * segment ==> mode_under(offset, segment) == UiMode::Full,
{
}

/// No layout opens smaller than it may become, and each has its own size.
pub proof fn layouts_open_at_a_size_that_they_allow(mode: UiMode)
    ensures
        sizes_of(mode).0.0 >= sizes_of(mode).1.0,
        sizes_of(mode).0.1 >= sizes_of(mode).1.1,
        mode == UiMode::Mini ==> sizes_of(mode) == ((760u64, 105u64), (760u64, 101u64)),
        mode == UiMode::Basic ==> sizes_of(mode) == ((720u64, 390u64), (720u64, 350u64)),
        mode == UiMode::Full ==> sizes_of(mode) == ((900u64, 840u64), (880u64, 700u64)),
        is_sane_size(mode, ((sizes_of(mode).0.0 * 1024) as u64, (sizes_of(mode).0.1 * 1024) as u64)),
{
}

/// The size of a layout comes back as it was kept, whatever is kept of the others in between; the
/// small layouts come back with their own height. A maximized window keeps nothing.
pub proof fn a_size_comes_back_to_its_layout(sizes: SavedSizes, mode: UiMode, size: (u64, u64), other: UiMode)
    ensures
        ({
            let kept = remembered(sizes, mode, size, false);
            &&& remembered_size(kept, mode) == Some(size)
            &&& other != mode ==> remembered_size(kept, other) == remembered_size(sizes, other)
        }),
        remembered_size(remembered(sizes, mode, size, true), other) == remembered_size(sizes, other),
        restored(mode, None) is None,
        restored(mode, Some(size)) matches Some(r) && {
            &&& mode == UiMode::Full ==> r == size
            &&& mode == UiMode::Mini ==> r.0 == size.0 && r.1 == 105 * 1024
            &&& mode == UiMode::Basic ==> r.1 == 390 * 1024 && 720 * 1024 <= r.0 <= 870 * 1024 && (720 * 1024 <= size.0
                <= 870 * 1024 ==> r.0 == size.0)
        },
{
}

/// A size is taken over from the settings from the least size of its layout up to four thousand
/// points; a place where enough of the window can be seen.
pub proof fn sane_sizes_and_places_are_taken(mode: UiMode, size: (u64, u64), x: int, y: int)
    ensures
        is_sane_size(mode, size) ==> size.0 <= 4000 * 1024 && size.1 <= 4000 * 1024,
        880 * 1024 <= size.0 <= 4000 * 1024 && 700 * 1024 <= size.1 <= 4000 * 1024 ==> is_sane_size(mode, size),
        is_sane_size(mode, size) ==> size.0 >= sizes_of(mode).1.0 * 1024 && size.1 >= sizes_of(mode).1.1 * 1024,
        is_sane_position(x, y) <==> -200 * 1024 <= x && x <= 8000 * 1024 && -50 * 1024 <= y && y <= 8000 * 1024,
{
}

} // verus!
