//! Window actions, as ordered lists of plain values. The decisions of this library say what is
//! to be done to which window and in which order; the caller does it.
use vstd::prelude::*;

verus! {

/// A size in physical pixels.
#[derive(Clone, Copy, Debug, PartialEq, Eq, Structural)]
pub struct Size {
    pub w: i32,
    pub h: i32,
}

/// A rectangle in physical pixels.
#[derive(Clone, Copy, Debug, PartialEq, Eq, Structural)]
pub struct Rect {
    pub x: i32,
    pub y: i32,
    pub w: i32,
    pub h: i32,
}

/// A point in physical pixels.
#[derive(Clone, Copy, Debug, PartialEq, Eq, Structural)]
pub struct Point {
    pub x: i32,
    pub y: i32,
}

pub open spec fn contains_point(rect: Rect, p: Point) -> bool {
    rect.x <= p.x < rect.x + rect.w && rect.y <= p.y < rect.y + rect.h
}

/// Whether the point lies in the rectangle; the right and the lower edge do not belong to it.
pub fn rect_contains(rect: Rect, p: Point) -> (r: bool)
    ensures
        r == contains_point(rect, p),
{
    let right: i64 = rect.x as i64 + rect.w as i64;
    let bottom: i64 = rect.y as i64 + rect.h as i64;
    p.x >= rect.x && (p.x as i64) < right && p.y >= rect.y && (p.y as i64) < bottom
}

/// What is known of a window of this process, or of what was one.
#[derive(Clone, Copy, Debug, PartialEq, Eq, Structural)]
pub struct WindowFacts {
    /// The handle; zero stands for no window.
    pub handle: isize,
    pub valid: bool,
    pub own: bool,
    pub visible: bool,
}

/// The handle names a window of this process.
pub open spec fn is_live(w: WindowFacts) -> bool {
    w.handle != 0 && w.valid && w.own
}

pub fn live(w: WindowFacts) -> (r: bool)
    ensures
        r == is_live(w),
{
    w.handle != 0 && w.valid && w.own
}

/// One thing to be done.
#[derive(Clone, Copy, Debug, PartialEq, Eq, Structural)]
pub enum Action {
    SetTopmost { window: isize, on: bool },
    Raise { window: isize },
    SetCloaked { window: isize, on: bool },
    SetAlpha { window: isize, alpha: u8 },
    SetOpaque { window: isize },
    SetPassthrough { window: isize, on: bool },
    SetVisible { window: isize, on: bool },
    SetRect { window: isize, rect: Rect },
    /// Put the window directly below the other.
    PlaceBelow { window: isize, above: isize },
    Activate { window: isize },
    /// Put the overlay into the topmost band again, below its helpers.
    RecommitOverlay { panel: isize, overlay: isize },
    /// Put the windows of this process into their order.
    NormalizeStack { gui: isize, gui_topmost: bool, panel: isize, overlay: isize },
    KeepCursorOnTop,
    /// Wait for the compositor.
    SyncComposition,
    /// Show or hide the native host of the panel.
    SetPanelHostVisible { panel: isize, on: bool },
    SetPanelOwner { panel: isize, overlay: isize, on: bool },
    HidePanelMirror,
    UpdatePanelMirror { panel: isize, size: Size, visible: bool, chip: bool, slot: u8, feedback: bool },
    RepublishPanelMirror { panel: isize },
    /// Keep the bar's geometry until the renderer has seen that the chip is gone.
    BeginRestoreGuard,
    SendPanelState { visible: bool, chip: bool },
    SendPanelLayout { panel: isize, bar_size: Size, chip_size: Size },
    SendPanelMetrics { on: bool },
    SendNoEngage { zone: Option<Rect> },
    SendGuiPriority { gui: isize, topmost: bool },
    ReleaseInput,
    SendMousePassthrough { on: bool },
    RequestStop,
    SaveScreenshot,
    ToggleGuiTopmost,
    SaveSettings,
    Repaint,
    RepaintAfterMs { ms: u64 },
}

/// The action, where the condition holds.
pub open spec fn provided(condition: bool, action: Action) -> Seq<Action> {
    if condition {
        seq![action]
    } else {
        Seq::empty()
    }
}

/// Appends the action where the condition holds.
pub fn push_if(out: &mut Vec<Action>, condition: bool, action: Action)
    ensures
        final(out)@ == old(out)@ + provided(condition, action),
{
    if condition {
        out.push(action);
    }
    proof {
        assert(out@ =~= old(out)@ + provided(condition, action));
    }
}

/// An action of the list comes before another one.
pub open spec fn precedes(actions: Seq<Action>, first: Action, second: Action) -> bool {
    forall|j: int|
        0 <= j < actions.len() && actions[j] == second ==> exists|i: int|
            0 <= i < j && actions[i] == first
}

/// An action that is appended under a condition is in the list exactly where the condition holds,
/// behind everything else; nothing else of the list changes.
pub broadcast proof fn an_appended_action_is_there_when_it_should_be(
    list: Seq<Action>,
    condition: bool,
    action: Action,
    other: Action,
)
    ensures
        #[trigger] (list + provided(condition, action)).contains(other) <==> list.contains(other) || (condition && other
            == action),
{
    let more = list + provided(condition, action);
    if list.contains(other) {
        let i = choose|i: int| 0 <= i < list.len() && list[i] == other;
        assert(more[i] == other);
    }
    if condition {
        assert(more[list.len() as int] == action);
    }
    if more.contains(other) {
        let i = choose|i: int| 0 <= i < more.len() && more[i] == other;
        if i < list.len() {
            assert(list[i] == other);
        }
    }
}

/// No action is in an empty list.
pub broadcast proof fn an_empty_list_has_no_action(other: Action)
    ensures
        !#[trigger] Seq::<Action>::empty().contains(other),
{
}

/// A point lies in a rectangle from its left and upper edge on, up to but not on the right and the
/// lower one; a rectangle without a width or a height holds no point.
pub proof fn a_rectangle_holds_its_points(rect: Rect, p: Point)
    ensures
        contains_point(rect, p) ==> p.x >= rect.x && p.y >= rect.y && p.x - rect.x < rect.w && p.y - rect.y < rect.h,
        p.x >= rect.x && p.y >= rect.y && p.x - rect.x < rect.w && p.y - rect.y < rect.h ==> contains_point(rect, p),
        rect.w <= 0 || rect.h <= 0 ==> !contains_point(rect, p),
{
}

/// A window is one of this process exactly where it has a handle, is there and belongs to it.
pub proof fn a_live_window_is_there_and_own(w: WindowFacts)
    ensures
        is_live(w) <==> w.handle != 0 && w.valid && w.own,
{
}

} // verus!
