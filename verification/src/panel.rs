//! The floating control panel: a bar with buttons that can be collapsed into an invisible area
//! which brings the bar back when the pointer enters it. The panel's own process windows are
//! changed only through the ordered actions that these functions return.
use vstd::prelude::*;
use crate::actions::{Action, Point, Rect, Size, WindowFacts, contains_point, is_live, live, push_if, rect_contains, provided};
use crate::session::{Busy, may_stop, should_dispatch_panel_stop};

verus! {

/// The opacity of the collapsed panel.
pub const PANEL_LURK_ALPHA: u8 = 0;

/// How long the bar stays after the pointer has left it, in nanoseconds.
pub const PANEL_LEAVE_NS: u64 = 350_000_000;

/// How long the screenshot button shows that it was pressed, in nanoseconds.
pub const SCREENSHOT_FEEDBACK_NS: u64 = 900_000_000;

/// Two presses of the panel hotkey that are closer than this are one, in nanoseconds.
pub const PANEL_HOTKEY_DEBOUNCE_NS: u64 = 180_000_000;

/// How far the native host may differ from its size, in pixels.
pub const PANEL_SIZE_TOLERANCE: i32 = 3;

/// What the renderer was told last.
#[derive(Clone, Copy, Debug, PartialEq, Eq, Structural)]
pub struct PanelSent {
    pub visible: bool,
    pub chip: bool,
}

/// The layout that the renderer was told last.
#[derive(Clone, Copy, Debug, PartialEq, Eq, Structural)]
pub struct PanelLayout {
    pub panel: isize,
    pub bar: Size,
    pub chip: Size,
}

/// Which of its two shapes the panel has.
#[derive(Clone, Copy, Debug, PartialEq, Eq, Structural)]
pub struct PanelShape {
    /// The panel was collapsed and was not expanded again.
    pub chip_lurking: bool,
    pub bar_shown: bool,
    /// When the bar goes again.
    pub leave_at: Option<u64>,
}

/// The panel.
#[derive(Clone, Copy, Debug, PartialEq, Eq, Structural)]
pub struct Panel {
    pub hwnd: isize,
    /// The hotkey has not hidden it.
    pub visible: bool,
    pub shape: PanelShape,
    pub hover_expand_armed: bool,
    pub hover_restore_armed: bool,
    pub placed_for_run: bool,
    pub reveal_pending: bool,
    pub state_sent: Option<PanelSent>,
    pub layout_sent: Option<PanelLayout>,
    pub metrics_sent: Option<bool>,
    pub screenshot_feedback_until: Option<u64>,
    pub last_hotkey: Option<u64>,
}

// ---------------------------------------------------------------------------------------
// Shape

/// The panel is collapsed right now.
pub open spec fn lurks(shape: PanelShape) -> bool {
    shape.chip_lurking && !shape.bar_shown
}

pub open spec fn collapsed() -> PanelShape {
    PanelShape { chip_lurking: true, bar_shown: false, leave_at: None }
}

pub open spec fn expanded() -> PanelShape {
    PanelShape { chip_lurking: false, bar_shown: true, leave_at: None }
}

/// The shape after the buttons: expanding wins over collapsing.
pub open spec fn after_action(shape: PanelShape, collapse: bool, expand: bool) -> PanelShape {
    if expand {
        expanded()
    } else if collapse {
        collapsed()
    } else {
        shape
    }
}

/// Applies the two buttons to the shape.
pub fn apply_panel_action_state(
    chip_lurking: &mut bool,
    bar_shown: &mut bool,
    leave_at: &mut Option<u64>,
    collapse: bool,
    expand: bool,
)
    ensures
        (PanelShape { chip_lurking: *final(chip_lurking), bar_shown: *final(bar_shown), leave_at: *final(leave_at) })
            == after_action(
            (PanelShape { chip_lurking: *old(chip_lurking), bar_shown: *old(bar_shown), leave_at: *old(leave_at) }),
            collapse,
            expand,
        ),
{
    if collapse {
        *chip_lurking = true;
        *bar_shown = false;
        *leave_at = None;
    }
    if expand {
        *chip_lurking = false;
        *bar_shown = true;
        *leave_at = None;
    }
}

/// Whether the pointer brings the collapsed panel back in this frame: it is over the panel, it
/// was away once since the panel was collapsed, and the panel was collapsed before the frame.
pub open spec fn restores(panel: Panel, collapse: bool, expand: bool, hovered: bool, lurk_before: bool) -> bool {
    after_action(panel.shape, collapse, expand).chip_lurking && lurk_before && hovered && !collapse
        && panel.hover_restore_armed
}

/// The panel after the buttons and the pointer of one frame. A bar that is shown for the time
/// being goes when the pointer has been away for the delay.
pub open spec fn after_pointer(
    panel: Panel,
    collapse: bool,
    expand: bool,
    hovered: bool,
    lurk_before: bool,
    now: u64,
) -> Panel {
    let acted = after_action(panel.shape, collapse, expand);
    let shape = if !acted.chip_lurking {
        acted
    } else if lurk_before {
        if restores(panel, collapse, expand, hovered, lurk_before) {
            expanded()
        } else {
            acted
        }
    } else if hovered {
        PanelShape { leave_at: None, ..acted }
    } else {
        let due = match acted.leave_at {
            Some(due) => due,
            None => (now + PANEL_LEAVE_NS) as u64,
        };
        if now >= due {
            PanelShape { bar_shown: false, leave_at: None, ..acted }
        } else {
            PanelShape { leave_at: Some(due), ..acted }
        }
    };
    Panel {
        shape,
        hover_expand_armed: !hovered || (!collapse && panel.hover_expand_armed),
        hover_restore_armed: !hovered || (!collapse && panel.hover_restore_armed),
        ..panel
    }
}

impl Panel {
    /// Applies the two buttons.
    pub fn apply_panel_action(&mut self, collapse: bool, expand: bool)
        ensures
            *final(self) == (Panel { shape: after_action(old(self).shape, collapse, expand), ..*old(self) }),
    {
        let mut chip_lurking = self.shape.chip_lurking;
        let mut bar_shown = self.shape.bar_shown;
        let mut leave_at = self.shape.leave_at;
        apply_panel_action_state(&mut chip_lurking, &mut bar_shown, &mut leave_at, collapse, expand);
        self.shape = PanelShape { chip_lurking, bar_shown, leave_at };
    }

    /// Takes the buttons and the pointer of one frame; `true` asks for another frame.
    pub fn on_pointer(&mut self, collapse: bool, expand: bool, hovered: bool, lurk_before: bool, now: u64) -> (repaint:
        bool)
        requires
            now + PANEL_LEAVE_NS <= u64::MAX,
        ensures
            *final(self) == after_pointer(*old(self), collapse, expand, hovered, lurk_before, now),
            repaint == restores(*old(self), collapse, expand, hovered, lurk_before),
    {
        self.apply_panel_action(collapse, expand);
        if collapse {
            self.hover_expand_armed = false;
            self.hover_restore_armed = false;
        }
        if !hovered {
            self.hover_expand_armed = true;
            self.hover_restore_armed = true;
        }
        let mut repaint = false;
        if self.shape.chip_lurking {
            if lurk_before {
                if hovered && self.hover_restore_armed {
                    self.shape = PanelShape { chip_lurking: false, bar_shown: true, leave_at: None };
                    repaint = true;
                }
            } else if hovered {
                self.shape.leave_at = None;
            } else {
                let due: u64 = match self.shape.leave_at {
                    Some(due) => due,
                    None => now + PANEL_LEAVE_NS,
                };
                self.shape.leave_at = Some(due);
                if now >= due {
                    self.shape.bar_shown = false;
                    self.shape.leave_at = None;
                }
            }
        }
        repaint
    }
}

/// The part of the overlay that the panel is placed by: the picture, or the whole overlay
/// while there is none.
pub fn panel_content_rect(content: Rect, overlay: Rect) -> (r: Rect)
    ensures
        r == (if content.w > 0 && content.h > 0 {
            content
        } else {
            overlay
        }),
{
    if content.w > 0 && content.h > 0 {
        content
    } else {
        overlay
    }
}

/// Whether a visible pointer is over the panel: the real one, or the one that is drawn.
pub fn panel_hovered(rect: Option<Rect>, cursor: Point, sprite: Option<Point>) -> (r: bool)
    ensures
        r == (rect matches Some(area) && (contains_point(area, cursor) || (sprite matches Some(p)
            && contains_point(area, p)))),
{
    match rect {
        None => false,
        Some(area) => {
            let drawn = match sprite {
                None => false,
                Some(p) => rect_contains(area, p),
            };
            rect_contains(area, cursor) || drawn
        },
    }
}

/// Where over the panel the pointer is, counted from the left edge. The drawn pointer counts
/// before the real one.
pub open spec fn hover_offset(area: Rect, cursor: Point, sprite: Option<Point>) -> Option<int> {
    match sprite {
        Some(p) if contains_point(area, p) => Some(p.x - area.x),
        _ => if contains_point(area, cursor) {
            Some(cursor.x - area.x)
        } else {
            None
        },
    }
}

pub fn panel_hover_offset(area: Rect, cursor: Point, sprite: Option<Point>) -> (r: Option<i32>)
    ensures
        match r {
            Some(x) => hover_offset(area, cursor, sprite) == Some(x as int),
            None => hover_offset(area, cursor, sprite) is None,
        },
{
    if let Some(p) = sprite {
        if rect_contains(area, p) {
            return Some(p.x - area.x);
        }
    }
    if rect_contains(area, cursor) {
        Some(cursor.x - area.x)
    } else {
        None
    }
}

/// The buttons of the bar.
#[derive(Clone, Copy, Debug, PartialEq, Eq, Structural)]
pub enum PanelButton {
    Stop,
    Screenshot,
    GuiTopmost,
    Collapse,
    Expand,
}

/// The place in the drawing that a hovered button lights up; zero is none.
pub fn mirror_hover_slot(button: Option<PanelButton>) -> (slot: u8)
    ensures
        slot == (match button {
            Some(PanelButton::Stop) => 1u8,
            Some(PanelButton::Screenshot) => 2u8,
            Some(PanelButton::GuiTopmost) => 3u8,
            Some(PanelButton::Collapse) => 4u8,
            Some(PanelButton::Expand) => 0u8,
            None => 0u8,
        }),
{
    match button {
        Some(PanelButton::Stop) => 1,
        Some(PanelButton::Screenshot) => 2,
        Some(PanelButton::GuiTopmost) => 3,
        Some(PanelButton::Collapse) => 4,
        Some(PanelButton::Expand) => 0,
        None => 0,
    }
}

/// The collapse button leaves the panel collapsed while the pointer stays where it clicked, and
/// the pointer brings the bar back once it has been away.
pub proof fn a_collapsed_panel_stays_until_the_pointer_has_left(panel: Panel, now: u64)
    ensures
        ({
            let first = after_pointer(panel, true, false, true, lurks(panel.shape), now);
            &&& first.shape.chip_lurking
            &&& !first.shape.bar_shown
            &&& !first.hover_restore_armed
            &&& lurks(first.shape)
            &&& after_pointer(first, false, false, true, true, now) == first
            &&& after_pointer(
                after_pointer(first, false, false, false, true, now),
                false,
                false,
                true,
                true,
                now,
            ).shape == expanded()
        }),
{
}

/// A bar that is shown for the time being stays while the pointer is over it.
pub proof fn a_hovered_bar_stays(panel: Panel, now: u64)
    requires
        panel.shape.bar_shown,
    ensures
        after_pointer(panel, false, false, true, false, now).shape.bar_shown,
{
}

// ---------------------------------------------------------------------------------------
// One frame

/// What is known of the session in a frame.
#[derive(Clone, Copy, Debug, PartialEq, Eq, Structural)]
pub struct PanelRun {
    pub running: bool,
    pub stopping: bool,
    /// The panel is switched on in the settings.
    pub panel_show: bool,
    pub overlay: isize,
}

/// The panel is wanted on the screen.
pub open spec fn wanted(panel: Panel, run: PanelRun) -> bool {
    run.running && !run.stopping && panel.visible && run.panel_show
}

/// Taking the panel off the screen: it lets the pointer through.
pub open spec fn hide_host(condition: bool, gdi_host: bool, panel: isize) -> Seq<Action> {
    provided(condition, Action::SetAlpha { window: panel, alpha: 0 }) + provided(
        condition,
        Action::SetPassthrough { window: panel, on: true },
    ) + provided(condition && gdi_host, Action::SetPanelHostVisible { panel, on: false })
}

fn push_hide_host(out: &mut Vec<Action>, condition: bool, gdi_host: bool, panel: isize)
    ensures
        final(out)@ == old(out)@ + hide_host(condition, gdi_host, panel),
{
    push_if(out, condition, Action::SetAlpha { window: panel, alpha: 0 });
    push_if(out, condition, Action::SetPassthrough { window: panel, on: true });
    push_if(out, condition && gdi_host, Action::SetPanelHostVisible { panel, on: false });
    proof {
        assert(out@ =~= old(out)@ + hide_host(condition, gdi_host, panel));
    }
}

/// What a frame begins with.
pub struct PanelBegin {
    pub actions: Vec<Action>,
    pub show: bool,
    /// The panel is collapsed at the beginning of the frame.
    pub lurk: bool,
    /// Nothing else is to be done: no capture runs.
    pub done: bool,
}

/// The actions at the beginning of a frame.
pub open spec fn begin_actions(panel: Panel, run: PanelRun, host: WindowFacts, gdi_host: bool) -> Seq<Action> {
    let show = wanted(panel, run);
    let effective = show && panel.placed_for_run;
    let lurk = lurks(panel.shape);
    let changed = panel.state_sent != Some((PanelSent { visible: effective, chip: lurk }));
    let touch = changed && is_live(host);
    let idle_host = !run.running && host.handle != 0 && gdi_host;
    Seq::<Action>::empty() + provided(
        touch && effective,
        Action::SetPassthrough { window: host.handle, on: false },
    ) + provided(
        touch && effective && lurk,
        Action::SetAlpha { window: host.handle, alpha: PANEL_LURK_ALPHA },
    ) + provided(touch && effective && !lurk, Action::SetOpaque { window: host.handle }) + hide_host(
        touch && !effective,
        gdi_host,
        host.handle,
    ) + provided(changed, Action::SendPanelState { visible: effective, chip: lurk }) + provided(
        panel.metrics_sent != Some(show),
        Action::SendPanelMetrics { on: show },
    ) + provided(!run.running, Action::HidePanelMirror) + provided(
        idle_host,
        Action::SetPanelOwner { panel: host.handle, overlay: run.overlay, on: false },
    ) + provided(idle_host, Action::SetPanelHostVisible { panel: host.handle, on: false })
}

impl Panel {
    /// Begins a frame: the native host and the renderer learn what changed since the last one.
    pub fn begin_frame(&mut self, run: PanelRun, host: WindowFacts, gdi_host: bool) -> (begin: PanelBegin)
        requires
            host.handle == old(self).hwnd,
        ensures
            begin.actions@ == begin_actions(*old(self), run, host, gdi_host),
            begin.show == wanted(*old(self), run),
            begin.lurk == lurks(old(self).shape),
            begin.done == !run.running,
            *final(self) == (Panel {
                state_sent: Some(
                    (PanelSent {
                        visible: wanted(*old(self), run) && old(self).placed_for_run,
                        chip: lurks(old(self).shape),
                    }),
                ),
                metrics_sent: Some(wanted(*old(self), run)),
                ..*old(self)
            }),
    {
        let show = run.running && !run.stopping && self.visible && run.panel_show;
        let effective = show && self.placed_for_run;
        let lurk = self.shape.chip_lurking && !self.shape.bar_shown;
        let sent = Some(PanelSent { visible: effective, chip: lurk });
        let changed = self.state_sent != sent;
        let touch = changed && live(host);
        let idle_host = !run.running && host.handle != 0 && gdi_host;
        let mut actions: Vec<Action> = Vec::new();
        push_if(&mut actions, touch && effective, Action::SetPassthrough { window: host.handle, on: false });
        push_if(
            &mut actions,
            touch && effective && lurk,
            Action::SetAlpha { window: host.handle, alpha: PANEL_LURK_ALPHA },
        );
        push_if(&mut actions, touch && effective && !lurk, Action::SetOpaque { window: host.handle });
        push_hide_host(&mut actions, touch && !effective, gdi_host, host.handle);
        push_if(&mut actions, changed, Action::SendPanelState { visible: effective, chip: lurk });
        push_if(&mut actions, self.metrics_sent != Some(show), Action::SendPanelMetrics { on: show });
        push_if(&mut actions, !run.running, Action::HidePanelMirror);
        push_if(
            &mut actions,
            idle_host,
            Action::SetPanelOwner { panel: host.handle, overlay: run.overlay, on: false },
        );
        push_if(&mut actions, idle_host, Action::SetPanelHostVisible { panel: host.handle, on: false });
        self.state_sent = sent;
        self.metrics_sent = Some(show);
        PanelBegin { actions, show, lurk, done: !run.running }
    }

    /// Whether the screenshot button shows that it was pressed.
    pub fn screenshot_feedback(&mut self, pressed: bool, now: u64) -> (shown: bool)
        requires
            now + SCREENSHOT_FEEDBACK_NS <= u64::MAX,
        ensures
            shown == (feedback_until(*old(self), pressed, now) is Some),
            *final(self) == (Panel { screenshot_feedback_until: feedback_until(*old(self), pressed, now), ..*old(self) }),
    {
        if let Some(until) = self.screenshot_feedback_until {
            if now >= until {
                self.screenshot_feedback_until = None;
            }
        }
        if pressed {
            self.screenshot_feedback_until = Some(now + SCREENSHOT_FEEDBACK_NS);
        }
        self.screenshot_feedback_until.is_some()
    }

    /// Forgets a native host that is gone.
    pub fn drop_stale_host(&mut self, host: WindowFacts)
        requires
            host.handle == old(self).hwnd,
        ensures
            *final(self) == (if old(self).hwnd != 0 && !is_live(host) {
                with_host(*old(self), 0)
            } else {
                *old(self)
            }),
    {
        if self.hwnd != 0 && !live(host) {
            self.hwnd = 0;
            self.reveal_pending = false;
            self.state_sent = None;
            self.layout_sent = None;
        }
    }

    /// Takes a new native host where there is none; `true` if it was taken. One that replaces a
    /// host that is gone gets its place with the next placing.
    pub fn adopt_host(&mut self, created: Option<isize>) -> (adopted: bool)
        ensures
            adopted == (old(self).hwnd == 0 && created is Some),
            *final(self) == (if adopted {
                with_host(*old(self), created->0)
            } else {
                *old(self)
            }),
    {
        if self.hwnd != 0 {
            return false;
        }
        match created {
            None => false,
            Some(handle) => {
                self.hwnd = handle;
                self.reveal_pending = false;
                self.state_sent = None;
                self.layout_sent = None;
                true
            },
        }
    }
}

impl Panel {
    /// Takes a new native host where there is none, and puts it at once where the panel goes
    /// first.
    pub fn create_host(&mut self, created: Option<isize>, initial: Rect) -> (action: Option<Action>)
        ensures
            old(self).hwnd == 0 && created is Some ==> {
                &&& action == Some((Action::SetRect { window: created->0, rect: initial }))
                &&& *final(self) == with_host(*old(self), created->0)
            },
            !(old(self).hwnd == 0 && created is Some) ==> action is None && *final(self) == *old(self),
    {
        if self.adopt_host(created) {
            Some(Action::SetRect { window: self.hwnd, rect: initial })
        } else {
            None
        }
    }
}

/// The layout is news to the renderer.
pub open spec fn layout_is_news(panel: Panel, bar: Size, chip: Size) -> bool {
    panel.hwnd != 0 && panel.layout_sent != Some((PanelLayout { panel: panel.hwnd, bar, chip }))
}

pub open spec fn layout_action(panel: Panel, bar: Size, chip: Size) -> Option<Action> {
    if layout_is_news(panel, bar, chip) {
        Some((Action::SendPanelLayout { panel: panel.hwnd, bar_size: bar, chip_size: chip }))
    } else {
        None
    }
}

pub open spec fn after_layout(panel: Panel, bar: Size, chip: Size) -> Panel {
    if layout_is_news(panel, bar, chip) {
        Panel { layout_sent: Some(PanelLayout { panel: panel.hwnd, bar, chip }), ..panel }
    } else {
        panel
    }
}

/// With another native host, or none; what the old one was told is forgotten.
pub open spec fn with_host(panel: Panel, hwnd: isize) -> Panel {
    Panel { hwnd, reveal_pending: false, state_sent: None, layout_sent: None, ..panel }
}

/// Until when the screenshot button shows that it was pressed.
pub open spec fn feedback_until(panel: Panel, pressed: bool, now: u64) -> Option<u64> {
    if pressed {
        Some((now + SCREENSHOT_FEEDBACK_NS) as u64)
    } else {
        match panel.screenshot_feedback_until {
            Some(until) if now < until => Some(until),
            _ => None,
        }
    }
}

/// Placing the panel once per run, and keeping the windows in order while it is wanted.
pub open spec fn place_actions(
    panel: Panel,
    show: bool,
    target: Rect,
    gui: isize,
    gui_topmost: bool,
    overlay: isize,
) -> Seq<Action> {
    let there = panel.hwnd != 0;
    Seq::<Action>::empty() + provided(
        there && !panel.placed_for_run,
        Action::SetRect { window: panel.hwnd, rect: target },
    ) + provided(there && show, Action::NormalizeStack { gui, gui_topmost, panel: panel.hwnd, overlay }) + provided(
        there && show,
        Action::KeepCursorOnTop,
    )
}

impl Panel {
    /// Places the panel, before it is shown for the first time in a run.
    pub fn place(
        &mut self,
        show: bool,
        target: Rect,
        gui: isize,
        gui_topmost: bool,
        overlay: isize,
    ) -> (actions: Vec<Action>)
        ensures
            actions@ == place_actions(*old(self), show, target, gui, gui_topmost, overlay),
            *final(self) == (if old(self).hwnd != 0 && !old(self).placed_for_run {
                Panel { placed_for_run: true, state_sent: None, ..*old(self) }
            } else {
                *old(self)
            }),
    {
        let there = self.hwnd != 0;
        let mut actions: Vec<Action> = Vec::new();
        push_if(
            &mut actions,
            there && !self.placed_for_run,
            Action::SetRect { window: self.hwnd, rect: target },
        );
        push_if(
            &mut actions,
            there && show,
            Action::NormalizeStack { gui, gui_topmost, panel: self.hwnd, overlay },
        );
        push_if(&mut actions, there && show, Action::KeepCursorOnTop);
        if there && !self.placed_for_run {
            self.placed_for_run = true;
            self.state_sent = None;
        }
        actions
    }

    /// Tells the renderer the layout, where it changed.
    pub fn publish_layout(&mut self, bar: Size, chip: Size) -> (action: Option<Action>)
        ensures
            action == layout_action(*old(self), bar, chip),
            *final(self) == after_layout(*old(self), bar, chip),
    {
        let layout = Some(PanelLayout { panel: self.hwnd, bar, chip });
        if self.hwnd == 0 || self.layout_sent == layout {
            return None;
        }
        self.layout_sent = layout;
        Some(Action::SendPanelLayout { panel: self.hwnd, bar_size: bar, chip_size: chip })
    }
}

// ---------------------------------------------------------------------------------------
// Committing the shape

/// The bar appears in this frame.
pub open spec fn becomes_visible(panel: Panel, show: bool) -> bool {
    show && panel.placed_for_run && !lurks(panel.shape) && (panel.state_sent matches Some(sent) ==> !sent.visible
        || sent.chip)
}

/// The bar appears in the place of the collapsed panel.
pub open spec fn restores_from_lurk(panel: Panel, show: bool) -> bool {
    show && panel.placed_for_run && !lurks(panel.shape) && (panel.state_sent matches Some(sent) && sent.visible
        && sent.chip)
}

pub open spec fn commit_actions(
    panel: Panel,
    show: bool,
    host: WindowFacts,
    anchor: WindowFacts,
    bar_rect: Rect,
) -> Seq<Action> {
    let final_show = show && panel.placed_for_run;
    let final_lurk = lurks(panel.shape);
    let restoring = restores_from_lurk(panel, show);
    let pending = panel.reveal_pending || becomes_visible(panel, show);
    let changed = panel.state_sent != Some((PanelSent { visible: final_show, chip: final_lurk }));
    let touch = changed && is_live(host);
    Seq::<Action>::empty() + provided(restoring, Action::BeginRestoreGuard) + provided(
        restoring && is_live(host),
        Action::SetRect { window: host.handle, rect: bar_rect },
    ) + provided(touch && final_show, Action::SetPassthrough { window: host.handle, on: false }) + provided(
        touch && final_show && final_lurk,
        Action::SetAlpha { window: host.handle, alpha: PANEL_LURK_ALPHA },
    ) + provided(
        touch && final_show && !final_lurk && pending,
        Action::SetAlpha { window: host.handle, alpha: 0 },
    ) + provided(
        touch && final_show && !final_lurk && !pending,
        Action::SetOpaque { window: host.handle },
    ) + provided(
        touch && !final_show && is_live(anchor),
        Action::SetAlpha { window: anchor.handle, alpha: 0 },
    ) + provided(
        touch && !final_show && is_live(anchor),
        Action::SetVisible { window: anchor.handle, on: false },
    ) + hide_host(touch && !final_show, true, host.handle) + provided(
        changed,
        Action::SendPanelState { visible: final_show, chip: final_lurk },
    ) + provided(changed, Action::Repaint)
}

/// The panel after the shape was committed.
pub open spec fn after_commit(panel: Panel, show: bool, host: WindowFacts) -> Panel {
    let sent = PanelSent { visible: show && panel.placed_for_run, chip: lurks(panel.shape) };
    let changed = panel.state_sent != Some(sent);
    Panel {
        reveal_pending: (panel.reveal_pending || becomes_visible(panel, show)) && !(changed && is_live(host) && (
        !sent.visible || sent.chip)),
        state_sent: Some(sent),
        layout_sent: if changed {
            None
        } else {
            panel.layout_sent
        },
        ..panel
    }
}

impl Panel {
    /// Commits the shape: a bar that appears stays fully transparent until it is drawn.
    pub fn commit(&mut self, show: bool, host: WindowFacts, anchor: WindowFacts, bar_rect: Rect) -> (actions: Vec<
        Action,
    >)
        requires
            host.handle == old(self).hwnd,
        ensures
            actions@ == commit_actions(*old(self), show, host, anchor, bar_rect),
            *final(self) == after_commit(*old(self), show, host),
    {
        let final_lurk = self.shape.chip_lurking && !self.shape.bar_shown;
        let final_show = show && self.placed_for_run;
        let (restoring, becoming) = match self.state_sent {
            Some(sent) => (
                final_show && !final_lurk && sent.visible && sent.chip,
                final_show && !final_lurk && (!sent.visible || sent.chip),
            ),
            None => (false, final_show && !final_lurk),
        };
        let host_live = live(host);
        let anchor_live = live(anchor);
        if becoming {
            self.reveal_pending = true;
        }
        let pending = self.reveal_pending;
        let sent = Some(PanelSent { visible: final_show, chip: final_lurk });
        let changed = self.state_sent != sent;
        let touch = changed && host_live;
        let mut actions: Vec<Action> = Vec::new();
        push_if(&mut actions, restoring, Action::BeginRestoreGuard);
        push_if(&mut actions, restoring && host_live, Action::SetRect { window: host.handle, rect: bar_rect });
        push_if(&mut actions, touch && final_show, Action::SetPassthrough { window: host.handle, on: false });
        push_if(
            &mut actions,
            touch && final_show && final_lurk,
            Action::SetAlpha { window: host.handle, alpha: PANEL_LURK_ALPHA },
        );
        push_if(
            &mut actions,
            touch && final_show && !final_lurk && pending,
            Action::SetAlpha { window: host.handle, alpha: 0 },
        );
        push_if(
            &mut actions,
            touch && final_show && !final_lurk && !pending,
            Action::SetOpaque { window: host.handle },
        );
        push_if(
            &mut actions,
            touch && !final_show && anchor_live,
            Action::SetAlpha { window: anchor.handle, alpha: 0 },
        );
        push_if(
            &mut actions,
            touch && !final_show && anchor_live,
            Action::SetVisible { window: anchor.handle, on: false },
        );
        push_hide_host(&mut actions, touch && !final_show, true, host.handle);
        push_if(&mut actions, changed, Action::SendPanelState { visible: final_show, chip: final_lurk });
        push_if(&mut actions, changed, Action::Repaint);
        if touch && (!final_show || final_lurk) {
            self.reveal_pending = false;
        }
        if changed {
            self.state_sent = sent;
            self.layout_sent = None;
        }
        actions
    }
}

/// A panel that leaves the screen is made transparent and lets the pointer through.
pub proof fn a_hidden_panel_takes_no_input(
    panel: Panel,
    show: bool,
    host: WindowFacts,
    anchor: WindowFacts,
    bar_rect: Rect,
)
    requires
        is_live(host),
        panel.state_sent != Some((PanelSent { visible: false, chip: lurks(panel.shape) })),
        !(show && panel.placed_for_run),
    ensures
        commit_actions(panel, show, host, anchor, bar_rect).contains(
            Action::SetPassthrough { window: host.handle, on: true },
        ),
        commit_actions(panel, show, host, anchor, bar_rect).contains(
            Action::SetAlpha { window: host.handle, alpha: 0 },
        ),
        !after_commit(panel, show, host).reveal_pending,
{
    let actions = commit_actions(panel, show, host, anchor, bar_rect);
    let n: int = if is_live(anchor) { 2 } else { 0 };
    assert(actions[n] == (Action::SetAlpha { window: host.handle, alpha: 0 }));
    assert(actions[n + 1] == (Action::SetPassthrough { window: host.handle, on: true }));
}

/// Committing the shape never makes the panel opaque: a bar that appears is revealed only when
/// it is drawn.
pub proof fn committing_never_shows_an_undrawn_bar(
    panel: Panel,
    show: bool,
    host: WindowFacts,
    anchor: WindowFacts,
    bar_rect: Rect,
)
    ensures
        !commit_actions(panel, show, host, anchor, bar_rect).contains(Action::SetOpaque { window: host.handle }),
        becomes_visible(panel, show) ==> after_commit(panel, show, host).reveal_pending,
{
}

// ---------------------------------------------------------------------------------------
// Drawing and revealing

/// What is known of the windows when the panel is drawn.
#[derive(Clone, Copy, Debug, PartialEq, Eq, Structural)]
pub struct RevealFacts {
    pub host_rect: Option<Rect>,
    pub bar: Size,
    pub chip: Size,
    pub gui_topmost: bool,
    pub overlay: isize,
    pub overlay_valid: bool,
    pub anchor: WindowFacts,
    pub anchor_above_overlay: bool,
    pub slot: u8,
    pub feedback: bool,
}

pub open spec fn near(a: int, b: int) -> bool {
    -PANEL_SIZE_TOLERANCE <= a - b <= PANEL_SIZE_TOLERANCE
}

/// The native host has the size of the picture.
pub open spec fn geometry_ready(panel: Panel, facts: RevealFacts) -> bool {
    let size = if lurks(panel.shape) {
        facts.chip
    } else {
        facts.bar
    };
    panel.hwnd != 0 && (facts.host_rect matches Some(rect) && near(rect.w as int, size.w as int) && near(
        rect.h as int,
        size.h as int,
    ))
}

/// The surface that keeps the compositor awake is in place, where one is needed.
pub open spec fn anchor_ready(panel: Panel, show: bool, facts: RevealFacts) -> bool {
    let required = show && panel.placed_for_run && !lurks(panel.shape) && !facts.gui_topmost && facts.overlay != 0
        && facts.overlay_valid;
    required ==> is_live(facts.anchor) && facts.anchor.visible && facts.anchor_above_overlay
}

/// The panel is revealed in this frame.
pub open spec fn reveals(panel: Panel, show: bool, facts: RevealFacts) -> bool {
    panel.reveal_pending && geometry_ready(panel, facts) && anchor_ready(panel, show, facts)
}

pub open spec fn draw_actions(panel: Panel, show: bool, facts: RevealFacts) -> Seq<Action> {
    let final_show = show && panel.placed_for_run;
    let lurk = lurks(panel.shape);
    let reveal = reveals(panel, show, facts);
    let pending = panel.reveal_pending && !reveal;
    Seq::<Action>::empty().push(
        Action::UpdatePanelMirror {
            panel: panel.hwnd,
            size: if lurk {
                facts.chip
            } else {
                facts.bar
            },
            visible: final_show && !lurk && (!panel.reveal_pending || geometry_ready(panel, facts)),
            chip: lurk,
            slot: facts.slot,
            feedback: facts.feedback,
        },
    ) + provided(reveal, Action::SetOpaque { window: panel.hwnd }) + provided(
        reveal,
        Action::SetPanelHostVisible { panel: panel.hwnd, on: true },
    ) + provided(reveal, Action::RepublishPanelMirror { panel: panel.hwnd }) + provided(
        final_show && !pending,
        Action::SetPanelHostVisible { panel: panel.hwnd, on: true },
    ) + provided(!final_show, Action::SetPanelHostVisible { panel: panel.hwnd, on: false })
}

fn is_near(a: i32, b: i32) -> (r: bool)
    ensures
        r == near(a as int, b as int),
{
    let difference: i64 = a as i64 - b as i64;
    difference >= -(PANEL_SIZE_TOLERANCE as i64) && difference <= PANEL_SIZE_TOLERANCE as i64
}

impl Panel {
    /// Draws the panel and, once every layer is ready, reveals it in one step.
    pub fn draw(&mut self, show: bool, facts: RevealFacts) -> (actions: Vec<Action>)
        ensures
            actions@ == draw_actions(*old(self), show, facts),
            *final(self) == (Panel {
                reveal_pending: old(self).reveal_pending && !reveals(*old(self), show, facts),
                ..*old(self)
            }),
    {
        let final_show = show && self.placed_for_run;
        let lurk = self.shape.chip_lurking && !self.shape.bar_shown;
        let size = if lurk {
            facts.chip
        } else {
            facts.bar
        };
        let ready = match facts.host_rect {
            None => false,
            Some(rect) => self.hwnd != 0 && is_near(rect.w, size.w) && is_near(rect.h, size.h),
        };
        let required = final_show && !lurk && !facts.gui_topmost && facts.overlay != 0 && facts.overlay_valid;
        let anchored = !required || (live(facts.anchor) && facts.anchor.visible && facts.anchor_above_overlay);
        let reveal = self.reveal_pending && ready && anchored;
        let mut actions: Vec<Action> = Vec::new();
        actions.push(
            Action::UpdatePanelMirror {
                panel: self.hwnd,
                size,
                visible: final_show && !lurk && (!self.reveal_pending || ready),
                chip: lurk,
                slot: facts.slot,
                feedback: facts.feedback,
            },
        );
        push_if(&mut actions, reveal, Action::SetOpaque { window: self.hwnd });
        push_if(&mut actions, reveal, Action::SetPanelHostVisible { panel: self.hwnd, on: true });
        push_if(&mut actions, reveal, Action::RepublishPanelMirror { panel: self.hwnd });
        if reveal {
            self.reveal_pending = false;
        }
        push_if(
            &mut actions,
            final_show && !self.reveal_pending,
            Action::SetPanelHostVisible { panel: self.hwnd, on: true },
        );
        push_if(&mut actions, !final_show, Action::SetPanelHostVisible { panel: self.hwnd, on: false });
        actions
    }
}

/// The bar is made opaque only when its picture has the right size and, where the compositor
/// needs it, the surface below it is in place; and the picture of a collapsed panel is never
/// shown.
pub proof fn the_bar_is_revealed_in_one_step(panel: Panel, show: bool, facts: RevealFacts)
    ensures
        draw_actions(panel, show, facts).contains(Action::SetOpaque { window: panel.hwnd }) ==> geometry_ready(
            panel,
            facts,
        ) && anchor_ready(panel, show, facts),
        draw_actions(panel, show, facts)[0] matches Action::UpdatePanelMirror { visible, .. } && (visible ==> !lurks(
            panel.shape,
        )),
{
}

// ---------------------------------------------------------------------------------------
// Requests

/// What the buttons ask of the rest of the program. The stop button only ever stops: a click
/// that arrives when nothing runs is ignored.
pub fn panel_requests(
    stop: bool,
    screenshot: bool,
    gui_topmost: bool,
    preview: bool,
    busy: Busy,
) -> (r: (Vec<Action>, bool))
    ensures
        r.0@ == provided(stop && !preview && may_stop(busy), Action::RequestStop) + provided(
            screenshot,
            Action::Repaint,
        ) + provided(screenshot, Action::SaveScreenshot) + provided(gui_topmost, Action::ToggleGuiTopmost),
        r.1 == (preview && !stop),
{
    let mut actions: Vec<Action> = Vec::new();
    let stops = should_dispatch_panel_stop(busy.starting, busy.running, busy.stopping, busy.preparing);
    push_if(&mut actions, stop && !preview && stops, Action::RequestStop);
    push_if(&mut actions, screenshot, Action::Repaint);
    push_if(&mut actions, screenshot, Action::SaveScreenshot);
    push_if(&mut actions, gui_topmost, Action::ToggleGuiTopmost);
    proof {
        assert(actions@ =~= provided(stop && !preview && may_stop(busy), Action::RequestStop) + provided(
            screenshot,
            Action::Repaint,
        ) + provided(screenshot, Action::SaveScreenshot) + provided(gui_topmost, Action::ToggleGuiTopmost));
    }
    (actions, preview && !stop)
}

// ---------------------------------------------------------------------------------------
// Hotkey and the beginning of a run

/// A press that comes too soon after the last one.
pub open spec fn debounced(panel: Panel, now: u64) -> bool {
    panel.last_hotkey matches Some(last) && now - last < PANEL_HOTKEY_DEBOUNCE_NS
}

pub open spec fn after_hotkey(panel: Panel, host: WindowFacts, now: u64) -> Panel {
    if debounced(panel, now) {
        panel
    } else {
        Panel {
            hwnd: if !panel.visible && panel.hwnd != 0 && !is_live(host) {
                0
            } else {
                panel.hwnd
            },
            visible: !panel.visible,
            shape: expanded(),
            state_sent: None,
            layout_sent: None,
            last_hotkey: Some(now),
            ..panel
        }
    }
}

pub open spec fn hotkey_actions(
    panel: Panel,
    running: bool,
    panel_show: bool,
    host: WindowFacts,
    now: u64,
) -> Seq<Action> {
    if debounced(panel, now) {
        Seq::empty()
    } else {
        let visible = !panel.visible;
        let shown = visible && running && panel_show;
        Seq::<Action>::empty() + provided(
            is_live(host) && shown,
            Action::SetPassthrough { window: host.handle, on: false },
        ) + provided(is_live(host) && shown, Action::SetOpaque { window: host.handle }) + hide_host(
            is_live(host) && !shown,
            true,
            host.handle,
        ) + provided(visible, Action::RepaintAfterMs { ms: 16 }) + provided(
            true,
            Action::SendPanelState { visible: shown, chip: false },
        ) + provided(true, Action::Repaint)
    }
}

impl Panel {
    /// Shows or hides the panel by its hotkey.
    pub fn toggle_panel_hotkey(&mut self, running: bool, panel_show: bool, host: WindowFacts, now: u64) -> (actions:
        Vec<Action>)
        requires
            host.handle == old(self).hwnd,
        ensures
            actions@ == hotkey_actions(*old(self), running, panel_show, host, now),
            *final(self) == after_hotkey(*old(self), host, now),
    {
        let mut actions: Vec<Action> = Vec::new();
        if let Some(last) = self.last_hotkey {
            if now < last || now - last < PANEL_HOTKEY_DEBOUNCE_NS {
                return actions;
            }
        }
        self.last_hotkey = Some(now);
        self.visible = !self.visible;
        self.shape = PanelShape { chip_lurking: false, bar_shown: true, leave_at: None };
        self.state_sent = None;
        self.layout_sent = None;
        let host_live = live(host);
        let shown = self.visible && running && panel_show;
        push_if(&mut actions, host_live && shown, Action::SetPassthrough { window: host.handle, on: false });
        push_if(&mut actions, host_live && shown, Action::SetOpaque { window: host.handle });
        push_hide_host(&mut actions, host_live && !shown, true, host.handle);
        if self.visible && self.hwnd != 0 && !host_live {
            self.hwnd = 0;
        }
        push_if(&mut actions, self.visible, Action::RepaintAfterMs { ms: 16 });
        push_if(&mut actions, true, Action::SendPanelState { visible: shown, chip: false });
        push_if(&mut actions, true, Action::Repaint);
        actions
    }

    /// The panel before the first run: wanted, with its whole bar, and without a window.
    pub fn new() -> (panel: Self)
        ensures
            panel == (Panel {
                hwnd: 0,
                visible: true,
                shape: expanded(),
                hover_expand_armed: true,
                hover_restore_armed: false,
                placed_for_run: false,
                reveal_pending: false,
                state_sent: None,
                layout_sent: None,
                metrics_sent: None,
                screenshot_feedback_until: None,
                last_hotkey: None,
            }),
    {
        Panel {
            hwnd: 0,
            visible: true,
            shape: PanelShape { chip_lurking: false, bar_shown: true, leave_at: None },
            hover_expand_armed: true,
            hover_restore_armed: false,
            placed_for_run: false,
            reveal_pending: false,
            state_sent: None,
            layout_sent: None,
            metrics_sent: None,
            screenshot_feedback_until: None,
            last_hotkey: None,
        }
    }

    /// A capture is about to start: it shows the whole bar.
    pub fn on_start(&mut self)
        ensures
            *final(self) == (Panel {
                shape: PanelShape { chip_lurking: false, bar_shown: true, ..old(self).shape },
                ..*old(self)
            }),
    {
        self.shape = PanelShape { chip_lurking: false, bar_shown: true, leave_at: self.shape.leave_at };
    }

    /// A run begins: the native host still has its old place, so it stays hidden until it is
    /// placed again.
    pub fn on_run_start(&mut self, host: WindowFacts, gdi_host: bool) -> (actions: Vec<Action>)
        requires
            host.handle == old(self).hwnd,
        ensures
            actions@ == hide_host(is_live(host), gdi_host, host.handle),
            *final(self) == (Panel {
                placed_for_run: false,
                reveal_pending: false,
                state_sent: None,
                layout_sent: None,
                ..*old(self)
            }),
    {
        self.placed_for_run = false;
        self.reveal_pending = false;
        self.state_sent = None;
        self.layout_sent = None;
        let mut actions: Vec<Action> = Vec::new();
        push_hide_host(&mut actions, live(host), gdi_host, host.handle);
        proof {
            assert(actions@ =~= hide_host(is_live(host), gdi_host, host.handle));
        }
        actions
    }
}

/// The hotkey always brings the whole bar back, never the collapsed panel.
pub proof fn the_hotkey_shows_the_whole_bar(panel: Panel, host: WindowFacts, now: u64)
    requires
        !debounced(panel, now),
    ensures
        after_hotkey(panel, host, now).visible == !panel.visible,
        !lurks(after_hotkey(panel, host, now).shape),
        debounced(after_hotkey(panel, host, now), now),
{
}

/// A panel that was not placed since the run began is not on the screen.
pub proof fn a_new_run_shows_no_misplaced_panel(panel: Panel, show: bool, facts: RevealFacts)
    requires
        !panel.placed_for_run,
    ensures
        !becomes_visible(panel, show),
        draw_actions(panel, show, facts)[0] matches Action::UpdatePanelMirror { visible, .. } && !visible,
{
}

// ---------------------------------------------------------------------------------------
// What the panel is for

/// The buttons do what they say: to expand shows the bar, to collapse leaves the chip, and neither
/// leaves the panel as it is; the bar that was asked for goes before the chip.
pub proof fn the_buttons_change_the_shape(shape: PanelShape, collapse: bool, expand: bool)
    ensures
        expand ==> !after_action(shape, collapse, expand).chip_lurking && after_action(shape, collapse, expand).bar_shown
            && after_action(shape, collapse, expand).leave_at is None,
        collapse && !expand ==> after_action(shape, collapse, expand).chip_lurking && !after_action(
            shape,
            collapse,
            expand,
        ).bar_shown && after_action(shape, collapse, expand).leave_at is None,
        !collapse && !expand ==> after_action(shape, collapse, expand) == shape,
        lurks(shape) <==> shape.chip_lurking && !shape.bar_shown,
{
}

/// Hovering the collapsed panel shows the bar again, once the pointer has been away since it was
/// collapsed; a bar that is shown for a while goes a third of a second after the pointer has left
/// it, and not while the pointer is on it.
pub proof fn the_pointer_shows_and_hides_the_bar(panel: Panel, hovered: bool, now: u64)
    requires
        now + 350_000_000 <= u64::MAX,
        panel.shape.chip_lurking,
    ensures
        ({
            let lurking = lurks(panel.shape);
            let next = after_pointer(panel, false, false, hovered, lurking, now);
            &&& lurking && hovered && panel.hover_restore_armed ==> !next.shape.chip_lurking && next.shape.bar_shown
            &&& lurking && !(hovered && panel.hover_restore_armed) ==> next.shape == panel.shape
            &&& !lurking && hovered ==> next.shape.bar_shown == panel.shape.bar_shown && next.shape.leave_at is None
            &&& !lurking && !hovered && panel.shape.leave_at is None ==> next.shape.bar_shown == panel.shape.bar_shown
                && next.shape.leave_at == Some((now + 350_000_000) as u64)
            &&& !lurking && !hovered ==> (panel.shape.leave_at matches Some(due) ==> (now >= due
                ==> !next.shape.bar_shown && next.shape.leave_at is None) && (now < due ==> next.shape == panel.shape))
            &&& !hovered ==> next.hover_restore_armed && next.hover_expand_armed
            &&& hovered ==> next.hover_restore_armed == panel.hover_restore_armed
        }),
        after_pointer(panel, true, false, hovered, lurks(panel.shape), now).hover_restore_armed == !hovered,
{
}

/// The pointer is on the panel where the drawn cursor is, or, where that is elsewhere, the real one;
/// what it points at is counted from the panel's left edge.
pub proof fn the_drawn_cursor_goes_first(area: Rect, cursor: Point, sprite: Option<Point>)
    ensures
        sprite matches Some(p) ==> (contains_point(area, p) ==> hover_offset(area, cursor, sprite) == Some(p.x - area.x)),
        (sprite matches Some(p) ==> !contains_point(area, p)) && contains_point(area, cursor) ==> hover_offset(
            area,
            cursor,
            sprite,
        ) == Some(cursor.x - area.x),
        (sprite matches Some(p) ==> !contains_point(area, p)) && !contains_point(area, cursor) ==> hover_offset(
            area,
            cursor,
            sprite,
        ) is None,
{
}

/// The panel is wanted on the screen while a capture runs and is not being stopped, it is not
/// switched away, and the settings have it.
pub proof fn the_panel_is_wanted_during_a_capture(panel: Panel, run: PanelRun)
    ensures
        wanted(panel, run) <==> run.running && !run.stopping && panel.visible && run.panel_show,
{
}

/// A panel that leaves the screen is transparent, lets the pointer through, and is hidden where it
/// has a host of its own, in this order.
pub proof fn a_panel_that_goes_is_out_of_the_way(panel: isize, gdi_host: bool)
    ensures
        hide_host(false, gdi_host, panel).len() == 0,
        hide_host(true, true, panel) == seq![
            Action::SetAlpha { window: panel, alpha: 0 },
            Action::SetPassthrough { window: panel, on: true },
            Action::SetPanelHostVisible { panel, on: false },
        ],
        hide_host(true, false, panel) == seq![
            Action::SetAlpha { window: panel, alpha: 0 },
            Action::SetPassthrough { window: panel, on: true },
        ],
{
    assert(hide_host(true, true, panel) =~= seq![
        Action::SetAlpha { window: panel, alpha: 0 },
        Action::SetPassthrough { window: panel, on: true },
        Action::SetPanelHostVisible { panel, on: false },
    ]);
    assert(hide_host(true, false, panel) =~= seq![
        Action::SetAlpha { window: panel, alpha: 0 },
        Action::SetPassthrough { window: panel, on: true },
    ]);
}

/// What a frame begins with: where the state is new, the host of a panel that is shown takes the
/// pointer and is seen, or nearly not where it is collapsed, and that of a panel that is not shown is
/// out of the way; the renderer hears of every new state; without a capture the picture goes, and the
/// host with it.
pub proof fn a_frame_begins_with_what_is_new(panel: Panel, run: PanelRun, host: WindowFacts, gdi_host: bool, a: Action)
    ensures
        ({
            let show = run.running && !run.stopping && panel.visible && run.panel_show;
            let shown = show && panel.placed_for_run;
            let lurk = panel.shape.chip_lurking && !panel.shape.bar_shown;
            let news = panel.state_sent != Some((PanelSent { visible: shown, chip: lurk }));
            let touch = news && is_live(host);
            begin_actions(panel, run, host, gdi_host).contains(a) <==> (touch && shown && a == (Action::SetPassthrough {
                window: host.handle,
                on: false,
            })) || (touch && shown && lurk && a == (Action::SetAlpha { window: host.handle, alpha: 0 })) || (
            touch && shown && !lurk && a == (Action::SetOpaque { window: host.handle })) || (touch && !shown && a == (
            Action::SetAlpha { window: host.handle, alpha: 0 })) || (touch && !shown && a == (Action::SetPassthrough {
                window: host.handle,
                on: true,
            })) || (touch && !shown && gdi_host && a == (Action::SetPanelHostVisible { panel: host.handle, on: false })) || (
            news && a == (Action::SendPanelState { visible: shown, chip: lurk })) || (panel.metrics_sent != Some(show) && a
                == (Action::SendPanelMetrics { on: show })) || (!run.running && a == Action::HidePanelMirror) || (!run.running
                && host.handle != 0 && gdi_host && (a == (Action::SetPanelOwner {
                panel: host.handle,
                overlay: run.overlay,
                on: false,
            }) || a == (Action::SetPanelHostVisible { panel: host.handle, on: false })))
        }),
{
    broadcast use
        crate::actions::an_appended_action_is_there_when_it_should_be,
        crate::actions::an_empty_list_has_no_action;

    let shown = wanted(panel, run) && panel.placed_for_run;
    let lurk = lurks(panel.shape);
    let news = panel.state_sent != Some((PanelSent { visible: shown, chip: lurk }));
    let touch = news && is_live(host);
    let h = host.handle;
    let front = Seq::<Action>::empty() + provided(touch && shown, Action::SetPassthrough { window: h, on: false })
        + provided(touch && shown && lurk, Action::SetAlpha { window: h, alpha: 0 }) + provided(
        touch && shown && !lurk,
        Action::SetOpaque { window: h },
    );
    lemma_hidden_behind(front, touch && !shown, gdi_host, h);
}

proof fn lemma_hidden_behind(front: Seq<Action>, condition: bool, gdi_host: bool, panel: isize)
    ensures
        front + hide_host(condition, gdi_host, panel) == front + provided(
            condition,
            Action::SetAlpha { window: panel, alpha: 0 },
        ) + provided(condition, Action::SetPassthrough { window: panel, on: true }) + provided(
            condition && gdi_host,
            Action::SetPanelHostVisible { panel, on: false },
        ),
{
    assert(front + hide_host(condition, gdi_host, panel) =~= front + provided(
        condition,
        Action::SetAlpha { window: panel, alpha: 0 },
    ) + provided(condition, Action::SetPassthrough { window: panel, on: true }) + provided(
        condition && gdi_host,
        Action::SetPanelHostVisible { panel, on: false },
    ));
}

/// The panel is placed once in a run, and the windows are put in order with the cursor above them
/// whenever it is to be seen; without a host there is nothing to place.
pub proof fn the_panel_is_placed_once_in_a_run(
    panel: Panel,
    show: bool,
    target: Rect,
    gui: isize,
    gui_topmost: bool,
    overlay: isize,
    a: Action,
)
    ensures
        place_actions(panel, show, target, gui, gui_topmost, overlay).contains(a) <==> panel.hwnd != 0 && ((
        !panel.placed_for_run && a == (Action::SetRect { window: panel.hwnd, rect: target })) || (show && a == (
        Action::NormalizeStack { gui, gui_topmost, panel: panel.hwnd, overlay })) || (show && a
            == Action::KeepCursorOnTop)),
        panel.hwnd != 0 && !panel.placed_for_run && show ==> place_actions(
            panel,
            show,
            target,
            gui,
            gui_topmost,
            overlay,
        ) == seq![
            Action::SetRect { window: panel.hwnd, rect: target },
            Action::NormalizeStack { gui, gui_topmost, panel: panel.hwnd, overlay },
            Action::KeepCursorOnTop,
        ],
{
    broadcast use
        crate::actions::an_appended_action_is_there_when_it_should_be,
        crate::actions::an_empty_list_has_no_action;

    if panel.hwnd != 0 && !panel.placed_for_run && show {
        assert(place_actions(panel, show, target, gui, gui_topmost, overlay) =~= seq![
            Action::SetRect { window: panel.hwnd, rect: target },
            Action::NormalizeStack { gui, gui_topmost, panel: panel.hwnd, overlay },
            Action::KeepCursorOnTop,
        ]);
    }
}

/// What committing the shape does: a bar that comes out of the chip has its place before it is seen,
/// and the renderer keeps to it; a panel that is shown takes the pointer, and is transparent until it
/// is revealed; a panel that goes takes the surface below it along; and the renderer hears of every
/// new state.
pub proof fn committing_does_its_parts(
    panel: Panel,
    show: bool,
    host: WindowFacts,
    anchor: WindowFacts,
    bar_rect: Rect,
    a: Action,
)
    ensures
        ({
            let shown = show && panel.placed_for_run;
            let lurk = panel.shape.chip_lurking && !panel.shape.bar_shown;
            let restoring = shown && !lurk && panel.state_sent == Some((PanelSent { visible: true, chip: true }));
            let appearing = shown && !lurk && panel.state_sent != Some((PanelSent { visible: true, chip: false }));
            let news = panel.state_sent != Some((PanelSent { visible: shown, chip: lurk }));
            let touch = news && is_live(host);
            let waits = panel.reveal_pending || appearing;
            commit_actions(panel, show, host, anchor, bar_rect).contains(a) <==> (restoring && a
                == Action::BeginRestoreGuard) || (restoring && is_live(host) && a == (Action::SetRect {
                window: host.handle,
                rect: bar_rect,
            })) || (touch && shown && a == (Action::SetPassthrough { window: host.handle, on: false })) || (touch && shown
                && lurk && a == (Action::SetAlpha { window: host.handle, alpha: 0 })) || (touch && shown
                && !lurk && waits && a == (Action::SetAlpha { window: host.handle, alpha: 0 })) || (touch && shown && !lurk
                && !waits && a == (Action::SetOpaque { window: host.handle })) || (touch && !shown && is_live(anchor) && (a
                == (Action::SetAlpha { window: anchor.handle, alpha: 0 }) || a == (Action::SetVisible {
                window: anchor.handle,
                on: false,
            }))) || (touch && !shown && (a == (Action::SetAlpha { window: host.handle, alpha: 0 }) || a == (
            Action::SetPassthrough { window: host.handle, on: true }) || a == (Action::SetPanelHostVisible {
                panel: host.handle,
                on: false,
            }))) || (news && (a == (Action::SendPanelState { visible: shown, chip: lurk }) || a == Action::Repaint))
        }),
{
    broadcast use
        crate::actions::an_appended_action_is_there_when_it_should_be,
        crate::actions::an_empty_list_has_no_action;

    let shown = show && panel.placed_for_run;
    let lurk = lurks(panel.shape);
    let restoring = restores_from_lurk(panel, show);
    let pending = panel.reveal_pending || becomes_visible(panel, show);
    let news = panel.state_sent != Some((PanelSent { visible: shown, chip: lurk }));
    let touch = news && is_live(host);
    let front = Seq::<Action>::empty() + provided(restoring, Action::BeginRestoreGuard) + provided(
        restoring && is_live(host),
        Action::SetRect { window: host.handle, rect: bar_rect },
    ) + provided(touch && shown, Action::SetPassthrough { window: host.handle, on: false }) + provided(
        touch && shown && lurk,
        Action::SetAlpha { window: host.handle, alpha: 0 },
    ) + provided(touch && shown && !lurk && pending, Action::SetAlpha { window: host.handle, alpha: 0 }) + provided(
        touch && shown && !lurk && !pending,
        Action::SetOpaque { window: host.handle },
    ) + provided(touch && !shown && is_live(anchor), Action::SetAlpha { window: anchor.handle, alpha: 0 }) + provided(
        touch && !shown && is_live(anchor),
        Action::SetVisible { window: anchor.handle, on: false },
    );
    lemma_hidden_behind(front, touch && !shown, true, host.handle);
}

/// After committing, the state that was told is the one that is shown, and a bar that appears waits
/// to be revealed; nothing else waits that is not shown as a bar.
pub proof fn committing_remembers_what_was_told(panel: Panel, show: bool, host: WindowFacts)
    ensures
        ({
            let shown = show && panel.placed_for_run;
            let lurk = panel.shape.chip_lurking && !panel.shape.bar_shown;
            let next = after_commit(panel, show, host);
            let news = panel.state_sent != Some((PanelSent { visible: shown, chip: lurk }));
            &&& next.state_sent == Some((PanelSent { visible: shown, chip: lurk }))
            &&& news ==> next.layout_sent is None
            &&& !news ==> next.layout_sent == panel.layout_sent && next.reveal_pending == panel.reveal_pending
            &&& news && is_live(host) && (!shown || lurk) ==> !next.reveal_pending
            &&& news && shown && !lurk ==> next.reveal_pending
            &&& next.hwnd == panel.hwnd && next.shape == panel.shape && next.visible == panel.visible
                && next.placed_for_run == panel.placed_for_run
        }),
{
}

/// A bar that waits is revealed when its picture has its size, to three pixels, and the surface below
/// it is in place where the main window does not stand in for it: it is made opaque, its host shown
/// and its picture drawn once more, in this order.
pub proof fn a_waiting_bar_is_revealed(panel: Panel, show: bool, facts: RevealFacts)
    ensures
        ({
            let lurk = panel.shape.chip_lurking && !panel.shape.bar_shown;
            let w: int = if lurk { facts.chip.w as int } else { facts.bar.w as int };
            let h: int = if lurk { facts.chip.h as int } else { facts.bar.h as int };
            let sized = panel.hwnd != 0 && (facts.host_rect matches Some(r) && -3 <= r.w - w <= 3 && -3 <= r.h - h <= 3);
            let needs = show && panel.placed_for_run && !lurk && !facts.gui_topmost && facts.overlay != 0
                && facts.overlay_valid;
            let held = is_live(facts.anchor) && facts.anchor.visible && facts.anchor_above_overlay;
            let reveal = panel.reveal_pending && sized && (needs ==> held);
            let shown = show && panel.placed_for_run;
            let actions = draw_actions(panel, show, facts);
            &&& reveals(panel, show, facts) <==> reveal
            &&& actions[0] == (Action::UpdatePanelMirror {
                panel: panel.hwnd,
                size: if lurk {
                    facts.chip
                } else {
                    facts.bar
                },
                visible: shown && !lurk && (!panel.reveal_pending || sized),
                chip: lurk,
                slot: facts.slot,
                feedback: facts.feedback,
            })
            &&& reveal ==> actions.len() == 5 && actions[1] == (Action::SetOpaque { window: panel.hwnd }) && actions[2] == (
            Action::SetPanelHostVisible { panel: panel.hwnd, on: true }) && actions[3] == (
            Action::RepublishPanelMirror { panel: panel.hwnd })
            &&& !reveal && shown && !panel.reveal_pending ==> actions.len() == 2 && actions[1] == (
            Action::SetPanelHostVisible { panel: panel.hwnd, on: true })
            &&& !reveal && !shown ==> actions.len() == 2 && actions[1] == (Action::SetPanelHostVisible {
                panel: panel.hwnd,
                on: false,
            })
            &&& !reveal && shown && panel.reveal_pending ==> actions.len() == 1
            &&& reveal && shown ==> actions[4] == (Action::SetPanelHostVisible { panel: panel.hwnd, on: true })
            &&& reveal && !shown ==> actions[4] == (Action::SetPanelHostVisible { panel: panel.hwnd, on: false })
        }),
{
}

/// The hotkey switches the panel away and back, showing the whole bar; a second press within a sixth
/// of a second does nothing; and what the renderer hears is what is seen.
pub proof fn the_hotkey_switches_the_panel(panel: Panel, running: bool, panel_show: bool, host: WindowFacts, now: u64)
    ensures
        ({
            let next = after_hotkey(panel, host, now);
            let actions = hotkey_actions(panel, running, panel_show, host, now);
            let again = panel.last_hotkey matches Some(last) && now - last < 180_000_000;
            let shown = !panel.visible && running && panel_show;
            &&& again ==> next == panel && actions.len() == 0
            &&& !again ==> next.visible == !panel.visible && !next.shape.chip_lurking && next.shape.bar_shown
                && next.last_hotkey == Some(now) && next.state_sent is None && next.layout_sent is None
            &&& !again ==> actions.last() == Action::Repaint && actions[actions.len() - 2] == (Action::SendPanelState {
                visible: shown,
                chip: false,
            })
            &&& !again && is_live(host) && shown ==> actions[0] == (Action::SetPassthrough {
                window: host.handle,
                on: false,
            }) && actions[1] == (Action::SetOpaque { window: host.handle })
            &&& !again && is_live(host) && !shown ==> actions[0] == (Action::SetAlpha { window: host.handle, alpha: 0 })
                && actions[1] == (Action::SetPassthrough { window: host.handle, on: true }) && actions[2] == (
            Action::SetPanelHostVisible { panel: host.handle, on: false })
            &&& !again && !panel.visible ==> actions[actions.len() - 3] == (Action::RepaintAfterMs { ms: 16 })
        }),
{
}

/// The layout is told to the host that is there, once: again only after it changed or the host did.
pub proof fn a_layout_is_told_once(panel: Panel, bar: Size, chip: Size, other: Size, hwnd: isize)
    ensures
        panel.hwnd == 0 ==> layout_action(panel, bar, chip) is None && after_layout(panel, bar, chip) == panel,
        layout_action(panel, bar, chip) matches Some(a) ==> a == (Action::SendPanelLayout {
            panel: panel.hwnd,
            bar_size: bar,
            chip_size: chip,
        }),
        panel.layout_sent is None && panel.hwnd != 0 ==> layout_action(panel, bar, chip) is Some,
        layout_action(after_layout(panel, bar, chip), bar, chip) is None,
        panel.hwnd != 0 && other != bar ==> layout_action(after_layout(panel, bar, chip), other, chip) is Some,
        panel.hwnd != 0 && other != chip ==> layout_action(after_layout(panel, bar, chip), bar, other) is Some,
        hwnd != 0 ==> layout_action(with_host(after_layout(panel, bar, chip), hwnd), bar, chip) is Some,
        ({
            let next = after_layout(panel, bar, chip);
            &&& next.shape == panel.shape && next.hwnd == panel.hwnd && next.state_sent == panel.state_sent
            &&& next.placed_for_run == panel.placed_for_run && next.reveal_pending == panel.reveal_pending
        }),
{
}

/// A new host knows nothing of what the old one was told; the panel's shape and the run stay as
/// they are.
pub proof fn a_new_host_is_told_everything(panel: Panel, hwnd: isize)
    ensures
        ({
            let next = with_host(panel, hwnd);
            &&& next.hwnd == hwnd
            &&& next.state_sent is None && next.layout_sent is None && !next.reveal_pending
            &&& next.shape == panel.shape && next.placed_for_run == panel.placed_for_run
            &&& next.screenshot_feedback_until == panel.screenshot_feedback_until
        }),
{
}

/// The screenshot button shows a press for nine tenths of a second, and a second press starts
/// them anew.
pub proof fn a_screenshot_is_shown_for_a_while(panel: Panel, now: u64, later: u64)
    requires
        now <= later,
        now + 900_000_000 <= u64::MAX,
        later + 900_000_000 <= u64::MAX,
    ensures
        ({
            let pressed = Panel { screenshot_feedback_until: feedback_until(panel, true, now), ..panel };
            &&& feedback_until(panel, true, now) is Some
            &&& feedback_until(pressed, false, later) is Some <==> later - now < 900_000_000
            &&& feedback_until(pressed, true, later) == Some((later + 900_000_000) as u64)
        }),
        panel.screenshot_feedback_until is None ==> feedback_until(panel, false, now) is None,
{
}

} // verus!
