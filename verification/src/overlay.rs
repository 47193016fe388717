//! The overlay window that shows the magnified picture: when it is on the screen, in which
//! order it is brought there and taken away, and how a picture is put into it.
use vstd::prelude::*;

verus! {

/// One step on the overlay's native window or on its drawing surface.
#[derive(Clone, Copy, Debug, PartialEq, Eq, Structural)]
pub enum OverlayStep {
    /// Give the whole window this opacity.
    SetAlpha(u8),
    ShowWithoutActivation,
    HideNative,
    /// Wait for the compositor.
    Flush,
    /// Move the window; `topmost` also lifts it into the topmost band.
    Place { x: i32, y: i32, w: i32, h: i32, topmost: bool },
    /// Draw into the whole surface.
    Viewport { x: i32, y: i32, w: i32, h: i32 },
    ClearBlack,
    SwapBuffers,
    /// Swaps wait for this many refreshes of the screen.
    SetSwapInterval(i32),
    PumpMessages,
}

/// Where a window lies that is off the screen.
pub const PARKED_AT: i32 = -32000;

/// The overlay. A window that is not shown may still be in the compositor's tree, fully
/// transparent: then it is staged.
#[derive(Clone, Copy, Debug, PartialEq, Eq, Structural)]
pub struct OverlayWindow {
    pub hwnd: isize,
    pub width: i32,
    pub height: i32,
    pub visible: bool,
    pub staged_hidden: bool,
}

/// A window is not both shown and staged.
pub open spec fn is_consistent(w: OverlayWindow) -> bool {
    !(w.visible && w.staged_hidden)
}

pub open spec fn at_least_one(n: i32) -> i32 {
    if n < 1 {
        1
    } else {
        n
    }
}

pub open spec fn step_if(condition: bool, step: OverlayStep) -> Seq<OverlayStep> {
    if condition {
        seq![step]
    } else {
        Seq::empty()
    }
}

fn push_step(out: &mut Vec<OverlayStep>, condition: bool, step: OverlayStep)
    ensures
        final(out)@ == old(out)@ + step_if(condition, step),
{
    if condition {
        out.push(step);
    }
    proof {
        assert(out@ =~= old(out)@ + step_if(condition, step));
    }
}

/// Bringing the window back into the compositor's tree while it is fully transparent.
pub open spec fn stage_steps(native_visible: bool) -> Seq<OverlayStep> {
    seq![OverlayStep::SetAlpha(0)] + step_if(!native_visible, OverlayStep::ShowWithoutActivation) + seq![
        OverlayStep::Flush,
    ]
}

/// Showing the window: it is composed once while it is fully transparent, so that no old
/// picture can be seen.
pub open spec fn show_steps(native_visible: bool) -> Seq<OverlayStep> {
    stage_steps(native_visible) + seq![OverlayStep::SetAlpha(255), OverlayStep::Flush]
}

pub open spec fn stop_steps() -> Seq<OverlayStep> {
    seq![
        OverlayStep::SetAlpha(0),
        OverlayStep::Flush,
        OverlayStep::HideNative,
        OverlayStep::Place { x: PARKED_AT, y: PARKED_AT, w: 1, h: 1, topmost: false },
        OverlayStep::Flush,
    ]
}

pub open spec fn blank_steps(w: OverlayWindow) -> Seq<OverlayStep> {
    seq![
        OverlayStep::SetAlpha(0),
        OverlayStep::Viewport { x: 0, y: 0, w: at_least_one(w.width), h: at_least_one(w.height) },
        OverlayStep::ClearBlack,
        OverlayStep::SwapBuffers,
        OverlayStep::ClearBlack,
        OverlayStep::SwapBuffers,
        OverlayStep::PumpMessages,
        OverlayStep::Flush,
    ]
}

fn one_or_more(n: i32) -> (r: i32)
    ensures
        r == at_least_one(n),
{
    if n < 1 {
        1
    } else {
        n
    }
}

impl OverlayWindow {
    /// A new window starts transparent and not shown, and its pictures do not wait for the screen.
    pub fn new(hwnd: isize, w: i32, h: i32) -> (r: (Self, Vec<OverlayStep>))
        ensures
            r.0 == (OverlayWindow { hwnd, width: w, height: h, visible: false, staged_hidden: false }),
            r.1@ == seq![OverlayStep::SetAlpha(0), OverlayStep::SetSwapInterval(0)],
            is_consistent(r.0),
    {
        let mut steps: Vec<OverlayStep> = Vec::new();
        steps.push(OverlayStep::SetAlpha(0));
        steps.push(OverlayStep::SetSwapInterval(0));
        proof {
            assert(steps@ =~= seq![OverlayStep::SetAlpha(0), OverlayStep::SetSwapInterval(0)]);
        }
        (OverlayWindow { hwnd, width: w, height: h, visible: false, staged_hidden: false }, steps)
    }

    pub fn hwnd(&self) -> (r: isize)
        ensures
            r == self.hwnd,
    {
        self.hwnd
    }

    pub fn size(&self) -> (r: (i32, i32))
        ensures
            r == (self.width, self.height),
    {
        (self.width, self.height)
    }

    pub fn is_visible(&self) -> (r: bool)
        ensures
            r == self.visible,
    {
        self.visible
    }

    /// Stages a window that was taken off the screen, before it is shown.
    pub fn prepare_hidden_for_reveal(&mut self, native_visible: bool) -> (steps: Vec<OverlayStep>)
        ensures
            steps@ == (if old(self).visible || old(self).staged_hidden {
                Seq::empty()
            } else {
                stage_steps(native_visible)
            }),
            *final(self) == (if old(self).visible || old(self).staged_hidden {
                *old(self)
            } else {
                OverlayWindow { staged_hidden: true, ..*old(self) }
            }),
            is_consistent(*old(self)) ==> is_consistent(*final(self)),
    {
        let mut steps: Vec<OverlayStep> = Vec::new();
        if self.visible || self.staged_hidden {
            return steps;
        }
        steps.push(OverlayStep::SetAlpha(0));
        push_step(&mut steps, !native_visible, OverlayStep::ShowWithoutActivation);
        steps.push(OverlayStep::Flush);
        proof {
            assert(steps@ =~= stage_steps(native_visible));
        }
        self.staged_hidden = true;
        steps
    }

    /// Shows the window.
    pub fn show(&mut self, native_visible: bool) -> (steps: Vec<OverlayStep>)
        ensures
            steps@ == show_steps(native_visible),
            *final(self) == (OverlayWindow { visible: true, staged_hidden: false, ..*old(self) }),
            is_consistent(*final(self)),
    {
        let mut steps: Vec<OverlayStep> = Vec::new();
        steps.push(OverlayStep::SetAlpha(0));
        push_step(&mut steps, !native_visible, OverlayStep::ShowWithoutActivation);
        steps.push(OverlayStep::Flush);
        steps.push(OverlayStep::SetAlpha(255));
        steps.push(OverlayStep::Flush);
        proof {
            assert(steps@ =~= show_steps(native_visible));
        }
        self.visible = true;
        self.staged_hidden = false;
        steps
    }

    /// Paints both buffers of the transparent window black.
    pub fn blank_hidden_buffers(&self) -> (steps: Vec<OverlayStep>)
        ensures
            steps@ == blank_steps(*self),
    {
        let mut steps: Vec<OverlayStep> = Vec::new();
        steps.push(OverlayStep::SetAlpha(0));
        steps.push(OverlayStep::Viewport { x: 0, y: 0, w: one_or_more(self.width), h: one_or_more(self.height) });
        steps.push(OverlayStep::ClearBlack);
        steps.push(OverlayStep::SwapBuffers);
        steps.push(OverlayStep::ClearBlack);
        steps.push(OverlayStep::SwapBuffers);
        steps.push(OverlayStep::PumpMessages);
        steps.push(OverlayStep::Flush);
        proof {
            assert(steps@ =~= blank_steps(*self));
        }
        steps
    }

    /// Hides the window during a session: it stays in the compositor's tree.
    pub fn hide_in_session(&mut self) -> (steps: Vec<OverlayStep>)
        ensures
            steps@ == seq![OverlayStep::SetAlpha(0), OverlayStep::Flush],
            *final(self) == (OverlayWindow { visible: false, staged_hidden: true, ..*old(self) }),
            is_consistent(*final(self)),
    {
        let mut steps: Vec<OverlayStep> = Vec::new();
        steps.push(OverlayStep::SetAlpha(0));
        steps.push(OverlayStep::Flush);
        proof {
            assert(steps@ =~= seq![OverlayStep::SetAlpha(0), OverlayStep::Flush]);
        }
        self.visible = false;
        self.staged_hidden = true;
        steps
    }

    /// Hides the window at the end of a session: nothing of it stays on the screen.
    pub fn hide_for_stop(&mut self) -> (steps: Vec<OverlayStep>)
        ensures
            steps@ == stop_steps(),
            *final(self) == (OverlayWindow {
                hwnd: old(self).hwnd,
                width: 1,
                height: 1,
                visible: false,
                staged_hidden: false,
            }),
            is_consistent(*final(self)),
    {
        let mut steps: Vec<OverlayStep> = Vec::new();
        steps.push(OverlayStep::SetAlpha(0));
        steps.push(OverlayStep::Flush);
        steps.push(OverlayStep::HideNative);
        steps.push(OverlayStep::Place { x: PARKED_AT, y: PARKED_AT, w: 1, h: 1, topmost: false });
        steps.push(OverlayStep::Flush);
        proof {
            assert(steps@ =~= stop_steps());
        }
        self.width = 1;
        self.height = 1;
        self.visible = false;
        self.staged_hidden = false;
        steps
    }

    /// Waits for the compositor.
    pub fn flush_compositor(&self) -> (step: OverlayStep)
        ensures
            step == OverlayStep::Flush,
    {
        OverlayStep::Flush
    }

    /// Moves the window and leaves its place among the others alone.
    pub fn reposition(&mut self, x: i32, y: i32, w: i32, h: i32) -> (step: OverlayStep)
        ensures
            step == (OverlayStep::Place { x, y, w, h, topmost: false }),
            *final(self) == (OverlayWindow { width: w, height: h, ..*old(self) }),
    {
        self.width = w;
        self.height = h;
        OverlayStep::Place { x, y, w, h, topmost: false }
    }

    /// Moves the window and lifts it into the topmost band.
    pub fn reposition_v235_topmost(&mut self, x: i32, y: i32, w: i32, h: i32) -> (step: OverlayStep)
        ensures
            step == (OverlayStep::Place { x, y, w, h, topmost: true }),
            *final(self) == (OverlayWindow { width: w, height: h, ..*old(self) }),
    {
        self.width = w;
        self.height = h;
        OverlayStep::Place { x, y, w, h, topmost: true }
    }

    /// How many bytes the picture in the window has.
    pub fn front_pixel_bytes(&self) -> (n: u128)
        requires
            self.width >= 0,
            self.height >= 0,
        ensures
            n == self.width * self.height * 4,
    {
        proof {
            let w: int = self.width as int;
            let h: int = self.height as int;
            assert(0 <= w * h <= 0x7fff_ffff * 0x7fff_ffff) by (nonlinear_arith)
                requires
                    0 <= w <= 0x7fff_ffff,
                    0 <= h <= 0x7fff_ffff,
            ;
        }
        self.width as u128 * self.height as u128 * 4
    }
}

/// A rectangle from its edges: the left and upper corner, the width and the height.
pub fn current_rect(left: i32, top: i32, right: i32, bottom: i32) -> (r: (i32, i32, i32, i32))
    requires
        i32::MIN <= right - left <= i32::MAX,
        i32::MIN <= bottom - top <= i32::MAX,
    ensures
        r == (left, top, (right - left) as i32, (bottom - top) as i32),
{
    (left, top, right - left, bottom - top)
}

/// An old picture is never seen: the window becomes opaque only after it was composed while it
/// was transparent, and becomes transparent before anything else when it goes.
pub proof fn no_old_picture_is_seen(native_visible: bool, i: int)
    requires
        0 <= i < show_steps(native_visible).len(),
        show_steps(native_visible)[i] == OverlayStep::SetAlpha(255),
    ensures
        i >= 2,
        show_steps(native_visible)[i - 1] == OverlayStep::Flush,
        show_steps(native_visible)[0] == OverlayStep::SetAlpha(0),
        stop_steps()[0] == OverlayStep::SetAlpha(0),
{
}

/// After the end of a session the window is neither shown nor staged; showing it is possible at
/// once and stages it on the way.
pub proof fn stopping_leaves_nothing_on_the_screen(native_visible: bool)
    ensures
        stop_steps().contains(OverlayStep::HideNative),
        stage_steps(native_visible) == show_steps(native_visible).take(stage_steps(native_visible).len() as int),
{
    assert(stop_steps()[2] == OverlayStep::HideNative);
    assert(stage_steps(native_visible) =~= show_steps(native_visible).take(
        stage_steps(native_visible).len() as int,
    ));
}

// ---------------------------------------------------------------------------------------
// Putting a picture into the window

/// How a picture is drawn.
#[derive(Clone, Copy, Debug, PartialEq, Eq, Structural)]
pub struct PresentPlan {
    pub window_w: i32,
    pub window_h: i32,
    pub x: i32,
    pub y: i32,
    pub w: i32,
    pub h: i32,
    /// Bars are left around the picture, so the window is painted black first.
    pub clear: bool,
    /// The picture has exactly its size in the window and is copied as it is.
    pub nearest: bool,
}

/// Half of the difference, towards zero.
pub open spec fn half_towards_zero(n: int) -> int {
    if n >= 0 {
        n / 2
    } else {
        -((-n) / 2)
    }
}

pub open spec fn plan_of(window: OverlayWindow, fitted_w: i32, fitted_h: i32, tex_w: i32, tex_h: i32) -> PresentPlan {
    let w = at_least_one(window.width);
    let h = at_least_one(window.height);
    PresentPlan {
        window_w: w,
        window_h: h,
        x: half_towards_zero(w - fitted_w) as i32,
        y: half_towards_zero(h - fitted_h) as i32,
        w: at_least_one(fitted_w),
        h: at_least_one(fitted_h),
        clear: !(half_towards_zero(w - fitted_w) == 0 && half_towards_zero(h - fitted_h) == 0 && fitted_w == w
            && fitted_h == h),
        nearest: tex_w == fitted_w && tex_h == fitted_h,
    }
}

impl OverlayWindow {
    /// Plans the drawing of a picture whose fitted size is given: it is centred, and the bars
    /// around it are painted only where there are any.
    pub fn present(&self, fitted_w: i32, fitted_h: i32, tex_w: i32, tex_h: i32) -> (plan: PresentPlan)
        requires
            0 <= fitted_w,
            0 <= fitted_h,
        ensures
            plan == plan_of(*self, fitted_w, fitted_h, tex_w, tex_h),
    {
        let window_w: i32 = one_or_more(self.width);
        let window_h: i32 = one_or_more(self.height);
        let x: i32 = if window_w >= fitted_w {
            (window_w - fitted_w) / 2
        } else {
            -((fitted_w - window_w) / 2)
        };
        let y: i32 = if window_h >= fitted_h {
            (window_h - fitted_h) / 2
        } else {
            -((fitted_h - window_h) / 2)
        };
        let covers = x == 0 && y == 0 && fitted_w == window_w && fitted_h == window_h;
        PresentPlan {
            window_w,
            window_h,
            x,
            y,
            w: one_or_more(fitted_w),
            h: one_or_more(fitted_h),
            clear: !covers,
            nearest: tex_w == fitted_w && tex_h == fitted_h,
        }
    }
}

/// A picture that fits lies within the window, with bars of equal width, to a pixel, on both
/// sides; and where no bars are painted it covers the whole window.
pub proof fn a_fitted_picture_is_centred(
    window: OverlayWindow,
    fitted_w: i32,
    fitted_h: i32,
    tex_w: i32,
    tex_h: i32,
)
    requires
        1 <= fitted_w <= at_least_one(window.width),
        1 <= fitted_h <= at_least_one(window.height),
    ensures
        ({
            let p = plan_of(window, fitted_w, fitted_h, tex_w, tex_h);
            let right = p.window_w - p.x - p.w;
            let below = p.window_h - p.y - p.h;
            &&& 0 <= p.x && 0 <= right - p.x <= 1
            &&& 0 <= p.y && 0 <= below - p.y <= 1
            &&& !p.clear ==> p.x == 0 && p.y == 0 && p.w == p.window_w && p.h == p.window_h
        }),
{
}

// ---------------------------------------------------------------------------------------
// The native window's messages and functions

pub const WM_ERASEBKGND: u32 = 0x0014;

pub const WM_NCHITTEST: u32 = 0x0084;

/// The answer that lets the pointer through.
pub const HTTRANSPARENT: isize = -1;

/// The answer to a message of the overlay: clicks go through, the background is never erased,
/// and everything else has its usual answer.
pub fn wndproc(message: u32) -> (reply: Option<isize>)
    ensures
        reply == (if message == WM_NCHITTEST {
            Some(HTTRANSPARENT)
        } else if message == WM_ERASEBKGND {
            Some(1)
        } else {
            None
        }),
{
    if message == WM_NCHITTEST {
        Some(HTTRANSPARENT)
    } else if message == WM_ERASEBKGND {
        Some(1)
    } else {
        None
    }
}

/// Some drivers give small numbers, or the largest one, for functions that they lack.
pub open spec fn is_function(address: usize) -> bool {
    address > 3 && address != usize::MAX
}

/// The address of a drawing function: the driver's own, else the one of the system library.
pub fn loader(driver: Option<usize>, library: Option<usize>) -> (address: Option<usize>)
    ensures
        address == (match driver {
            Some(address) if is_function(address) => Some(address),
            _ => library,
        }),
{
    match driver {
        Some(address) if address > 3 && address != usize::MAX => Some(address),
        _ => library,
    }
}

// ---------------------------------------------------------------------------------------
// What the steps are for

/// Before the overlay is seen it is put into the compositor's tree fully transparent, shown there
/// where it was hidden, and waited for; only then it becomes opaque, and that is waited for too.
pub proof fn the_overlay_is_seen_after_it_was_composed(native_visible: bool)
    ensures
        !native_visible ==> stage_steps(native_visible) == seq![
            OverlayStep::SetAlpha(0),
            OverlayStep::ShowWithoutActivation,
            OverlayStep::Flush,
        ],
        native_visible ==> stage_steps(native_visible) == seq![OverlayStep::SetAlpha(0), OverlayStep::Flush],
        show_steps(native_visible) == stage_steps(native_visible).push(OverlayStep::SetAlpha(255)).push(
            OverlayStep::Flush,
        ),
{
    assert(stage_steps(false) =~= seq![
        OverlayStep::SetAlpha(0),
        OverlayStep::ShowWithoutActivation,
        OverlayStep::Flush,
    ]);
    assert(stage_steps(true) =~= seq![OverlayStep::SetAlpha(0), OverlayStep::Flush]);
    assert(show_steps(native_visible) =~= stage_steps(native_visible).push(OverlayStep::SetAlpha(255)).push(
        OverlayStep::Flush,
    ));
}

/// At the end of a session the overlay goes for good: transparent first, then hidden, then off the
/// screen and as small as can be, and the compositor has seen it.
pub proof fn the_overlay_goes_for_good()
    ensures
        stop_steps() == seq![
            OverlayStep::SetAlpha(0),
            OverlayStep::Flush,
            OverlayStep::HideNative,
            OverlayStep::Place { x: -32000i32, y: -32000i32, w: 1, h: 1, topmost: false },
            OverlayStep::Flush,
        ],
{
}

/// Both buffers of the whole window are painted black while it cannot be seen.
pub proof fn both_buffers_are_painted_black(w: OverlayWindow)
    ensures
        blank_steps(w)[0] == OverlayStep::SetAlpha(0),
        blank_steps(w)[1] matches OverlayStep::Viewport { x, y, w: vw, h: vh } && x == 0 && y == 0 && (w.width >= 1 ==> vw
            == w.width) && (w.height >= 1 ==> vh == w.height) && vw >= 1 && vh >= 1,
        blank_steps(w)[2] == OverlayStep::ClearBlack && blank_steps(w)[3] == OverlayStep::SwapBuffers,
        blank_steps(w)[4] == OverlayStep::ClearBlack && blank_steps(w)[5] == OverlayStep::SwapBuffers,
        blank_steps(w).last() == OverlayStep::Flush,
{
}

/// A picture has the size that it was fitted to, in the middle of the window; the window is painted
/// black first unless the picture covers it, and the picture is copied as it is where it has exactly
/// its size.
pub proof fn a_picture_is_drawn_in_the_middle(
    window: OverlayWindow,
    fitted_w: i32,
    fitted_h: i32,
    tex_w: i32,
    tex_h: i32,
)
    requires
        window.width >= 1,
        window.height >= 1,
        1 <= fitted_w <= window.width,
        1 <= fitted_h <= window.height,
    ensures
        ({
            let p = plan_of(window, fitted_w, fitted_h, tex_w, tex_h);
            &&& p.window_w == window.width && p.window_h == window.height
            &&& p.w == fitted_w && p.h == fitted_h
            &&& 2 * p.x <= window.width - fitted_w <= 2 * p.x + 1
            &&& 2 * p.y <= window.height - fitted_h <= 2 * p.y + 1
            &&& p.clear <==> fitted_w != window.width || fitted_h != window.height
            &&& p.nearest <==> tex_w == fitted_w && tex_h == fitted_h
        }),
{
}

} // verus!
