//! Watching the floating panel and the surface behind it: what is wrong with them, and when it
//! is worth a line in the log.
use vstd::prelude::*;
use crate::actions::{Rect, Size};
use crate::panel::PANEL_SIZE_TOLERANCE;

verus! {

/// A frame of the panel that takes this long has stalled, in nanoseconds.
pub const DRAW_STALL_NS: u64 = 12_000_000;

/// So long without a frame is a stall too, in nanoseconds.
pub const HEARTBEAT_STALL_NS: u64 = 900_000_000;

/// The pause between two ordinary lines, in nanoseconds.
pub const TRACE_NS: u64 = 250_000_000;

/// A frame of the surface that takes this long has stalled, in nanoseconds.
pub const PRESENT_STALL_NS: u64 = 8_000_000;

/// The pause between two warnings about the surface, in nanoseconds.
pub const PRESENT_WARN_NS: u64 = 1_000_000_000;

/// The panel as the system sees it, beside what it should be.
#[derive(Clone, Copy, Debug, PartialEq, Eq, Structural)]
pub struct PanelDiagSnapshot {
    pub rect: Option<Rect>,
    pub expected_size: Size,
    pub effective_show: bool,
    pub lurk: bool,
    pub native_visible: bool,
    pub layered: bool,
    pub passthrough: bool,
    pub topmost: bool,
}

/// What else is known of a frame. The times are in nanoseconds.
#[derive(Clone, Copy, Debug, PartialEq, Eq, Structural)]
pub struct PanelFrame {
    /// The panel was to be on the screen when the frame began.
    pub begun_shown: bool,
    pub mirror_valid: bool,
    pub mirror_visible: bool,
    pub draw_ns: u64,
    pub gap_ns: u64,
}

/// What is wrong with the panel.
#[derive(Clone, Copy, Debug, PartialEq, Eq, Structural)]
pub struct PanelAnomalies {
    pub size: bool,
    pub visible: bool,
    pub layered: bool,
    pub passthrough: bool,
    pub topmost: bool,
    pub mirror: bool,
    pub draw_stall: bool,
    pub heartbeat_stall: bool,
}

pub open spec fn off_by(a: i32, b: i32) -> bool {
    a - b > PANEL_SIZE_TOLERANCE || b - a > PANEL_SIZE_TOLERANCE
}

/// A panel that is shown has its size, is on the screen and above the others, takes the
/// pointer, and is transparent exactly while it is collapsed; its picture is there exactly
/// while it is not.
pub open spec fn anomalies_of(s: PanelDiagSnapshot, frame: PanelFrame) -> PanelAnomalies {
    PanelAnomalies {
        size: s.effective_show && (s.rect matches Some(r) && (off_by(r.w, s.expected_size.w) || off_by(
            r.h,
            s.expected_size.h,
        ))),
        visible: frame.begun_shown && !s.native_visible,
        layered: s.effective_show && s.layered != s.lurk,
        passthrough: s.effective_show && s.passthrough,
        topmost: s.effective_show && !s.topmost,
        mirror: s.effective_show && (!frame.mirror_valid || frame.mirror_visible == s.lurk),
        draw_stall: frame.draw_ns >= DRAW_STALL_NS,
        heartbeat_stall: frame.gap_ns >= HEARTBEAT_STALL_NS,
    }
}

pub open spec fn any_anomaly(a: PanelAnomalies) -> bool {
    a.size || a.visible || a.layered || a.passthrough || a.topmost || a.mirror || a.draw_stall || a.heartbeat_stall
}

fn differs(a: i32, b: i32) -> (r: bool)
    ensures
        r == off_by(a, b),
{
    let d: i64 = a as i64 - b as i64;
    d > PANEL_SIZE_TOLERANCE as i64 || -d > PANEL_SIZE_TOLERANCE as i64
}

/// What is wrong with the panel in a frame.
pub fn panel_anomalies(s: PanelDiagSnapshot, frame: PanelFrame) -> (a: PanelAnomalies)
    ensures
        a == anomalies_of(s, frame),
{
    let size = match s.rect {
        Some(r) => differs(r.w, s.expected_size.w) || differs(r.h, s.expected_size.h),
        None => false,
    };
    PanelAnomalies {
        size: s.effective_show && size,
        visible: frame.begun_shown && !s.native_visible,
        layered: s.effective_show && s.layered != s.lurk,
        passthrough: s.effective_show && s.passthrough,
        topmost: s.effective_show && !s.topmost,
        mirror: s.effective_show && (!frame.mirror_valid || frame.mirror_visible == s.lurk),
        draw_stall: frame.draw_ns >= DRAW_STALL_NS,
        heartbeat_stall: frame.gap_ns >= HEARTBEAT_STALL_NS,
    }
}

/// What goes into the log for a frame.
#[derive(Clone, Copy, Debug, PartialEq, Eq, Structural)]
pub struct PanelLines {
    /// The panel is not as it was in the frame before.
    pub changed: bool,
    /// A line about the frame.
    pub trace: bool,
    /// A warning about what is wrong.
    pub warn: bool,
}

/// The watch over the panel.
#[derive(Clone, Copy, Debug, PartialEq, Eq, Structural)]
pub struct PanelWatch {
    pub last_frame: Option<u64>,
    pub last_snapshot: Option<PanelDiagSnapshot>,
    pub last_trace: Option<u64>,
    pub seq: u64,
}

pub open spec fn time_since(last: Option<u64>, now: u64) -> int {
    match last {
        Some(last) if now >= last => now - last,
        _ => 0,
    }
}

pub open spec fn trace_due(last: Option<u64>, now: u64) -> bool {
    last is None || time_since(last, now) >= TRACE_NS
}

pub open spec fn lines_of(watch: PanelWatch, s: PanelDiagSnapshot, frame: PanelFrame, now: u64) -> PanelLines {
    let changed = watch.last_snapshot != Some(s);
    let wrong = any_anomaly(anomalies_of(s, frame));
    PanelLines { changed, trace: changed || wrong || trace_due(watch.last_trace, now), warn: wrong }
}

fn elapsed_since(last: Option<u64>, now: u64) -> (r: u64)
    ensures
        r == time_since(last, now),
{
    match last {
        Some(last) => if now >= last {
            now - last
        } else {
            0
        },
        None => 0,
    }
}

impl PanelWatch {
    /// Nothing was seen yet.
    pub fn new() -> (watch: Self)
        ensures
            watch == (PanelWatch { last_frame: None, last_snapshot: None, last_trace: None, seq: 0 }),
    {
        PanelWatch { last_frame: None, last_snapshot: None, last_trace: None, seq: 0 }
    }

    /// A frame begins: the time since the one before, and none for the first.
    pub fn begin(&mut self, now: u64) -> (gap_ns: u64)
        ensures
            gap_ns == time_since(old(self).last_frame, now),
            *final(self) == (PanelWatch {
                last_frame: Some(now),
                seq: old(self).seq.wrapping_add(1),
                ..*old(self)
            }),
    {
        let gap: u64 = elapsed_since(self.last_frame, now);
        self.last_frame = Some(now);
        self.seq = self.seq.wrapping_add(1);
        gap
    }

    /// Without a capture nothing is watched, and the next frame is a first one.
    pub fn rest(&mut self)
        ensures
            *final(self) == (PanelWatch { last_frame: None, last_snapshot: None, ..*old(self) }),
    {
        self.last_frame = None;
        self.last_snapshot = None;
    }

    /// A frame ends: what goes into the log.
    pub fn end(&mut self, s: PanelDiagSnapshot, frame: PanelFrame, now: u64) -> (lines: PanelLines)
        ensures
            lines == lines_of(*old(self), s, frame, now),
            *final(self) == (PanelWatch {
                last_snapshot: Some(s),
                last_trace: if lines.trace {
                    Some(now)
                } else {
                    old(self).last_trace
                },
                ..*old(self)
            }),
    {
        let a = panel_anomalies(s, frame);
        let wrong = a.size || a.visible || a.layered || a.passthrough || a.topmost || a.mirror || a.draw_stall
            || a.heartbeat_stall;
        let changed = self.last_snapshot != Some(s);
        let due = match self.last_trace {
            None => true,
            Some(_) => elapsed_since(self.last_trace, now) >= TRACE_NS,
        };
        let trace = changed || wrong || due;
        self.last_snapshot = Some(s);
        if trace {
            self.last_trace = Some(now);
        }
        PanelLines { changed, trace, warn: wrong }
    }
}

/// The surface and the windows around it, as they were last told of.
#[derive(Clone, Copy, Debug, PartialEq, Eq, Structural)]
pub struct AnchorState {
    pub active: bool,
    pub anchor: isize,
    pub panel: isize,
    pub overlay: isize,
}

/// The watch over the surface.
#[derive(Clone, Copy, Debug, PartialEq, Eq, Structural)]
pub struct AnchorWatch {
    pub told: Option<AnchorState>,
    pub last_warn: Option<u64>,
}

impl AnchorWatch {
    /// Whether a line tells of the state: a new one is told, but not that a surface that never
    /// was there is gone.
    pub fn tell(&mut self, state: AnchorState) -> (line: bool)
        ensures
            line == (old(self).told != Some(state) && (state.active || state.anchor != 0)),
            *final(self) == (AnchorWatch { told: Some(state), ..*old(self) }),
    {
        let news = self.told != Some(state);
        self.told = Some(state);
        news && (state.active || state.anchor != 0)
    }

    /// The surface has another window.
    pub fn forget(&mut self)
        ensures
            *final(self) == (AnchorWatch { told: None, ..*old(self) }),
    {
        self.told = None;
    }

    /// Whether a slow frame is warned of: once a second at most.
    pub fn stalled(&mut self, present_ns: u64, now: u64) -> (warn: bool)
        ensures
            warn == (present_ns >= PRESENT_STALL_NS && (old(self).last_warn is None || time_since(
                old(self).last_warn,
                now,
            ) >= PRESENT_WARN_NS)),
            *final(self) == (if warn {
                AnchorWatch { last_warn: Some(now), ..*old(self) }
            } else {
                *old(self)
            }),
    {
        let due = match self.last_warn {
            None => true,
            Some(_) => elapsed_since(self.last_warn, now) >= PRESENT_WARN_NS,
        };
        let warn = present_ns >= PRESENT_STALL_NS && due;
        if warn {
            self.last_warn = Some(now);
        }
        warn
    }
}

/// A collapsed panel without its picture is as it should be; so is a bar with it.
pub proof fn a_sound_panel_gives_no_warning(s: PanelDiagSnapshot, frame: PanelFrame)
    requires
        s.effective_show,
        s.rect is None || (s.rect->0.w == s.expected_size.w && s.rect->0.h == s.expected_size.h),
        s.native_visible,
        s.topmost,
        !s.passthrough,
        s.layered == s.lurk,
        frame.mirror_valid,
        frame.mirror_visible == !s.lurk,
        frame.draw_ns < DRAW_STALL_NS,
        frame.gap_ns < HEARTBEAT_STALL_NS,
    ensures
        !any_anomaly(anomalies_of(s, frame)),
{
}

/// A panel that stays as it is and is sound is told of at most once in the pause.
pub proof fn a_quiet_panel_is_rarely_told_of(watch: PanelWatch, s: PanelDiagSnapshot, frame: PanelFrame, now: u64)
    requires
        watch.last_snapshot == Some(s),
        !any_anomaly(anomalies_of(s, frame)),
        watch.last_trace matches Some(last) && last <= now < last + TRACE_NS,
    ensures
        !lines_of(watch, s, frame, now).trace,
{
}

/// Each kind of trouble is told by its own sign: a wrong size by more than three pixels, a panel
/// that cannot be seen, the wrong transparency, a pointer that goes through, a place that is not
/// topmost, a picture that is missing or wrong, and a drawing or a pause that took too long.
pub proof fn trouble_is_told_by_its_signs(s: PanelDiagSnapshot, frame: PanelFrame)
    ensures
        ({
            let a = anomalies_of(s, frame);
            &&& a.size <==> s.effective_show && (s.rect matches Some(r) && (r.w - s.expected_size.w > 3
                || s.expected_size.w - r.w > 3 || r.h - s.expected_size.h > 3 || s.expected_size.h - r.h > 3))
            &&& a.visible <==> frame.begun_shown && !s.native_visible
            &&& a.layered <==> s.effective_show && s.layered != s.lurk
            &&& a.passthrough <==> s.effective_show && s.passthrough
            &&& a.topmost <==> s.effective_show && !s.topmost
            &&& a.mirror <==> s.effective_show && (!frame.mirror_valid || frame.mirror_visible == s.lurk)
            &&& a.draw_stall <==> frame.draw_ns >= 12_000_000
            &&& a.heartbeat_stall <==> frame.gap_ns >= 900_000_000
            &&& any_anomaly(a) <==> a.size || a.visible || a.layered || a.passthrough || a.topmost || a.mirror
                || a.draw_stall || a.heartbeat_stall
        }),
{
}

/// A line is written where something changed or is wrong, and otherwise only once in a while; a
/// warning exactly where something is wrong.
pub proof fn lines_are_written_with_reason(watch: PanelWatch, s: PanelDiagSnapshot, frame: PanelFrame, now: u64)
    ensures
        ({
            let lines = lines_of(watch, s, frame, now);
            &&& lines.changed <==> watch.last_snapshot != Some(s)
            &&& lines.warn <==> any_anomaly(anomalies_of(s, frame))
            &&& lines.changed || lines.warn ==> lines.trace
            &&& !lines.changed && !lines.warn ==> (lines.trace <==> watch.last_trace is None || (now
                >= watch.last_trace->0 && now - watch.last_trace->0 >= 250_000_000))
        }),
{
}

} // verus!
