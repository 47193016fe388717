//! The options of the main window: what a change sets, and what the engine and the settings file
//! are told of it.
use vstd::prelude::*;
use crate::display::ScaleMode;
use crate::gpu::GpuAdapter;
use crate::presets::AspectCorrection;
use crate::presets::AspectCorrectionMode;
use crate::session::at_least_half;
use crate::session::autohide_delay;
use crate::session::clamp_fps_cap;
use crate::session::start_commands;
use crate::session::{EngineCommand, SourceOrigin, StartResolution, StartSettings};
use crate::session::{MAX_FPS_CAP, MIN_FPS_CAP};

verus! {

/// The options. Seconds, ratios and scales are the bits of 32-bit floating-point numbers.
#[derive(Clone, Copy, Debug, PartialEq, Eq, Structural)]
pub struct Options {
    pub scale_mode: ScaleMode,
    pub ratio: u32,
    /// The place of the filter for the last resize in the list of them.
    pub downscaler: usize,
    pub aspect: AspectCorrection,
    pub fps_cap_enabled: bool,
    pub fps_cap: u32,
    pub duplicate_frame_reduction: bool,
    pub smooth_pacing: bool,
    pub vsync: bool,
    pub interp_factor: u32,
    pub stats_on: bool,
    pub log_on: bool,
    pub gui_topmost: bool,
    pub panel_show: bool,
    pub cursor_autohide: bool,
    pub autohide_secs: u32,
    pub cursor_speed_fix: bool,
    pub run_as_admin: bool,
}

/// An option that was changed by hand.
#[derive(Clone, Copy, Debug, PartialEq, Eq, Structural)]
pub enum OptionChange {
    Display { mode: ScaleMode, ratio: u32 },
    Downscaler(usize),
    AspectEnabled(bool),
    AspectMode(AspectCorrectionMode),
    AspectScales { width: u32, height: u32 },
    FpsCapEnabled(bool),
    FpsCap(u32),
    DuplicateFrameReduction(bool),
    SmoothPacing(bool),
    Vsync(bool),
    InterpFactor(u32),
    Stats(bool),
    Log(bool),
    GuiTopmost(bool),
    PanelShow(bool),
    CursorAutohide(bool),
    AutohideSecs(u32),
    CursorSpeedFix(bool),
    RunAsAdmin(bool),
}

/// What is told of a change, and to whom.
#[derive(Clone, Copy, Debug, PartialEq, Eq, Structural)]
pub enum OptionCommand {
    SetDownscaler(usize),
    SetDuplicateFrameReduction(bool),
    SetSmoothPacing(bool),
    SetVsync(bool),
    SetInterpFactor(u32),
    SetInputOpts { autohide_secs: u32, speed_fix: bool },
    SetAspectCorrection(AspectCorrection),
    SetMode { mode: ScaleMode, ratio: u32 },
    /// The log file is opened or closed.
    SetFileLogging(bool),
    /// The timers are switched by the statistics and by what the log then wants.
    RefreshTimers,
    Save,
    /// The program starts again with more rights.
    Relaunch,
}

/// The options after a change.
pub open spec fn changed_options(o: Options, change: OptionChange) -> Options {
    match change {
        OptionChange::Display { mode, ratio } => Options { scale_mode: mode, ratio, ..o },
        OptionChange::Downscaler(k) => Options { downscaler: k, ..o },
        OptionChange::AspectEnabled(on) => Options { aspect: AspectCorrection { enabled: on, ..o.aspect }, ..o },
        OptionChange::AspectMode(mode) => Options { aspect: AspectCorrection { mode, ..o.aspect }, ..o },
        OptionChange::AspectScales { width, height } => Options {
            aspect: AspectCorrection { width_scale: width, height_scale: height, ..o.aspect },
            ..o
        },
        OptionChange::FpsCapEnabled(on) => Options { fps_cap_enabled: on, ..o },
        OptionChange::FpsCap(cap) => Options {
            fps_cap: if cap < MIN_FPS_CAP {
                MIN_FPS_CAP
            } else if cap > MAX_FPS_CAP {
                MAX_FPS_CAP
            } else {
                cap
            },
            ..o
        },
        OptionChange::DuplicateFrameReduction(on) => Options { duplicate_frame_reduction: on, ..o },
        OptionChange::SmoothPacing(on) => Options { smooth_pacing: on, ..o },
        OptionChange::Vsync(on) => Options { vsync: on, ..o },
        OptionChange::InterpFactor(factor) => Options { interp_factor: factor, ..o },
        OptionChange::Stats(on) => Options { stats_on: on, ..o },
        OptionChange::Log(on) => Options { log_on: on, ..o },
        OptionChange::GuiTopmost(on) => Options { gui_topmost: on, ..o },
        OptionChange::PanelShow(on) => Options { panel_show: on, ..o },
        OptionChange::CursorAutohide(on) => Options { cursor_autohide: on, ..o },
        OptionChange::AutohideSecs(secs) => Options { autohide_secs: secs, ..o },
        OptionChange::CursorSpeedFix(on) => Options { cursor_speed_fix: on, ..o },
        OptionChange::RunAsAdmin(on) => Options { run_as_admin: on, ..o },
    }
}

/// What the engine is told of the pointer.
pub open spec fn input_command(o: Options) -> OptionCommand {
    OptionCommand::SetInputOpts {
        autohide_secs: if o.cursor_autohide {
            at_least_half(o.autohide_secs)
        } else {
            0
        },
        speed_fix: o.cursor_speed_fix,
    }
}

/// What a change is told by itself, given the options after it.
pub open spec fn direct_commands(o: Options, change: OptionChange, running: bool, elevated: bool) -> Seq<OptionCommand> {
    match change {
        OptionChange::Downscaler(k) => seq![OptionCommand::SetDownscaler(k)],
        OptionChange::AspectEnabled(_) | OptionChange::AspectMode(_) | OptionChange::AspectScales { .. } => if running {
            seq![OptionCommand::SetAspectCorrection(o.aspect)]
        } else {
            seq![]
        },
        OptionChange::DuplicateFrameReduction(on) => seq![OptionCommand::SetDuplicateFrameReduction(on)],
        OptionChange::SmoothPacing(on) => seq![OptionCommand::SetSmoothPacing(on)],
        OptionChange::Vsync(on) => seq![OptionCommand::SetVsync(on)],
        OptionChange::InterpFactor(factor) => seq![OptionCommand::SetInterpFactor(factor)],
        OptionChange::Stats(_) => seq![OptionCommand::RefreshTimers],
        OptionChange::Log(on) => seq![OptionCommand::SetFileLogging(on), OptionCommand::RefreshTimers],
        OptionChange::CursorAutohide(_) | OptionChange::AutohideSecs(_) | OptionChange::CursorSpeedFix(_) => seq![
            input_command(o),
        ],
        OptionChange::RunAsAdmin(on) => if on && !elevated {
            seq![OptionCommand::Save, OptionCommand::Relaunch]
        } else {
            seq![OptionCommand::Save]
        },
        _ => seq![],
    }
}

/// All that a change is told: its own commands, then the settings are saved, and a running capture
/// takes over how it is shown.
pub open spec fn option_commands(o: Options, change: OptionChange, running: bool, elevated: bool) -> Seq<OptionCommand> {
    direct_commands(o, change, running, elevated).push(OptionCommand::Save) + (if running {
        seq![OptionCommand::SetMode { mode: o.scale_mode, ratio: o.ratio }]
    } else {
        seq![]
    })
}

impl Options {
    /// The options with the one that was changed.
    fn with(self, change: OptionChange) -> (o: Options)
        ensures
            o == changed_options(self, change),
    {
        match change {
            OptionChange::Display { mode, ratio } => Options { scale_mode: mode, ratio, ..self },
            OptionChange::Downscaler(k) => Options { downscaler: k, ..self },
            OptionChange::AspectEnabled(on) => Options {
                aspect: AspectCorrection { enabled: on, ..self.aspect },
                ..self
            },
            OptionChange::AspectMode(mode) => Options { aspect: AspectCorrection { mode, ..self.aspect }, ..self },
            OptionChange::AspectScales { width, height } => Options {
                aspect: AspectCorrection { width_scale: width, height_scale: height, ..self.aspect },
                ..self
            },
            OptionChange::FpsCapEnabled(on) => Options { fps_cap_enabled: on, ..self },
            OptionChange::FpsCap(cap) => Options { fps_cap: clamp_fps_cap(cap), ..self },
            OptionChange::DuplicateFrameReduction(on) => Options { duplicate_frame_reduction: on, ..self },
            OptionChange::SmoothPacing(on) => Options { smooth_pacing: on, ..self },
            OptionChange::Vsync(on) => Options { vsync: on, ..self },
            OptionChange::InterpFactor(factor) => Options { interp_factor: factor, ..self },
            OptionChange::Stats(on) => Options { stats_on: on, ..self },
            OptionChange::Log(on) => Options { log_on: on, ..self },
            OptionChange::GuiTopmost(on) => Options { gui_topmost: on, ..self },
            OptionChange::PanelShow(on) => Options { panel_show: on, ..self },
            OptionChange::CursorAutohide(on) => Options { cursor_autohide: on, ..self },
            OptionChange::AutohideSecs(secs) => Options { autohide_secs: secs, ..self },
            OptionChange::CursorSpeedFix(on) => Options { cursor_speed_fix: on, ..self },
            OptionChange::RunAsAdmin(on) => Options { run_as_admin: on, ..self },
        }
    }

    /// What the change is told by itself.
    fn told_directly(&self, change: OptionChange, running: bool, elevated: bool) -> (commands: Vec<OptionCommand>)
        ensures
            commands@ == direct_commands(*self, change, running, elevated),
    {
        match change {
            OptionChange::Downscaler(k) => vec![OptionCommand::SetDownscaler(k)],
            OptionChange::AspectEnabled(_) | OptionChange::AspectMode(_) | OptionChange::AspectScales { .. } => {
                if running {
                    vec![OptionCommand::SetAspectCorrection(self.aspect)]
                } else {
                    Vec::new()
                }
            },
            OptionChange::DuplicateFrameReduction(on) => vec![OptionCommand::SetDuplicateFrameReduction(on)],
            OptionChange::SmoothPacing(on) => vec![OptionCommand::SetSmoothPacing(on)],
            OptionChange::Vsync(on) => vec![OptionCommand::SetVsync(on)],
            OptionChange::InterpFactor(factor) => vec![OptionCommand::SetInterpFactor(factor)],
            OptionChange::Stats(_) => vec![OptionCommand::RefreshTimers],
            OptionChange::Log(on) => vec![OptionCommand::SetFileLogging(on), OptionCommand::RefreshTimers],
            OptionChange::CursorAutohide(_) | OptionChange::AutohideSecs(_) | OptionChange::CursorSpeedFix(_) => {
                let autohide_secs: u32 = autohide_delay(self.cursor_autohide, self.autohide_secs);
                vec![OptionCommand::SetInputOpts { autohide_secs, speed_fix: self.cursor_speed_fix }]
            },
            OptionChange::RunAsAdmin(on) => {
                if on && !elevated {
                    vec![OptionCommand::Save, OptionCommand::Relaunch]
                } else {
                    vec![OptionCommand::Save]
                }
            },
            _ => Vec::new(),
        }
    }

    /// Takes over a change. The engine hears of it whether a capture runs or not, but for what only
    /// a capture has: its shape and its place. `elevated` says that the program has the rights that
    /// it could ask for.
    pub fn change(&mut self, change: OptionChange, running: bool, elevated: bool) -> (commands: Vec<OptionCommand>)
        ensures
            *final(self) == changed_options(*old(self), change),
            commands@ == option_commands(*final(self), change, running, elevated),
    {
        *self = self.with(change);
        let mut commands = self.told_directly(change, running, elevated);
        commands.push(OptionCommand::Save);
        if running {
            commands.push(OptionCommand::SetMode { mode: self.scale_mode, ratio: self.ratio });
        }
        commands
    }
}

/// No change is lost: the settings are saved after it, once it is told. A program that starts again
/// with more rights has saved the wish before.
pub proof fn every_change_is_saved(o: Options, change: OptionChange, running: bool, elevated: bool)
    ensures
        option_commands(o, change, running, elevated).contains(OptionCommand::Save),
        ({
            let commands = option_commands(o, change, running, elevated);
            forall|i: int|
                0 <= i < commands.len() && commands[i] == OptionCommand::Relaunch ==> 0 < i && #[trigger] commands[i
                    - 1] == OptionCommand::Save
        }),
        !running ==> option_commands(o, change, running, elevated).last() == OptionCommand::Save,
{
    let commands = option_commands(o, change, running, elevated);
    let n = direct_commands(o, change, running, elevated).len() as int;
    assert(commands[n] == OptionCommand::Save);
}

/// The options of a start are those that a change told the engine last.
pub open spec fn same_options(o: Options, settings: StartSettings) -> bool {
    &&& settings.cursor_autohide == o.cursor_autohide
    &&& settings.autohide_secs == o.autohide_secs
    &&& settings.cursor_speed_fix == o.cursor_speed_fix
    &&& settings.interp_factor == o.interp_factor
    &&& settings.vsync == o.vsync
    &&& settings.smooth_pacing == o.smooth_pacing
    &&& settings.duplicate_frame_reduction == o.duplicate_frame_reduction
    &&& settings.scale_mode == o.scale_mode
    &&& settings.ratio == o.ratio
    &&& settings.aspect == o.aspect
}

/// A change and a start say the same to the engine: starting with the options leaves the engine
/// with the values that changing each of them would have told it.
pub proof fn a_start_repeats_the_options(
    o: Options,
    source: SourceOrigin,
    settings: StartSettings,
    plan: StartResolution,
    adapters: Seq<GpuAdapter>,
    render: Option<u64>,
)
    requires
        same_options(o, settings),
    ensures
        ({
            let commands = start_commands(source, settings, plan, adapters, render);
            &&& input_command(o) matches OptionCommand::SetInputOpts { autohide_secs, speed_fix }
                && commands.contains(EngineCommand::SetInputOpts { autohide_secs, speed_fix })
            &&& commands.contains(EngineCommand::SetInterpFactor(o.interp_factor))
            &&& commands.contains(EngineCommand::SetVsync(o.vsync))
            &&& commands.contains(EngineCommand::SetSmoothPacing(o.smooth_pacing))
            &&& commands.contains(EngineCommand::SetDuplicateFrameReduction(o.duplicate_frame_reduction))
            &&& commands.last() matches EngineCommand::Start(start) && start.scale_mode == o.scale_mode
                && start.ratio == o.ratio && start.aspect == o.aspect
        }),
{
    let commands = start_commands(source, settings, plan, adapters, render);
    assert(commands[0] is SetInputOpts);
    assert(commands[1] == EngineCommand::SetInterpFactor(o.interp_factor));
    assert(commands[3] == EngineCommand::SetVsync(o.vsync));
    assert(commands[4] == EngineCommand::SetSmoothPacing(o.smooth_pacing));
    assert(commands[5] == EngineCommand::SetDuplicateFrameReduction(o.duplicate_frame_reduction));
}

// ---------------------------------------------------------------------------------------
// What a change is for

/// A change sets the option that it names to the value that it brings, the limit of the frame rate
/// within its range; no other option is touched.
pub proof fn a_change_sets_its_own_option(o: Options, change: OptionChange)
    ensures
        ({
            let n = changed_options(o, change);
            &&& n.scale_mode == (match change { OptionChange::Display { mode, .. } => mode, _ => o.scale_mode })
            &&& n.ratio == (match change { OptionChange::Display { ratio, .. } => ratio, _ => o.ratio })
            &&& n.downscaler == (match change { OptionChange::Downscaler(k) => k, _ => o.downscaler })
            &&& n.aspect.enabled == (match change { OptionChange::AspectEnabled(on) => on, _ => o.aspect.enabled })
            &&& n.aspect.mode == (match change { OptionChange::AspectMode(mode) => mode, _ => o.aspect.mode })
            &&& n.aspect.width_scale == (match change {
                OptionChange::AspectScales { width, .. } => width,
                _ => o.aspect.width_scale,
            })
            &&& n.aspect.height_scale == (match change {
                OptionChange::AspectScales { height, .. } => height,
                _ => o.aspect.height_scale,
            })
            &&& n.fps_cap_enabled == (match change { OptionChange::FpsCapEnabled(on) => on, _ => o.fps_cap_enabled })
            &&& !(change is FpsCap) ==> n.fps_cap == o.fps_cap
            &&& change matches OptionChange::FpsCap(cap) ==> 5 <= n.fps_cap <= 240 && (5 <= cap <= 240 ==> n.fps_cap
                == cap) && (cap < 5 ==> n.fps_cap == 5) && (cap > 240 ==> n.fps_cap == 240)
            &&& n.duplicate_frame_reduction == (match change {
                OptionChange::DuplicateFrameReduction(on) => on,
                _ => o.duplicate_frame_reduction,
            })
            &&& n.smooth_pacing == (match change { OptionChange::SmoothPacing(on) => on, _ => o.smooth_pacing })
            &&& n.vsync == (match change { OptionChange::Vsync(on) => on, _ => o.vsync })
            &&& n.interp_factor == (match change { OptionChange::InterpFactor(f) => f, _ => o.interp_factor })
            &&& n.stats_on == (match change { OptionChange::Stats(on) => on, _ => o.stats_on })
            &&& n.log_on == (match change { OptionChange::Log(on) => on, _ => o.log_on })
            &&& n.gui_topmost == (match change { OptionChange::GuiTopmost(on) => on, _ => o.gui_topmost })
            &&& n.panel_show == (match change { OptionChange::PanelShow(on) => on, _ => o.panel_show })
            &&& n.cursor_autohide == (match change { OptionChange::CursorAutohide(on) => on, _ => o.cursor_autohide })
            &&& n.autohide_secs == (match change { OptionChange::AutohideSecs(secs) => secs, _ => o.autohide_secs })
            &&& n.cursor_speed_fix == (match change {
                OptionChange::CursorSpeedFix(on) => on,
                _ => o.cursor_speed_fix,
            })
            &&& n.run_as_admin == (match change { OptionChange::RunAsAdmin(on) => on, _ => o.run_as_admin })
        }),
{
}

/// The engine hears of a change with the value that it brings, first of all; a running capture
/// hears of its shape and, last, of how it is shown; and only the wish for more rights, where they
/// are missing, starts the program again.
pub proof fn the_engine_hears_of_a_change(o: Options, change: OptionChange, running: bool, elevated: bool)
    ensures
        ({
            let c = option_commands(o, change, running, elevated);
            &&& change matches OptionChange::Downscaler(k) ==> c[0] == OptionCommand::SetDownscaler(k)
            &&& change matches OptionChange::DuplicateFrameReduction(on) ==> c[0]
                == OptionCommand::SetDuplicateFrameReduction(on)
            &&& change matches OptionChange::SmoothPacing(on) ==> c[0] == OptionCommand::SetSmoothPacing(on)
            &&& change matches OptionChange::Vsync(on) ==> c[0] == OptionCommand::SetVsync(on)
            &&& change matches OptionChange::InterpFactor(f) ==> c[0] == OptionCommand::SetInterpFactor(f)
            &&& change is Stats ==> c[0] == OptionCommand::RefreshTimers
            &&& change matches OptionChange::Log(on) ==> c[0] == OptionCommand::SetFileLogging(on) && c[1]
                == OptionCommand::RefreshTimers
            &&& change is CursorAutohide || change is AutohideSecs || change is CursorSpeedFix ==> (
            c[0] matches OptionCommand::SetInputOpts { autohide_secs, speed_fix } && speed_fix == o.cursor_speed_fix && (
            !o.cursor_autohide ==> autohide_secs == 0) && (o.cursor_autohide && 0x3f00_0000 <= o.autohide_secs
                <= 0x7f80_0000 ==> autohide_secs == o.autohide_secs) && (o.cursor_autohide ==> autohide_secs
                >= 0x3f00_0000))
            &&& (change is AspectEnabled || change is AspectMode || change is AspectScales) && running ==> c[0]
                == OptionCommand::SetAspectCorrection(o.aspect)
            &&& running ==> c.last() == (OptionCommand::SetMode { mode: o.scale_mode, ratio: o.ratio })
            &&& !running ==> c.last() == OptionCommand::Save
            &&& (exists|i: int| 0 <= i < c.len() && #[trigger] c[i] == OptionCommand::Relaunch) <==> change
                == OptionChange::RunAsAdmin(true) && !elevated
        }),
{
    let c = option_commands(o, change, running, elevated);
    if change == OptionChange::RunAsAdmin(true) && !elevated {
        assert(c[1] == OptionCommand::Relaunch);
    }
}

} // verus!
