//! How the program is started and how it ends.
use vstd::prelude::*;
use crate::chain::strip_prefix;
use crate::text::{eq_ignore_ascii_case, parse_unsigned, push_decimal, same_text};
use crate::text::{decimal, lower_text, unsigned_value};

verus! {

/// What this process is.
#[derive(Clone, Copy, Debug, PartialEq, Eq, Structural)]
pub enum LaunchMode {
    /// Free the cursor once and end.
    CursorRescue,
    /// Watch over the process with this number and clean up after it.
    Janitor { parent: u32 },
    /// The program itself.
    Normal,
}

pub open spec fn rescue_flag() -> Seq<char> {
    "--cursor-rescue"@
}

pub open spec fn janitor_flag() -> Seq<char> {
    "--cursor-janitor="@
}

pub open spec fn has_argument(args: Seq<String>, word: Seq<char>) -> bool {
    exists|i: int| 0 <= i < args.len() && (#[trigger] args[i])@ == word
}

/// What stands behind a prefix.
pub open spec fn behind(s: Seq<char>, prefix: Seq<char>) -> Option<Seq<char>> {
    if prefix.len() <= s.len() && s.take(prefix.len() as int) == prefix {
        Some(s.skip(prefix.len() as int))
    } else {
        None
    }
}

/// The process number that an argument names.
pub open spec fn janitor_parent(arg: Seq<char>) -> Option<nat> {
    match behind(arg, janitor_flag()) {
        Some(number) => unsigned_value(number, u32::MAX as nat),
        None => None,
    }
}

/// The first process number among the arguments.
pub open spec fn first_parent(args: Seq<String>) -> Option<nat>
    decreases args.len(),
{
    if args.len() == 0 {
        None
    } else {
        match first_parent(args.drop_last()) {
            Some(parent) => Some(parent),
            None => janitor_parent(args.last()@),
        }
    }
}

/// Whether a word is among the arguments.
pub fn argument_given(args: &[String], word: &str) -> (r: bool)
    ensures
        r == has_argument(args@, word@),
{
    let mut i: usize = 0;
    while i < args.len()
        invariant
            i <= args@.len(),
            forall|j: int| 0 <= j < i ==> (#[trigger] args@[j])@ != word@,
        decreases args@.len() - i,
    {
        if same_text(args[i].as_str(), word) {
            return true;
        }
        i += 1;
    }
    false
}

/// What this process is, by its arguments.
pub fn launch_mode(args: &[String]) -> (mode: LaunchMode)
    ensures
        match mode {
            LaunchMode::CursorRescue => has_argument(args@, rescue_flag()),
            LaunchMode::Janitor { parent } => !has_argument(args@, rescue_flag()) && first_parent(args@) == Some(
                parent as nat,
            ),
            LaunchMode::Normal => !has_argument(args@, rescue_flag()) && first_parent(args@) is None,
        },
{
    if argument_given(args, "--cursor-rescue") {
        return LaunchMode::CursorRescue;
    }
    let mut parent: Option<u32> = None;
    let mut i: usize = 0;
    proof {
        assert(args@.take(0) =~= Seq::empty());
    }
    while i < args.len()
        invariant
            i <= args@.len(),
            match parent {
                Some(p) => first_parent(args@.take(i as int)) == Some(p as nat),
                None => first_parent(args@.take(i as int)) is None,
            },
        decreases args@.len() - i,
    {
        proof {
            assert(args@.take(i + 1).drop_last() =~= args@.take(i as int));
            assert(args@.take(i + 1).last() == args@[i as int]);
        }
        if parent.is_none() {
            if let Some(number) = strip_prefix(args[i].as_str(), "--cursor-janitor=") {
                parent = match parse_unsigned(number.as_str(), u32::MAX as u64) {
                    Some(n) => Some(n as u32),
                    None => None,
                };
            }
        }
        i += 1;
    }
    proof {
        assert(args@.take(args@.len() as int) =~= args@);
    }
    match parent {
        Some(parent) => LaunchMode::Janitor { parent },
        None => LaunchMode::Normal,
    }
}

pub open spec fn first_behind(args: Seq<String>, prefix: Seq<char>) -> Option<Seq<char>>
    decreases args.len(),
{
    if args.len() == 0 {
        None
    } else {
        match first_behind(args.drop_last(), prefix) {
            Some(value) => Some(value),
            None => behind(args.last()@, prefix),
        }
    }
}

/// The value of the first argument with a prefix.
pub fn argument_value(args: &[String], prefix: &str) -> (r: Option<String>)
    ensures
        match r {
            Some(value) => first_behind(args@, prefix@) == Some(value@),
            None => first_behind(args@, prefix@) is None,
        },
{
    let mut found: Option<String> = None;
    let mut i: usize = 0;
    proof {
        assert(args@.take(0) =~= Seq::empty());
    }
    while i < args.len()
        invariant
            i <= args@.len(),
            match found {
                Some(value) => first_behind(args@.take(i as int), prefix@) == Some(value@),
                None => first_behind(args@.take(i as int), prefix@) is None,
            },
        decreases args@.len() - i,
    {
        proof {
            assert(args@.take(i + 1).drop_last() =~= args@.take(i as int));
            assert(args@.take(i + 1).last() == args@[i as int]);
        }
        if found.is_none() {
            found = strip_prefix(args[i].as_str(), prefix);
        }
        i += 1;
    }
    proof {
        assert(args@.take(args@.len() as int) =~= args@);
    }
    found
}

// ---------------------------------------------------------------------------------------
// Records

pub open spec fn truth(b: bool) -> Seq<char> {
    if b {
        "true"@
    } else {
        "false"@
    }
}

/// The record of a process that begins with the Vulkan route asked for.
pub fn process_entry_line(build: &str, result_sink: bool, pid: u32) -> (line: String)
    ensures
        line@ == "vulkan-production-glsl: phase=process-entry build="@ + build@ + " env=enabled result_sink="@ + truth(
            result_sink,
        ) + " pid="@ + decimal(pid as nat) + " singleton=not-checked vulkan_init=false"@,
{
    let mut line = String::from_str("vulkan-production-glsl: phase=process-entry build=");
    line.append(build);
    line.append(" env=enabled result_sink=");
    if result_sink {
        line.append("true");
    } else {
        line.append("false");
    }
    line.append(" pid=");
    push_decimal(&mut line, pid as u64);
    line.append(" singleton=not-checked vulkan_init=false");
    line
}

/// The record of a process that ends because another one runs.
pub fn already_running_line(build: &str, pid: u32) -> (line: String)
    ensures
        line@ == "vulkan-production-glsl: result=blocked reason=single-instance-already-running build="@ + build@
            + " pid="@ + decimal(pid as nat) + " action=close-existing-Neo-and-rerun vulkan_init=false"@,
{
    let mut line = String::from_str(
        "vulkan-production-glsl: result=blocked reason=single-instance-already-running build=",
    );
    line.append(build);
    line.append(" pid=");
    push_decimal(&mut line, pid as u64);
    line.append(" action=close-existing-Neo-and-rerun vulkan_init=false");
    line
}

/// Whether this process ends because another one runs; a process that only takes a screenshot
/// does not.
pub fn yields_to_other(first: bool, screenshot_test: bool) -> (r: bool)
    ensures
        r == (!first && !screenshot_test),
{
    !first && !screenshot_test
}

// ---------------------------------------------------------------------------------------
// The end

/// How long the end may take where the Vulkan route was asked for, in milliseconds.
pub const EXIT_WATCHDOG_MS: u64 = 4500;

/// One step of the end.
#[derive(Clone, Copy, Debug, PartialEq, Eq, Structural)]
pub enum ExitStep {
    RecordBegin,
    /// End the process by force after the time.
    StartWatchdog,
    HideTransitionPicture,
    UncloakGui,
    SaveSettings,
    SavePresets,
    ReleaseInput,
    PrepareOnepassExit,
    PrepareMultipassExit,
    ShutDownEngine,
    RecordEngineDown,
    StopHotkeys,
    RecordComplete,
}

/// What is known at the end.
#[derive(Clone, Copy, Debug, PartialEq, Eq, Structural)]
pub struct ExitFacts {
    /// The Vulkan route was asked for.
    pub onepass: bool,
    pub multipass: bool,
    pub gui_cloaked: bool,
    pub screenshot_test: bool,
}

pub open spec fn exit_if(condition: bool, step: ExitStep) -> Seq<ExitStep> {
    if condition {
        seq![step]
    } else {
        Seq::empty()
    }
}

pub open spec fn exit_steps(facts: ExitFacts) -> Seq<ExitStep> {
    Seq::<ExitStep>::empty() + exit_if(facts.onepass, ExitStep::RecordBegin) + exit_if(
        facts.onepass,
        ExitStep::StartWatchdog,
    ) + exit_if(true, ExitStep::HideTransitionPicture) + exit_if(facts.gui_cloaked, ExitStep::UncloakGui) + exit_if(
        !facts.screenshot_test,
        ExitStep::SaveSettings,
    ) + exit_if(!facts.screenshot_test, ExitStep::SavePresets) + exit_if(true, ExitStep::ReleaseInput) + exit_if(
        facts.onepass,
        ExitStep::PrepareOnepassExit,
    ) + exit_if(facts.multipass, ExitStep::PrepareMultipassExit) + exit_if(true, ExitStep::ShutDownEngine) + exit_if(
        facts.onepass,
        ExitStep::RecordEngineDown,
    ) + exit_if(true, ExitStep::ReleaseInput) + exit_if(true, ExitStep::StopHotkeys) + exit_if(
        facts.onepass,
        ExitStep::RecordComplete,
    )
}

fn push_exit(out: &mut Vec<ExitStep>, condition: bool, step: ExitStep)
    ensures
        final(out)@ == old(out)@ + exit_if(condition, step),
{
    if condition {
        out.push(step);
    }
    proof {
        assert(out@ =~= old(out)@ + exit_if(condition, step));
    }
}

/// The steps of the end, in order: what the program changed outside of itself is put back
/// before the slow parts end.
pub fn on_exit(facts: ExitFacts) -> (steps: Vec<ExitStep>)
    ensures
        steps@ == exit_steps(facts),
{
    let mut steps: Vec<ExitStep> = Vec::new();
    push_exit(&mut steps, facts.onepass, ExitStep::RecordBegin);
    push_exit(&mut steps, facts.onepass, ExitStep::StartWatchdog);
    push_exit(&mut steps, true, ExitStep::HideTransitionPicture);
    push_exit(&mut steps, facts.gui_cloaked, ExitStep::UncloakGui);
    push_exit(&mut steps, !facts.screenshot_test, ExitStep::SaveSettings);
    push_exit(&mut steps, !facts.screenshot_test, ExitStep::SavePresets);
    push_exit(&mut steps, true, ExitStep::ReleaseInput);
    push_exit(&mut steps, facts.onepass, ExitStep::PrepareOnepassExit);
    push_exit(&mut steps, facts.multipass, ExitStep::PrepareMultipassExit);
    push_exit(&mut steps, true, ExitStep::ShutDownEngine);
    push_exit(&mut steps, facts.onepass, ExitStep::RecordEngineDown);
    push_exit(&mut steps, true, ExitStep::ReleaseInput);
    push_exit(&mut steps, true, ExitStep::StopHotkeys);
    push_exit(&mut steps, facts.onepass, ExitStep::RecordComplete);
    steps
}

/// The pointer is free before the engine is shut down, and once more after it.
pub proof fn the_pointer_is_freed_on_both_sides(facts: ExitFacts)
    ensures
        exists|i: int, j: int, k: int|
            0 <= i < j < k < exit_steps(facts).len() && exit_steps(facts)[i] == ExitStep::ReleaseInput && exit_steps(
                facts,
            )[j] == ExitStep::ShutDownEngine && exit_steps(facts)[k] == ExitStep::ReleaseInput,
{
    let steps = exit_steps(facts);
    let i: int = (if facts.onepass { 2int } else { 0 }) + 1 + (if facts.gui_cloaked { 1int } else { 0 }) + (
    if facts.screenshot_test { 0int } else { 2 });
    let j: int = i + 1 + (if facts.onepass { 1int } else { 0 }) + (if facts.multipass { 1int } else { 0 });
    let k: int = j + 1 + (if facts.onepass { 1int } else { 0 });
    assert(steps[i] == ExitStep::ReleaseInput);
    assert(steps[j] == ExitStep::ShutDownEngine);
    assert(steps[k] == ExitStep::ReleaseInput);
}

/// Whether the current folder is the program's root: the program's own folder has no filters
/// beside it, and the current one has.
pub fn root_is_current_folder(own_has_shaders: bool, current_has_shaders: bool) -> (r: bool)
    ensures
        r == (!own_has_shaders && current_has_shaders),
{
    !own_has_shaders && current_has_shaders
}

/// The dialogs that are open from the start for a picture of them, and the name in the dialog
/// to save.
pub struct OpenedDialogs {
    pub filters: bool,
    pub hotkey: bool,
    pub save_as: bool,
    pub save_as_name: String,
}

pub fn opened_dialogs(mode: &str, active: &str) -> (r: OpenedDialogs)
    ensures
        r.filters == (lower_text(mode@) == lower_text("filters"@)),
        r.hotkey == (lower_text(mode@) == lower_text("hotkey"@)),
        r.save_as == (lower_text(mode@) == lower_text("save_as"@)),
        r.save_as_name@ == (if r.save_as {
            active@
        } else {
            Seq::empty()
        }),
{
    let save_as = eq_ignore_ascii_case(mode, "save_as");
    OpenedDialogs {
        filters: eq_ignore_ascii_case(mode, "filters"),
        hotkey: eq_ignore_ascii_case(mode, "hotkey"),
        save_as,
        save_as_name: if save_as {
            active.to_owned()
        } else {
            String::new()
        },
    }
}

/// The target that is given from outside, if its window is there, and whether a capture of it
/// starts by itself.
pub fn given_target(hwnd: Option<isize>, valid: bool, start: bool) -> (r: (isize, bool))
    ensures
        r.0 == (match hwnd {
            Some(hwnd) if valid => hwnd,
            _ => 0,
        }),
        r.1 == (r.0 != 0 && start),
{
    let target: isize = match hwnd {
        Some(hwnd) => if valid {
            hwnd
        } else {
            0
        },
        None => 0,
    };
    (target, target != 0 && start)
}

// ---------------------------------------------------------------------------------------
// What the arguments and the end are for

/// What stands behind a prefix is the rest of the argument.
pub proof fn a_value_stands_behind_its_prefix(prefix: Seq<char>, value: Seq<char>, arg: Seq<char>)
    ensures
        behind(prefix + value, prefix) == Some(value),
        behind(arg, prefix) matches Some(rest) ==> arg == prefix + rest,
{
    assert((prefix + value).take(prefix.len() as int) =~= prefix);
    assert((prefix + value).skip(prefix.len() as int) =~= value);
    if behind(arg, prefix) is Some {
        assert(arg =~= prefix + arg.skip(prefix.len() as int));
    }
}

/// The first argument that counts is taken, and those behind it change nothing.
pub proof fn the_first_argument_counts(args: Seq<String>, next: String, prefix: Seq<char>)
    ensures
        first_behind(args, prefix) is Some ==> first_behind(args.push(next), prefix) == first_behind(args, prefix),
        first_behind(args, prefix) is None ==> first_behind(args.push(next), prefix) == behind(next@, prefix),
        first_behind(Seq::empty(), prefix) is None,
        first_parent(args) is Some ==> first_parent(args.push(next)) == first_parent(args),
        first_parent(args) is None ==> first_parent(args.push(next)) == (match behind(next@, "--cursor-janitor="@) {
            Some(number) => unsigned_value(number, u32::MAX as nat),
            None => None,
        }),
        first_parent(Seq::empty()) is None,
        has_argument(args.push(next), prefix) <==> has_argument(args, prefix) || next@ == prefix,
{
    let more = args.push(next);
    assert(more.drop_last() =~= args);
    if has_argument(args, prefix) {
        let i = choose|i: int| 0 <= i < args.len() && (#[trigger] args[i])@ == prefix;
        assert(more[i]@ == prefix);
    }
    assert(more[args.len() as int] == next);
    if has_argument(more, prefix) {
        let i = choose|i: int| 0 <= i < more.len() && (#[trigger] more[i])@ == prefix;
        if i < args.len() {
            assert(args[i]@ == prefix);
        }
    }
}

/// With everything to be done the end goes this way, from the record of its beginning to that of its
/// end; without the extra route and with nothing hidden only the common steps are left; and a test
/// saves nothing.
pub proof fn the_end_goes_its_way()
    ensures
        exit_steps(ExitFacts { onepass: true, multipass: true, gui_cloaked: true, screenshot_test: false }) == seq![
            ExitStep::RecordBegin,
            ExitStep::StartWatchdog,
            ExitStep::HideTransitionPicture,
            ExitStep::UncloakGui,
            ExitStep::SaveSettings,
            ExitStep::SavePresets,
            ExitStep::ReleaseInput,
            ExitStep::PrepareOnepassExit,
            ExitStep::PrepareMultipassExit,
            ExitStep::ShutDownEngine,
            ExitStep::RecordEngineDown,
            ExitStep::ReleaseInput,
            ExitStep::StopHotkeys,
            ExitStep::RecordComplete,
        ],
        exit_steps(ExitFacts { onepass: false, multipass: false, gui_cloaked: false, screenshot_test: false }) == seq![
            ExitStep::HideTransitionPicture,
            ExitStep::SaveSettings,
            ExitStep::SavePresets,
            ExitStep::ReleaseInput,
            ExitStep::ShutDownEngine,
            ExitStep::ReleaseInput,
            ExitStep::StopHotkeys,
        ],
        exit_steps(ExitFacts { onepass: false, multipass: false, gui_cloaked: false, screenshot_test: true }) == seq![
            ExitStep::HideTransitionPicture,
            ExitStep::ReleaseInput,
            ExitStep::ShutDownEngine,
            ExitStep::ReleaseInput,
            ExitStep::StopHotkeys,
        ],
{
    assert(exit_steps(ExitFacts { onepass: true, multipass: true, gui_cloaked: true, screenshot_test: false }) =~= seq![
        ExitStep::RecordBegin,
        ExitStep::StartWatchdog,
        ExitStep::HideTransitionPicture,
        ExitStep::UncloakGui,
        ExitStep::SaveSettings,
        ExitStep::SavePresets,
        ExitStep::ReleaseInput,
        ExitStep::PrepareOnepassExit,
        ExitStep::PrepareMultipassExit,
        ExitStep::ShutDownEngine,
        ExitStep::RecordEngineDown,
        ExitStep::ReleaseInput,
        ExitStep::StopHotkeys,
        ExitStep::RecordComplete,
    ]);
    assert(exit_steps(ExitFacts { onepass: false, multipass: false, gui_cloaked: false, screenshot_test: false }) =~= seq![
        ExitStep::HideTransitionPicture,
        ExitStep::SaveSettings,
        ExitStep::SavePresets,
        ExitStep::ReleaseInput,
        ExitStep::ShutDownEngine,
        ExitStep::ReleaseInput,
        ExitStep::StopHotkeys,
    ]);
    assert(exit_steps(ExitFacts { onepass: false, multipass: false, gui_cloaked: false, screenshot_test: true }) =~= seq![
        ExitStep::HideTransitionPicture,
        ExitStep::ReleaseInput,
        ExitStep::ShutDownEngine,
        ExitStep::ReleaseInput,
        ExitStep::StopHotkeys,
    ]);
}

/// Every fact adds its own steps to the end and no others: how many there are says which.
pub proof fn every_fact_adds_its_steps(facts: ExitFacts)
    ensures
        exit_steps(facts).len() == 5 + (if facts.onepass { 5int } else { 0 }) + (if facts.multipass { 1int } else { 0 }) + (
        if facts.gui_cloaked { 1int } else { 0 }) + (if facts.screenshot_test { 0int } else { 2 }),
{
}

/// The words that make a process a helper.
pub proof fn helpers_are_told_by_their_words()
    ensures
        rescue_flag() == "--cursor-rescue"@,
        janitor_flag() == "--cursor-janitor="@,
        truth(true) == "true"@,
        truth(false) == "false"@,
{
}

} // verus!
