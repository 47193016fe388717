//! What a press of a global hotkey does before the window sees it. A stop that is asked for
//! while the window is minimised or hidden goes straight to the engine; everything else is
//! handed to the window, which is woken where it is in the background.
use vstd::prelude::*;
use crate::hotkeys::{parse_hotkey, HK_QUIT, HK_TOGGLE};
use crate::hotkeys::binding_keys;
use crate::text::{push_signed_decimal, signed_decimal};

verus! {

/// Whether the main window can be seen.
#[derive(Clone, Copy, Debug, PartialEq, Eq, Structural)]
pub enum BackgroundGui {
    Foreground,
    Minimized,
    Hidden,
}

/// The background state that the window itself has announced.
pub const INTENT_MINIMIZED: u32 = 1;
pub const INTENT_HIDDEN: u32 = 2;

/// One press of a global hotkey.
#[derive(Debug)]
pub struct HotkeyEvent {
    pub id: i32,
    pub binding: String,
    /// When the press arrived, in nanoseconds of a monotonic clock.
    pub received_at: u64,
    pub handled_directly: bool,
    pub background_gui: BackgroundGui,
    /// The foreground window at the time of the press, taken before a window in the
    /// background is woken.
    pub foreground_hwnd: isize,
    pub cursor_target_hwnd: isize,
}

/// Stop never needs the window: in the background the engine takes it directly.
pub fn direct_background_stop_allowed(background_gui: BackgroundGui, capture_active: bool) -> (r: bool)
    ensures
        r == (capture_active && background_gui != BackgroundGui::Foreground),
{
    capture_active && background_gui != BackgroundGui::Foreground
}

/// The state of the window. What the window has announced comes first; a minimised window may
/// also count as not visible, so that is looked at before visibility.
pub open spec fn background_of(intent: u32, gui_hwnd: isize, minimized: bool, visible: bool) -> BackgroundGui {
    if intent == INTENT_MINIMIZED {
        BackgroundGui::Minimized
    } else if intent == INTENT_HIDDEN {
        BackgroundGui::Hidden
    } else if gui_hwnd != 0 && minimized {
        BackgroundGui::Minimized
    } else if gui_hwnd != 0 && !visible {
        BackgroundGui::Hidden
    } else {
        BackgroundGui::Foreground
    }
}

pub fn classify_background(intent: u32, gui_hwnd: isize, minimized: bool, visible: bool) -> (r: BackgroundGui)
    ensures
        r == background_of(intent, gui_hwnd, minimized, visible),
{
    if intent == INTENT_MINIMIZED {
        BackgroundGui::Minimized
    } else if intent == INTENT_HIDDEN {
        BackgroundGui::Hidden
    } else if gui_hwnd != 0 && minimized {
        BackgroundGui::Minimized
    } else if gui_hwnd != 0 && !visible {
        BackgroundGui::Hidden
    } else {
        BackgroundGui::Foreground
    }
}

/// `binding` is the text under which hotkey `id` was registered: that of its first entry, or
/// the bare id if there is none.
pub open spec fn binding_text(keys: Seq<(i32, String)>, id: i32) -> Seq<char>
    decreases keys.len(),
{
    if keys.len() == 0 {
        "id:"@ + signed_decimal(id as int)
    } else if keys[0].0 == id {
        keys[0].1@
    } else {
        binding_text(keys.skip(1), id)
    }
}

pub fn binding_for_id(keys: &[(i32, String)], id: i32) -> (binding: String)
    ensures
        binding@ == binding_text(keys@, id),
{
    let mut i: usize = 0;
    assert(keys@.skip(0) =~= keys@);
    while i < keys.len()
        invariant
            i <= keys@.len(),
            binding_text(keys@, id) == binding_text(keys@.skip(i as int), id),
        decreases keys@.len() - i,
    {
        assert(keys@.skip(i as int)[0] == keys@[i as int]);
        if keys[i].0 == id {
            return keys[i].1.clone();
        }
        assert(keys@.skip(i as int).skip(1) =~= keys@.skip(i + 1));
        i += 1;
    }
    assert(keys@.skip(i as int) =~= Seq::empty());
    let mut binding = String::from_str("id:");
    push_signed_decimal(&mut binding, id);
    binding
}

/// What the hotkey thread does on a press, in order.
#[derive(Clone, Copy, Debug, PartialEq, Eq, Structural)]
pub enum HotkeyAction {
    /// End the floating panel's life on screen.
    QuiescePanel,
    /// Ask the engine to stop.
    RequestStop,
    /// Wake the window in the background, without showing it.
    WakeGui,
    /// Start the clock of the cursor janitor.
    NotifyQuit,
    /// Put the event into the queue.
    Publish,
    /// Ask the window for a frame.
    RequestFrame,
}

/// Whether a press is served without the window.
pub open spec fn serves_directly(id: i32, background: BackgroundGui, capture_active: bool) -> bool {
    id == HK_TOGGLE && capture_active && background != BackgroundGui::Foreground
}

pub open spec fn actions_for(id: i32, background: BackgroundGui, capture_active: bool) -> Seq<HotkeyAction> {
    (if serves_directly(id, background, capture_active) {
        seq![HotkeyAction::QuiescePanel, HotkeyAction::RequestStop, HotkeyAction::WakeGui]
    } else if background != BackgroundGui::Foreground {
        seq![HotkeyAction::WakeGui]
    } else {
        Seq::empty()
    }) + (if id == HK_QUIT {
        seq![HotkeyAction::NotifyQuit]
    } else {
        Seq::empty()
    }) + seq![HotkeyAction::Publish, HotkeyAction::RequestFrame]
}

/// The actions for a press, and whether it was served without the window.
pub fn dispatch_hotkey(id: i32, background: BackgroundGui, capture_active: bool) -> (r: (bool, Vec<HotkeyAction>))
    ensures
        r.0 == serves_directly(id, background, capture_active),
        r.1@ == actions_for(id, background, capture_active),
{
    let direct = id == HK_TOGGLE && direct_background_stop_allowed(background, capture_active);
    let mut actions: Vec<HotkeyAction> = Vec::new();
    if direct {
        actions.push(HotkeyAction::QuiescePanel);
        actions.push(HotkeyAction::RequestStop);
        actions.push(HotkeyAction::WakeGui);
    } else if background != BackgroundGui::Foreground {
        actions.push(HotkeyAction::WakeGui);
    }
    if id == HK_QUIT {
        actions.push(HotkeyAction::NotifyQuit);
    }
    actions.push(HotkeyAction::Publish);
    actions.push(HotkeyAction::RequestFrame);
    assert(actions@ =~= actions_for(id, background, capture_active));
    (direct, actions)
}

/// The engine is asked to stop exactly for a toggle that arrives in the background while a
/// capture runs; the window is woken exactly when it is in the background; quitting starts
/// the janitor's clock and nothing else does; and every press is published once.
pub proof fn background_stops_use_the_engine_lane(id: i32, background: BackgroundGui, capture_active: bool)
    ensures
        ({
            let actions = actions_for(id, background, capture_active);
            &&& actions.contains(HotkeyAction::RequestStop) <==> serves_directly(id, background, capture_active)
            &&& actions.contains(HotkeyAction::QuiescePanel) <==> serves_directly(
                id,
                background,
                capture_active,
            )
            &&& actions.contains(HotkeyAction::WakeGui) <==> background != BackgroundGui::Foreground
            &&& actions.contains(HotkeyAction::NotifyQuit) <==> id == HK_QUIT
            &&& actions.contains(HotkeyAction::Publish)
        }),
{
    let actions = actions_for(id, background, capture_active);
    if serves_directly(id, background, capture_active) {
        assert(actions[0] == HotkeyAction::QuiescePanel);
        assert(actions[1] == HotkeyAction::RequestStop);
        assert(actions[2] == HotkeyAction::WakeGui);
    } else if background != BackgroundGui::Foreground {
        assert(actions[0] == HotkeyAction::WakeGui);
    }
    if id == HK_QUIT {
        assert(actions[actions.len() - 3] == HotkeyAction::NotifyQuit);
    }
    assert(actions[actions.len() - 2] == HotkeyAction::Publish);
}

/// The event that a press publishes.
pub fn hotkey_event(
    keys: &[(i32, String)],
    id: i32,
    received_at: u64,
    background_gui: BackgroundGui,
    capture_active: bool,
    foreground_hwnd: isize,
    cursor_target_hwnd: isize,
) -> (event: HotkeyEvent)
    ensures
        event.id == id,
        event.binding@ == binding_text(keys@, id),
        event.received_at == received_at,
        event.handled_directly == serves_directly(id, background_gui, capture_active),
        event.background_gui == background_gui,
        event.foreground_hwnd == foreground_hwnd,
        event.cursor_target_hwnd == cursor_target_hwnd,
{
    HotkeyEvent {
        id,
        binding: binding_for_id(keys, id),
        received_at,
        handled_directly: id == HK_TOGGLE && direct_background_stop_allowed(background_gui, capture_active),
        background_gui,
        foreground_hwnd,
        cursor_target_hwnd,
    }
}

/// The positions of the keys that are not in force: the binding cannot be read, or the system
/// refused it.
pub open spec fn failed_positions(keys: Seq<(i32, String)>, refused: Seq<bool>) -> Seq<int>
    decreases keys.len(),
{
    if keys.len() == 0 {
        Seq::empty()
    } else {
        let before = failed_positions(keys.drop_last(), refused);
        if binding_keys(keys.last().1@) is Err || refused[keys.len() - 1] {
            before.push(keys.len() - 1)
        } else {
            before
        }
    }
}

/// The keys that could not be registered, in their order. `refused[i]` says whether the system
/// refused key `i`.
pub fn registration_failures(keys: &[(i32, String)], refused: &[bool]) -> (failures: Vec<(i32, String)>)
    requires
        refused@.len() == keys@.len(),
    ensures
        failures@ == failed_positions(keys@, refused@).map_values(|i: int| keys@[i]),
{
    let mut failures: Vec<(i32, String)> = Vec::new();
    let mut i: usize = 0;
    assert(keys@.take(0) =~= Seq::empty());
    assert(failures@ =~= failed_positions(keys@.take(0), refused@).map_values(|i: int| keys@[i]));
    while i < keys.len()
        invariant
            i <= keys@.len(),
            refused@.len() == keys@.len(),
            failures@ == failed_positions(keys@.take(i as int), refused@).map_values(|i: int| keys@[i]),
        decreases keys@.len() - i,
    {
        let ghost before = failures@;
        assert(keys@.take(i + 1).drop_last() =~= keys@.take(i as int));
        if parse_hotkey(keys[i].1.as_str()).is_none() || refused[i] {
            failures.push((keys[i].0, keys[i].1.clone()));
            assert(failures@ == before.push(keys@[i as int]));
        }
        assert(failures@ =~= failed_positions(keys@.take(i + 1), refused@).map_values(|i: int| keys@[i]));
        i += 1;
    }
    assert(keys@.take(i as int) =~= keys@);
    failures
}

/// The pause of an idle hotkey thread, in milliseconds.
pub const HOTKEY_IDLE_SLEEP_MS: u64 = 4;

/// What the hotkey thread does after it has emptied its message queue.
#[derive(Clone, Copy, Debug, PartialEq, Eq, Structural)]
pub enum PumpStep {
    Exit,
    Sleep,
    Again,
}

/// A stop request ends the thread; a queue that was empty is looked at again after a pause.
pub fn after_messages(stop_requested: bool, drained_message: bool) -> (step: PumpStep)
    ensures
        step == (if stop_requested {
            PumpStep::Exit
        } else if drained_message {
            PumpStep::Again
        } else {
            PumpStep::Sleep
        }),
{
    if stop_requested {
        PumpStep::Exit
    } else if drained_message {
        PumpStep::Again
    } else {
        PumpStep::Sleep
    }
}

/// The window is in the background when it was sent there, minimized or hidden, and when it is so
/// though nobody said; the wish goes before what is seen.
pub proof fn a_wish_goes_before_what_is_seen(intent: u32, gui_hwnd: isize, minimized: bool, visible: bool)
    ensures
        intent == 1 ==> background_of(intent, gui_hwnd, minimized, visible) == BackgroundGui::Minimized,
        intent == 2 ==> background_of(intent, gui_hwnd, minimized, visible) == BackgroundGui::Hidden,
        intent != 1 && intent != 2 && gui_hwnd == 0 ==> background_of(intent, gui_hwnd, minimized, visible)
            == BackgroundGui::Foreground,
        intent != 1 && intent != 2 && gui_hwnd != 0 ==> {
            &&& minimized ==> background_of(intent, gui_hwnd, minimized, visible) == BackgroundGui::Minimized
            &&& !minimized && !visible ==> background_of(intent, gui_hwnd, minimized, visible) == BackgroundGui::Hidden
            &&& !minimized && visible ==> background_of(intent, gui_hwnd, minimized, visible)
                == BackgroundGui::Foreground
        },
{
}

/// An event carries the text that its key was registered under: that of the first entry with its
/// number, and its bare number where there is none.
pub proof fn an_event_names_its_binding(first: (i32, String), keys: Seq<(i32, String)>, id: i32)
    ensures
        first.0 == id ==> binding_text(seq![first] + keys, id) == first.1@,
        first.0 != id ==> binding_text(seq![first] + keys, id) == binding_text(keys, id),
        binding_text(Seq::empty(), id) == "id:"@ + signed_decimal(id as int),
{
    assert((seq![first] + keys).skip(1) =~= keys);
}

/// A press is served without the window exactly where it is the toggle key, something runs and the
/// window is away; the panel goes before the stop is asked for, and the event is told last.
pub proof fn a_background_press_is_served_in_order(background: BackgroundGui, capture_active: bool, id: i32)
    ensures
        serves_directly(id, background, capture_active) <==> id == 1 && capture_active && background
            != BackgroundGui::Foreground,
        serves_directly(id, background, capture_active) ==> actions_for(id, background, capture_active)[0]
            == HotkeyAction::QuiescePanel && actions_for(id, background, capture_active)[1]
            == HotkeyAction::RequestStop && actions_for(id, background, capture_active)[2] == HotkeyAction::WakeGui,
        ({
            let actions = actions_for(id, background, capture_active);
            actions.last() == HotkeyAction::RequestFrame && actions[actions.len() - 2] == HotkeyAction::Publish
        }),
        background == BackgroundGui::Foreground && id != 2 ==> actions_for(id, background, capture_active).len() == 2,
{
}

/// A key is reported as not in force exactly where its binding cannot be read or the system refused
/// it; the reports keep the order of the keys.
pub proof fn refused_keys_are_reported(keys: Seq<(i32, String)>, next: (i32, String), refused: Seq<bool>)
    ensures
        binding_keys(next.1@) is Err || refused[keys.len() as int] ==> failed_positions(keys.push(next), refused)
            == failed_positions(keys, refused).push(keys.len() as int),
        binding_keys(next.1@) is Ok && !refused[keys.len() as int] ==> failed_positions(keys.push(next), refused)
            == failed_positions(keys, refused),
        failed_positions(Seq::empty(), refused).len() == 0,
{
    assert(keys.push(next).drop_last() =~= keys);
}

} // verus!
