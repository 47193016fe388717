//! The surface that keeps the compositor awake. Some drivers show a full-screen overlay without
//! the windows above it unless one more rendered surface lies over it; that surface lies under
//! the panel, which covers it, and it is there only while the main window is not topmost itself.
use vstd::prelude::*;
use crate::actions::{Action, Rect, WindowFacts, is_live, live, provided, push_if};
use crate::topmost::{GuiTopmost, StackFacts};

verus! {

/// The surface is wanted: a capture runs, the main window is not topmost or is about to let go,
/// and the panel is on the screen or about to be.
pub open spec fn active(gui: GuiTopmost, facts: StackFacts, reveal_pending: bool) -> bool {
    facts.running && (!gui.topmost || gui.off_pending) && facts.overlay.handle != 0 && facts.overlay.valid && is_live(
        facts.panel,
    ) && facts.panel_visible && facts.panel_show && (facts.panel.visible || reveal_pending)
}

pub fn anchor_active(gui: GuiTopmost, facts: StackFacts, reveal_pending: bool) -> (r: bool)
    ensures
        r == active(gui, facts, reveal_pending),
{
    facts.running && (!gui.topmost || gui.off_pending) && facts.overlay.handle != 0 && facts.overlay.valid && live(
        facts.panel,
    ) && facts.panel_visible && facts.panel_show && (facts.panel.visible || reveal_pending)
}

/// A staged letting go needs no surface any more.
pub open spec fn unneeded(gui: GuiTopmost, facts: StackFacts) -> bool {
    gui.off_pending && (!facts.running || facts.stopping || !(facts.overlay.handle != 0 && facts.overlay.valid)
        || !is_live(facts.panel) || !facts.panel_visible || !facts.panel_show)
}

/// Taking the surface away. The flag says whether a staged letting go is carried out, before
/// the actions.
pub fn withdraw_anchor(gui: GuiTopmost, facts: StackFacts) -> (r: (bool, Vec<Action>))
    ensures
        r.0 == unneeded(gui, facts),
        r.1@ == provided(is_live(facts.anchor), Action::SetVisible { window: facts.anchor.handle, on: false })
            + provided(is_live(facts.anchor), Action::SetTopmost { window: facts.anchor.handle, on: false }),
{
    let commit = gui.off_pending && (!facts.running || facts.stopping || !(facts.overlay.handle != 0
        && facts.overlay.valid) || !live(facts.panel) || !facts.panel_visible || !facts.panel_show);
    let there = live(facts.anchor);
    let mut actions: Vec<Action> = Vec::new();
    push_if(&mut actions, there, Action::SetVisible { window: facts.anchor.handle, on: false });
    push_if(&mut actions, there, Action::SetTopmost { window: facts.anchor.handle, on: false });
    proof {
        assert(actions@ =~= provided(there, Action::SetVisible { window: facts.anchor.handle, on: false }) + provided(
            there,
            Action::SetTopmost { window: facts.anchor.handle, on: false },
        ));
    }
    (commit, actions)
}

/// The margin between the panel's edge and the surface.
pub open spec fn inset_of(panel: Rect) -> int {
    if panel.w > 12 && panel.h > 12 {
        5
    } else {
        1
    }
}

pub open spec fn inner_length(length: int, inset: int) -> int {
    if length - 2 * inset < 2 {
        2
    } else {
        length - 2 * inset
    }
}

/// Where the surface lies: under the panel, away from its rounded corners.
pub fn anchor_rect(panel: Rect) -> (r: Rect)
    requires
        panel.x + 5 <= i32::MAX,
        panel.y + 5 <= i32::MAX,
        i32::MIN <= panel.w - 2,
        i32::MIN <= panel.h - 2,
    ensures
        r.x == panel.x + inset_of(panel),
        r.y == panel.y + inset_of(panel),
        r.w == inner_length(panel.w as int, inset_of(panel)),
        r.h == inner_length(panel.h as int, inset_of(panel)),
{
    let inset: i32 = if panel.w > 12 && panel.h > 12 {
        5
    } else {
        1
    };
    let w: i32 = panel.w - inset * 2;
    let h: i32 = panel.h - inset * 2;
    Rect {
        x: panel.x + inset,
        y: panel.y + inset,
        w: if w < 2 {
            2
        } else {
            w
        },
        h: if h < 2 {
            2
        } else {
            h
        },
    }
}

/// The surface lies inside the panel.
pub proof fn the_panel_covers_the_surface(panel: Rect)
    requires
        panel.w >= 4,
        panel.h >= 4,
    ensures
        0 < inset_of(panel),
        inset_of(panel) + inner_length(panel.w as int, inset_of(panel)) < panel.w,
        inset_of(panel) + inner_length(panel.h as int, inset_of(panel)) < panel.h,
{
}

/// The handle of the surface after one was drawn: a stale one is dropped, and a new one taken.
pub fn current_anchor(anchor: WindowFacts, found: Option<isize>) -> (handle: isize)
    ensures
        handle == (if anchor.handle != 0 && anchor.valid && anchor.own {
            anchor.handle
        } else {
            match found {
                Some(found) => found,
                None => 0,
            }
        }),
{
    if live(anchor) {
        return anchor.handle;
    }
    match found {
        Some(handle) => handle,
        None => 0,
    }
}

/// What is known of the surface's place.
#[derive(Clone, Copy, Debug, PartialEq, Eq, Structural)]
pub struct AnchorPlace {
    pub layered: bool,
    pub rect: Option<Rect>,
    pub topmost: bool,
    pub above_overlay: bool,
    pub below_panel: bool,
    pub visible: bool,
}

/// Getting the surface into its place: transparent while the panel is collapsed or not revealed
/// yet, and visible only after everything else.
pub open spec fn prepare_actions(
    facts: StackFacts,
    place: AnchorPlace,
    transparent: bool,
    target: Rect,
) -> Seq<Action> {
    let anchor = facts.anchor.handle;
    if !is_live(facts.anchor) {
        seq![Action::RepaintAfterMs { ms: 16 }]
    } else {
        Seq::<Action>::empty() + provided(
            transparent && !place.layered,
            Action::SetAlpha { window: anchor, alpha: 0 },
        ) + provided(place.rect != Some(target), Action::SetRect { window: anchor, rect: target }) + provided(
            !place.topmost,
            Action::SetTopmost { window: anchor, on: true },
        ) + provided(
            !place.above_overlay,
            Action::PlaceBelow { window: facts.overlay.handle, above: anchor },
        ) + provided(
            !place.below_panel,
            Action::PlaceBelow { window: anchor, above: facts.panel.handle },
        ) + provided(!place.visible, Action::SetVisible { window: anchor, on: true })
    }
}

pub fn prepare_anchor(facts: StackFacts, place: AnchorPlace, lurk: bool, reveal_pending: bool, target: Rect) -> (actions:
    Vec<Action>)
    ensures
        actions@ == prepare_actions(facts, place, lurk || reveal_pending, target),
{
    let anchor = facts.anchor.handle;
    let mut actions: Vec<Action> = Vec::new();
    if !live(facts.anchor) {
        actions.push(Action::RepaintAfterMs { ms: 16 });
        proof {
            assert(actions@ =~= seq![Action::RepaintAfterMs { ms: 16 }]);
        }
        return actions;
    }
    let transparent = lurk || reveal_pending;
    push_if(&mut actions, transparent && !place.layered, Action::SetAlpha { window: anchor, alpha: 0 });
    push_if(&mut actions, place.rect != Some(target), Action::SetRect { window: anchor, rect: target });
    push_if(&mut actions, !place.topmost, Action::SetTopmost { window: anchor, on: true });
    push_if(
        &mut actions,
        !place.above_overlay,
        Action::PlaceBelow { window: facts.overlay.handle, above: anchor },
    );
    push_if(
        &mut actions,
        !place.below_panel,
        Action::PlaceBelow { window: anchor, above: facts.panel.handle },
    );
    push_if(&mut actions, !place.visible, Action::SetVisible { window: anchor, on: true });
    actions
}

/// The surface becomes opaque: only under a panel that is on the screen and covers it.
pub fn settle_anchor(facts: StackFacts, place: AnchorPlace, lurk: bool, reveal_pending: bool) -> (actions: Vec<Action>)
    ensures
        ({
            let opaque = !lurk && !reveal_pending && facts.panel.visible && place.below_panel && place.layered;
            actions@ == provided(opaque, Action::SetOpaque { window: facts.anchor.handle }) + provided(
                opaque,
                Action::SyncComposition,
            )
        }),
{
    let opaque = !lurk && !reveal_pending && facts.panel.visible && place.below_panel && place.layered;
    let mut actions: Vec<Action> = Vec::new();
    push_if(&mut actions, opaque, Action::SetOpaque { window: facts.anchor.handle });
    push_if(&mut actions, opaque, Action::SyncComposition);
    proof {
        assert(actions@ =~= provided(opaque, Action::SetOpaque { window: facts.anchor.handle }) + provided(
            opaque,
            Action::SyncComposition,
        ));
    }
    actions
}

/// The surface is where it keeps the compositor awake, opaque and covered.
pub open spec fn in_place(place: AnchorPlace) -> bool {
    place.visible && place.above_overlay && place.below_panel && !place.layered
}

/// Whether a staged letting go of the main window is carried out now.
pub fn letting_go_may_commit(gui: GuiTopmost, place: AnchorPlace, lurk: bool, reveal_pending: bool) -> (r: bool)
    ensures
        r == (gui.off_pending && !lurk && !reveal_pending && in_place(place)),
{
    gui.off_pending && !lurk && !reveal_pending && place.visible && place.above_overlay && place.below_panel
        && !place.layered
}

/// The end of a frame with the surface in place: where a staged letting go was carried out the
/// compositor is waited for, and the cursor stays above everything.
pub fn finish_anchor(committed: bool) -> (actions: Vec<Action>)
    ensures
        actions@ == provided(committed, Action::SyncComposition) + seq![Action::KeepCursorOnTop],
{
    let mut actions: Vec<Action> = Vec::new();
    push_if(&mut actions, committed, Action::SyncComposition);
    actions.push(Action::KeepCursorOnTop);
    proof {
        assert(actions@ =~= provided(committed, Action::SyncComposition) + seq![Action::KeepCursorOnTop]);
    }
    actions
}

/// The handle of the surface after a frame: forgotten where the surface is not wanted, since a
/// surface that is not drawn is gone; kept where the panel's place is not known and nothing was
/// drawn; else the one that was drawn.
pub fn anchor_after_frame(
    active: bool,
    panel_rect: Option<Rect>,
    anchor: WindowFacts,
    found: Option<isize>,
) -> (handle: isize)
    ensures
        !active ==> handle == 0,
        active && panel_rect is None ==> handle == anchor.handle,
        active && panel_rect is Some && is_live(anchor) ==> handle == anchor.handle,
        active && panel_rect is Some && !is_live(anchor) ==> handle == (match found {
            Some(found) => found,
            None => 0,
        }),
{
    if !active {
        return 0;
    }
    match panel_rect {
        None => anchor.handle,
        Some(_) => current_anchor(anchor, found),
    }
}

/// A topmost main window and the surface exclude each other, but for the time that letting go
/// is staged.
pub proof fn a_topmost_window_needs_no_surface(gui: GuiTopmost, facts: StackFacts, reveal_pending: bool)
    requires
        gui.topmost,
        !gui.off_pending,
    ensures
        !active(gui, facts, reveal_pending),
{
}

/// A surface that is prepared under a panel that is not revealed is transparent before it is
/// visible, and becomes visible last.
pub proof fn the_surface_is_never_seen_first(facts: StackFacts, place: AnchorPlace, target: Rect)
    requires
        is_live(facts.anchor),
        !place.visible,
    ensures
        prepare_actions(facts, place, true, target).last() == (Action::SetVisible {
            window: facts.anchor.handle,
            on: true,
        }),
        !place.layered ==> prepare_actions(facts, place, true, target)[0] == (Action::SetAlpha {
            window: facts.anchor.handle,
            alpha: 0,
        }),
{
}

// ---------------------------------------------------------------------------------------
// What the surface is for

/// The surface is wanted exactly while a capture shows its overlay, the main window does not stand
/// above it or is about to let go, and the panel is there and to be seen.
pub proof fn the_surface_stands_in_for_the_window(gui: GuiTopmost, facts: StackFacts, reveal_pending: bool)
    ensures
        active(gui, facts, reveal_pending) <==> facts.running && (!gui.topmost || gui.off_pending)
            && facts.overlay.handle != 0 && facts.overlay.valid && facts.panel.handle != 0 && facts.panel.valid
            && facts.panel.own && facts.panel_visible && facts.panel_show && (facts.panel.visible || reveal_pending),
{
}

/// A staged letting go is carried out without the surface exactly where nothing is left that needs
/// one.
pub proof fn a_letting_go_without_need_is_carried_out(gui: GuiTopmost, facts: StackFacts)
    ensures
        unneeded(gui, facts) <==> gui.off_pending && !(facts.running && !facts.stopping && facts.overlay.handle != 0
            && facts.overlay.valid && facts.panel.handle != 0 && facts.panel.valid && facts.panel.own
            && facts.panel_visible && facts.panel_show),
{
}

/// The surface lies under the panel, five pixels inside it, or one where the panel is small, and is
/// two pixels wide and high at least.
pub proof fn the_surface_lies_under_the_panel(panel: Rect, length: int)
    ensures
        panel.w > 12 && panel.h > 12 ==> inset_of(panel) == 5,
        panel.w <= 12 || panel.h <= 12 ==> inset_of(panel) == 1,
        inner_length(length, inset_of(panel)) >= 2,
        length - 2 * inset_of(panel) >= 2 ==> inner_length(length, inset_of(panel)) == length - 2 * inset_of(panel),
{
}

/// What is put right about the surface is what is not right: its transparency before a reveal, its
/// place, its band, the overlay below it, the panel above it, and that it is there.
pub proof fn what_is_not_right_is_put_right(
    facts: StackFacts,
    place: AnchorPlace,
    transparent: bool,
    target: Rect,
    a: Action,
)
    requires
        is_live(facts.anchor),
    ensures
        prepare_actions(facts, place, transparent, target).contains(a) <==> (transparent && !place.layered && a == (
        Action::SetAlpha { window: facts.anchor.handle, alpha: 0 })) || (place.rect != Some(target) && a == (
        Action::SetRect { window: facts.anchor.handle, rect: target })) || (!place.topmost && a == (Action::SetTopmost {
            window: facts.anchor.handle,
            on: true,
        })) || (!place.above_overlay && a == (Action::PlaceBelow {
            window: facts.overlay.handle,
            above: facts.anchor.handle,
        })) || (!place.below_panel && a == (Action::PlaceBelow {
            window: facts.anchor.handle,
            above: facts.panel.handle,
        })) || (!place.visible && a == (Action::SetVisible { window: facts.anchor.handle, on: true })),
{
    broadcast use
        crate::actions::an_appended_action_is_there_when_it_should_be,
        crate::actions::an_empty_list_has_no_action;

}

/// A new surface is made in this order, so that it is never seen where it does not belong; where it
/// has no window yet the frame comes again soon.
pub proof fn a_new_surface_is_made_in_order(facts: StackFacts, place: AnchorPlace, target: Rect, transparent: bool)
    ensures
        !is_live(facts.anchor) ==> prepare_actions(facts, place, transparent, target) == seq![
            Action::RepaintAfterMs { ms: 16 },
        ],
        is_live(facts.anchor) && !place.layered && place.rect != Some(target) && !place.topmost && !place.above_overlay
            && !place.below_panel && !place.visible ==> prepare_actions(facts, place, true, target) == seq![
            Action::SetAlpha { window: facts.anchor.handle, alpha: 0 },
            Action::SetRect { window: facts.anchor.handle, rect: target },
            Action::SetTopmost { window: facts.anchor.handle, on: true },
            Action::PlaceBelow { window: facts.overlay.handle, above: facts.anchor.handle },
            Action::PlaceBelow { window: facts.anchor.handle, above: facts.panel.handle },
            Action::SetVisible { window: facts.anchor.handle, on: true },
        ],
{
    if is_live(facts.anchor) && !place.layered && place.rect != Some(target) && !place.topmost && !place.above_overlay
        && !place.below_panel && !place.visible {
        assert(prepare_actions(facts, place, true, target) =~= seq![
            Action::SetAlpha { window: facts.anchor.handle, alpha: 0 },
            Action::SetRect { window: facts.anchor.handle, rect: target },
            Action::SetTopmost { window: facts.anchor.handle, on: true },
            Action::PlaceBelow { window: facts.overlay.handle, above: facts.anchor.handle },
            Action::PlaceBelow { window: facts.anchor.handle, above: facts.panel.handle },
            Action::SetVisible { window: facts.anchor.handle, on: true },
        ]);
    }
}

/// A letting go waits until the surface is seen, above the overlay, below the panel and opaque.
pub proof fn a_letting_go_waits_for_the_surface(place: AnchorPlace)
    ensures
        in_place(place) <==> place.visible && place.above_overlay && place.below_panel && !place.layered,
{
}

} // verus!
