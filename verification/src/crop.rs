//! Publishing crop edits. Dragging a margin changes it on nearly every frame; the engine sees
//! the changes at a bounded pace, the fixed-shape backend sees only the settled value, and the
//! settings are written once the gesture is over.
use vstd::prelude::*;
use crate::backend::CaptureCrop;

verus! {

/// The shortest time between two previews while a margin is dragged, in nanoseconds.
pub const LIVE_CROP_INTERVAL_NS: u64 = 33_000_000;

/// How long after an edit the settings are written, in nanoseconds.
pub const CROP_SAVE_DELAY_NS: u64 = 160_000_000;

/// How long the pointer must be up before the fixed-shape backend gets the crop, in nanoseconds.
pub const CROP_SETTLE_NS: u64 = 220_000_000;

/// The widest margin that can be set.
pub const CROP_MARGIN_MAX: u32 = 8192;

/// A margin from its control, brought into its range.
pub fn clamp_crop_margin(margin: u32) -> (r: u32)
    ensures
        r == (if margin > CROP_MARGIN_MAX {
            CROP_MARGIN_MAX
        } else {
            margin
        }),
{
    if margin > CROP_MARGIN_MAX {
        CROP_MARGIN_MAX
    } else {
        margin
    }
}

/// Crop edits that are still on their way.
#[derive(Clone, Copy, Debug, PartialEq, Eq, Structural)]
pub struct CropFlow {
    /// The newest value that no preview has shown yet.
    pub live_pending: Option<CaptureCrop>,
    pub live_last_sent: Option<u64>,
    /// When the settings are to be written.
    pub save_due: Option<u64>,
    /// The newest value for the fixed-shape backend.
    pub settled_pending: Option<CaptureCrop>,
    pub settled_due: Option<u64>,
}

pub open spec fn idle_flow() -> CropFlow {
    CropFlow {
        live_pending: None,
        live_last_sent: None,
        save_due: None,
        settled_pending: None,
        settled_due: None,
    }
}

/// What an edit or a poll has the caller do.
#[derive(Clone, Copy, Debug, PartialEq, Eq, Structural)]
pub struct CropOutput {
    /// A preview for the engine.
    pub preview: Option<CaptureCrop>,
    /// Write the settings.
    pub save: bool,
    /// The settled value for the engine.
    pub commit: Option<CaptureCrop>,
}

/// A preview may be sent: none was sent yet, or the last one is long enough ago.
pub open spec fn preview_due(last_sent: Option<u64>, now: u64) -> bool {
    match last_sent {
        None => true,
        Some(sent) => now - sent >= LIVE_CROP_INTERVAL_NS,
    }
}

fn is_preview_due(last_sent: Option<u64>, now: u64) -> (r: bool)
    ensures
        r == preview_due(last_sent, now),
{
    match last_sent {
        None => true,
        Some(sent) => now >= sent && now - sent >= LIVE_CROP_INTERVAL_NS,
    }
}

/// What is known when the crop is edited or polled.
#[derive(Clone, Copy, Debug, PartialEq, Eq, Structural)]
pub struct CropFacts {
    pub now: u64,
    pub running: bool,
    /// The fixed-shape backend is selected.
    pub fixed_shape: bool,
    /// A capture resolution is set.
    pub fixed_resolution: bool,
    pub pointer_down: bool,
}

/// Where an edit goes. It is always remembered for the settings; while a capture runs it is
/// staged for the fixed-shape backend, or shown at once, or kept for the next preview.
pub open spec fn after_edit(flow: CropFlow, facts: CropFacts, crop: CaptureCrop) -> (CropFlow, CropOutput) {
    let saving = CropFlow { save_due: Some((facts.now + CROP_SAVE_DELAY_NS) as u64), ..flow };
    let nothing = CropOutput { preview: None, save: false, commit: None };
    let shown = CropOutput { preview: Some(crop), save: false, commit: None };
    if !facts.running {
        (saving, nothing)
    } else if facts.fixed_shape {
        (
            CropFlow {
                settled_pending: Some(crop),
                settled_due: if facts.pointer_down {
                    None
                } else {
                    Some((facts.now + CROP_SETTLE_NS) as u64)
                },
                ..saving
            },
            nothing,
        )
    } else if !facts.fixed_resolution {
        (CropFlow { live_pending: None, live_last_sent: None, ..saving }, shown)
    } else if !facts.pointer_down || preview_due(flow.live_last_sent, facts.now) {
        (CropFlow { live_pending: None, live_last_sent: Some(facts.now), ..saving }, shown)
    } else {
        (CropFlow { live_pending: Some(crop), ..saving }, nothing)
    }
}

/// The previews of a poll.
pub open spec fn polled_preview(flow: CropFlow, facts: CropFacts) -> Option<CaptureCrop> {
    if facts.running && flow.live_pending is Some && (!facts.pointer_down || !facts.fixed_resolution || preview_due(
        flow.live_last_sent,
        facts.now,
    )) {
        flow.live_pending
    } else {
        None
    }
}

/// Whether a poll writes the settings: at once while nothing runs, else when the pointer is up
/// and the delay is over.
pub open spec fn polled_save(flow: CropFlow, facts: CropFacts) -> bool {
    match flow.save_due {
        None => false,
        Some(due) => !facts.running || (!facts.pointer_down && facts.now >= due),
    }
}

/// The settled value of a poll.
pub open spec fn polled_commit(flow: CropFlow, facts: CropFacts) -> Option<CaptureCrop> {
    if facts.running && !facts.pointer_down && (flow.settled_due matches Some(due) && facts.now >= due) {
        flow.settled_pending
    } else {
        None
    }
}

/// The flow after a poll.
pub open spec fn after_poll(flow: CropFlow, facts: CropFacts) -> CropFlow {
    if !facts.running {
        idle_flow()
    } else {
        CropFlow {
            live_pending: if polled_preview(flow, facts) is Some {
                None
            } else {
                flow.live_pending
            },
            live_last_sent: if polled_preview(flow, facts) is Some {
                Some(facts.now)
            } else {
                flow.live_last_sent
            },
            save_due: if polled_save(flow, facts) {
                None
            } else {
                flow.save_due
            },
            settled_pending: if polled_commit(flow, facts) is Some {
                None
            } else {
                flow.settled_pending
            },
            settled_due: if flow.settled_pending is None {
                flow.settled_due
            } else if facts.pointer_down {
                None
            } else {
                match flow.settled_due {
                    None => Some((facts.now + CROP_SETTLE_NS) as u64),
                    Some(due) => if facts.now >= due {
                        None
                    } else {
                        Some(due)
                    },
                }
            },
        }
    }
}

impl CropFlow {
    /// No edit is on its way.
    pub fn new() -> (flow: Self)
        ensures
            flow == idle_flow(),
    {
        CropFlow {
            live_pending: None,
            live_last_sent: None,
            save_due: None,
            settled_pending: None,
            settled_due: None,
        }
    }

    /// Takes an edit.
    pub fn on_edit(&mut self, facts: CropFacts, crop: CaptureCrop) -> (out: CropOutput)
        requires
            facts.now + CROP_SETTLE_NS <= u64::MAX,
        ensures
            (*final(self), out) == after_edit(*old(self), facts, crop),
    {
        self.save_due = Some(facts.now + CROP_SAVE_DELAY_NS);
        let mut out = CropOutput { preview: None, save: false, commit: None };
        if !facts.running {
            return out;
        }
        if facts.fixed_shape {
            self.settled_pending = Some(crop);
            self.settled_due = if facts.pointer_down {
                None
            } else {
                Some(facts.now + CROP_SETTLE_NS)
            };
        } else if facts.fixed_resolution {
            if !facts.pointer_down || is_preview_due(self.live_last_sent, facts.now) {
                self.live_pending = None;
                self.live_last_sent = Some(facts.now);
                out.preview = Some(crop);
            } else {
                self.live_pending = Some(crop);
            }
        } else {
            self.live_pending = None;
            self.live_last_sent = None;
            out.preview = Some(crop);
        }
        out
    }

    /// Moves the edits on, once per frame.
    pub fn on_poll(&mut self, facts: CropFacts) -> (out: CropOutput)
        requires
            facts.now + CROP_SETTLE_NS <= u64::MAX,
        ensures
            *final(self) == after_poll(*old(self), facts),
            out.preview == polled_preview(*old(self), facts),
            out.save == polled_save(*old(self), facts),
            out.commit == polled_commit(*old(self), facts),
    {
        let mut out = CropOutput { preview: None, save: false, commit: None };
        if !facts.running {
            out.save = self.save_due.is_some();
            self.live_pending = None;
            self.live_last_sent = None;
            self.save_due = None;
            self.settled_pending = None;
            self.settled_due = None;
            return out;
        }
        if let Some(crop) = self.live_pending {
            let due = !facts.pointer_down || !facts.fixed_resolution || is_preview_due(
                self.live_last_sent,
                facts.now,
            );
            if due {
                self.live_pending = None;
                self.live_last_sent = Some(facts.now);
                out.preview = Some(crop);
            }
        }
        if let Some(due) = self.save_due {
            if !facts.pointer_down && facts.now >= due {
                self.save_due = None;
                out.save = true;
            }
        }
        if let Some(crop) = self.settled_pending {
            if facts.pointer_down {
                self.settled_due = None;
            } else {
                match self.settled_due {
                    None => {
                        self.settled_due = Some(facts.now + CROP_SETTLE_NS);
                    },
                    Some(due) => {
                        if facts.now >= due {
                            self.settled_pending = None;
                            self.settled_due = None;
                            out.commit = Some(crop);
                        }
                    },
                }
            }
        }
        out
    }
}

/// A commit is due only for a value that is there.
pub open spec fn flow_is_sound(flow: CropFlow) -> bool {
    flow.settled_due is Some ==> flow.settled_pending is Some
}

/// Edits and polls keep the flow sound.
pub proof fn edits_and_polls_keep_the_flow_sound(flow: CropFlow, facts: CropFacts, crop: CaptureCrop)
    requires
        flow_is_sound(flow),
    ensures
        flow_is_sound(idle_flow()),
        flow_is_sound(after_edit(flow, facts, crop).0),
        flow_is_sound(after_poll(flow, facts)),
{
}

/// An edit during a capture is never lost: it is shown at once, or it is the value that the
/// next preview or the settled commit will show.
pub proof fn no_edit_is_lost(flow: CropFlow, facts: CropFacts, crop: CaptureCrop)
    requires
        facts.running,
    ensures
        ({
            let (next, out) = after_edit(flow, facts, crop);
            out.preview == Some(crop) || next.live_pending == Some(crop) || next.settled_pending == Some(crop)
        }),
        after_edit(flow, facts, crop).0.save_due is Some,
{
}

/// The fixed-shape backend never gets a preview, and gets no value while the pointer is down.
pub proof fn the_fixed_shape_backend_sees_only_settled_values(flow: CropFlow, facts: CropFacts, crop: CaptureCrop)
    requires
        facts.fixed_shape,
        facts.running,
    ensures
        after_edit(flow, facts, crop).1.preview is None,
        facts.pointer_down ==> polled_commit(flow, facts) is None,
        polled_commit(flow, facts) matches Some(c) ==> flow.settled_pending == Some(c),
{
}

/// While a margin is dragged with a capture resolution set, two previews are at least the
/// interval apart.
pub proof fn previews_keep_their_distance(flow: CropFlow, facts: CropFacts, crop: CaptureCrop)
    requires
        facts.running,
        facts.pointer_down,
        facts.fixed_resolution,
        !facts.fixed_shape,
        flow.live_last_sent is Some,
    ensures
        after_edit(flow, facts, crop).1.preview is Some ==> facts.now - flow.live_last_sent->0
            >= LIVE_CROP_INTERVAL_NS,
        polled_preview(flow, facts) is Some ==> facts.now - flow.live_last_sent->0 >= LIVE_CROP_INTERVAL_NS,
{
}

/// Stopping writes the settings that an edit left unwritten, and leaves nothing behind.
pub proof fn stopping_flushes_the_settings(flow: CropFlow, facts: CropFacts)
    requires
        !facts.running,
    ensures
        polled_save(flow, facts) == (flow.save_due is Some),
        after_poll(flow, facts) == idle_flow(),
{
}

// ---------------------------------------------------------------------------------------
// What publishing an edit is for

/// What an edit has the caller do, and where it goes: with the pointer up, or without a capture
/// resolution, it is shown at once; while a margin is dragged with one it is shown a thirtieth of a
/// second after the last at the earliest, and waits until then; the fixed-shape backend is shown
/// nothing, and has the value a fifth of a second after the pointer is up; and in any case the
/// settings are written a sixth of a second later.
pub proof fn an_edit_goes_where_it_belongs(flow: CropFlow, facts: CropFacts, crop: CaptureCrop)
    requires
        facts.now + 220_000_000 <= u64::MAX,
    ensures
        ({
            let (next, out) = after_edit(flow, facts, crop);
            &&& next.save_due == Some((facts.now + 160_000_000) as u64)
            &&& !out.save && out.commit is None
            &&& out.preview is Some ==> out.preview == Some(crop)
            &&& !facts.running ==> out.preview is None && next.live_pending == flow.live_pending && next.settled_pending
                == flow.settled_pending
            &&& facts.running && facts.fixed_shape ==> out.preview is None && next.settled_pending == Some(crop)
            &&& facts.running && facts.fixed_shape && facts.pointer_down ==> next.settled_due is None
            &&& facts.running && facts.fixed_shape && !facts.pointer_down ==> next.settled_due == Some(
                (facts.now + 220_000_000) as u64,
            )
            &&& facts.running && !facts.fixed_shape && !facts.fixed_resolution ==> out.preview == Some(crop)
                && next.live_pending is None
            &&& facts.running && !facts.fixed_shape && !facts.pointer_down ==> out.preview == Some(crop)
                && next.live_pending is None
            &&& facts.running && !facts.fixed_shape && facts.fixed_resolution && facts.pointer_down
                && flow.live_last_sent is None ==> out.preview == Some(crop)
            &&& facts.running && !facts.fixed_shape && facts.fixed_resolution && facts.pointer_down && (
            flow.live_last_sent matches Some(sent) && facts.now - sent >= 33_000_000) ==> out.preview == Some(crop)
            &&& facts.running && !facts.fixed_shape && facts.fixed_resolution && facts.pointer_down && (
            flow.live_last_sent matches Some(sent) && facts.now - sent < 33_000_000) ==> out.preview is None
                && next.live_pending == Some(crop)
            &&& facts.running && !facts.fixed_shape && facts.fixed_resolution && out.preview is Some
                ==> next.live_last_sent == Some(facts.now)
        }),
{
}

/// What waits is shown as soon as it may be: with the pointer up, or the time gone by; the settled
/// value goes out once its time has come and the pointer is up, and the settings are written then
/// or at once where nothing runs.
pub proof fn what_waits_goes_out(flow: CropFlow, facts: CropFacts)
    ensures
        facts.running && flow.live_pending is Some && (!facts.pointer_down || !facts.fixed_resolution
            || flow.live_last_sent is None || facts.now - flow.live_last_sent->0 >= 33_000_000) ==> polled_preview(
            flow,
            facts,
        ) == flow.live_pending && after_poll(flow, facts).live_pending is None && after_poll(flow, facts).live_last_sent
            == Some(facts.now),
        facts.running && polled_preview(flow, facts) is None ==> after_poll(flow, facts).live_pending
            == flow.live_pending,
        flow.live_pending is None || !facts.running ==> polled_preview(flow, facts) is None,
        facts.running && !facts.pointer_down && flow.settled_pending is Some && (flow.settled_due matches Some(due)
            && facts.now >= due) ==> polled_commit(flow, facts) == flow.settled_pending && after_poll(
            flow,
            facts,
        ).settled_pending is None,
        facts.running && polled_commit(flow, facts) is None ==> after_poll(flow, facts).settled_pending
            == flow.settled_pending,
        polled_commit(flow, facts) is Some ==> facts.running && !facts.pointer_down && flow.settled_due is Some
            && facts.now >= flow.settled_due->0,
        flow.save_due is None ==> !polled_save(flow, facts),
        flow.save_due is Some && !facts.running ==> polled_save(flow, facts),
        flow.save_due matches Some(due) ==> (facts.running ==> (polled_save(flow, facts) <==> !facts.pointer_down
            && facts.now >= due)),
        facts.running && polled_save(flow, facts) ==> after_poll(flow, facts).save_due is None,
        facts.running && !polled_save(flow, facts) ==> after_poll(flow, facts).save_due == flow.save_due,
        facts.running && facts.pointer_down && flow.settled_pending is Some ==> after_poll(flow, facts).settled_due
            is None,
        facts.running && !facts.pointer_down && flow.settled_pending is Some && flow.settled_due is None && facts.now
            + 220_000_000 <= u64::MAX ==> after_poll(flow, facts).settled_due == Some((facts.now + 220_000_000) as u64),
{
}

} // verus!
