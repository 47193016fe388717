//! The meters of the processor and the graphics card: a bar that changes colour where the load
//! becomes high.
use vstd::prelude::*;

verus! {

/// The parts of a bar, in the order in which they are drawn.
#[derive(Clone, Copy, Debug, PartialEq, Eq, Structural)]
pub enum LoadLevel {
    Low,
    High,
    Critical,
}

/// A part of a bar that is filled, in hundredths of a percent.
#[derive(Clone, Copy, Debug, PartialEq, Eq, Structural)]
pub struct LoadSegment {
    pub from: u32,
    pub to: u32,
    pub level: LoadLevel,
}

pub const HIGH_LOAD: u32 = 7000;

pub const CRITICAL_LOAD: u32 = 8500;

pub const FULL_LOAD: u32 = 10000;

pub open spec fn least(a: u32, b: u32) -> u32 {
    if a < b {
        a
    } else {
        b
    }
}

/// A part is drawn if it has an extent.
pub open spec fn filled(from: u32, to: u32, level: LoadLevel) -> Seq<LoadSegment> {
    if to > from {
        seq![LoadSegment { from, to, level }]
    } else {
        Seq::empty()
    }
}

/// The filled parts of a bar: the low colour up to seventy percent, the high one up to
/// eighty-five, and the critical one above. A bar ends at a hundred percent.
pub open spec fn segments_of(load: u32) -> Seq<LoadSegment> {
    let value = least(load, FULL_LOAD);
    filled(0, least(value, HIGH_LOAD), LoadLevel::Low) + filled(
        HIGH_LOAD,
        least(value, CRITICAL_LOAD),
        LoadLevel::High,
    ) + filled(CRITICAL_LOAD, value, LoadLevel::Critical)
}

fn lesser(a: u32, b: u32) -> (r: u32)
    ensures
        r == least(a, b),
{
    if a < b {
        a
    } else {
        b
    }
}

fn push_filled(out: &mut Vec<LoadSegment>, from: u32, to: u32, level: LoadLevel)
    ensures
        final(out)@ == old(out)@ + filled(from, to, level),
{
    if to > from {
        out.push(LoadSegment { from, to, level });
    }
    assert(out@ =~= old(out)@ + filled(from, to, level));
}

/// The filled parts of a bar for a load in hundredths of a percent.
pub fn load_bar(load: u32) -> (segments: Vec<LoadSegment>)
    ensures
        segments@ == segments_of(load),
{
    let value: u32 = lesser(load, FULL_LOAD);
    let mut segments: Vec<LoadSegment> = Vec::new();
    push_filled(&mut segments, 0, lesser(value, HIGH_LOAD), LoadLevel::Low);
    push_filled(&mut segments, HIGH_LOAD, lesser(value, CRITICAL_LOAD), LoadLevel::High);
    push_filled(&mut segments, CRITICAL_LOAD, value, LoadLevel::Critical);
    assert(segments@ =~= segments_of(load));
    segments
}

/// What the two meters show: a card without a counter shows an empty bar and a note.
pub fn resource_meter(cpu: u32, gpu: Option<u32>) -> (r: (u32, u32, Option<&'static str>))
    ensures
        r.0 == cpu,
        match gpu {
            Some(load) => r.1 == load && r.2 is None,
            None => r.1 == 0 && r.2 == Some("GPU counter unavailable"),
        },
{
    match gpu {
        Some(load) => (cpu, load, None),
        None => (cpu, 0, Some("GPU counter unavailable")),
    }
}

/// The parts of a bar join without a gap, from the left end to the load.
pub proof fn the_bar_ends_at_the_load(load: u32)
    ensures
        ({
            let s = segments_of(load);
            &&& load == 0 ==> s.len() == 0
            &&& load > 0 ==> s.len() > 0 && s[0].from == 0 && s.last().to == least(load, FULL_LOAD)
            &&& forall|i: int| 0 < i < s.len() ==> (#[trigger] s[i]).from == s[i - 1].to
        }),
{
}

/// A load is shown by its level: up to seventy percent low, from there to eighty-five high, and above
/// that critical; the parts of the bar lie in these ranges and together reach from nothing to the
/// load.
pub proof fn the_bar_shows_the_levels(load: u32, i: int)
    requires
        0 <= i < segments_of(load).len(),
    ensures
        ({
            let s = segments_of(load)[i];
            let value = if load > 10000u32 {
                10000u32
            } else {
                load
            };
            &&& s.from < s.to <= value
            &&& s.level == LoadLevel::Low ==> s.from == 0 && s.to <= 7000
            &&& s.level == LoadLevel::High ==> s.from == 7000 && s.to <= 8500
            &&& s.level == LoadLevel::Critical ==> s.from == 8500 && s.to == value
            &&& i == 0 ==> s.level == LoadLevel::Low
            &&& i == 1 ==> s.level == LoadLevel::High
            &&& i == 2 ==> s.level == LoadLevel::Critical
        }),
        segments_of(load).len() == (if load == 0 {
            0int
        } else if load <= 7000 {
            1
        } else if load <= 8500 {
            2
        } else {
            3
        }),
{
}

} // verus!
