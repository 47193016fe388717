//! How large the picture is shown: over the whole screen, or by a factor.
use vstd::prelude::*;
use crate::chain::is_nan_bits;
use crate::text::{chars_of, push_decimal, string_of, trim};
use crate::text::{decimal, texts, trimmed};

verus! {

/// The ways to show the picture.
#[derive(Clone, Copy, Debug, PartialEq, Eq, Structural)]
pub enum ScaleMode {
    /// Over the whole screen.
    Auto,
    /// By a factor.
    Fixed,
}

pub open spec fn chosen_mode(mode: ScaleMode, fullscreen: bool, windowed: bool) -> ScaleMode {
    if windowed {
        ScaleMode::Fixed
    } else if fullscreen {
        ScaleMode::Auto
    } else {
        mode
    }
}

/// The way after the two buttons, and whether it changed. The second button wins.
pub fn choose_scale_mode(mode: ScaleMode, fullscreen: bool, windowed: bool) -> (r: (ScaleMode, bool))
    ensures
        r.0 == chosen_mode(mode, fullscreen, windowed),
        r.1 == (r.0 != mode),
{
    let chosen = if windowed {
        ScaleMode::Fixed
    } else if fullscreen {
        ScaleMode::Auto
    } else {
        mode
    };
    (chosen, chosen != mode)
}

/// The factor can be edited only where it is used.
pub fn ratio_enabled(mode: ScaleMode) -> (r: bool)
    ensures
        r == (mode == ScaleMode::Fixed),
{
    mode == ScaleMode::Fixed
}

/// Without the crosses at its end.
pub open spec fn without_crosses(s: Seq<char>) -> Seq<char>
    decreases s.len(),
{
    if s.len() > 0 && s.last() == 'x' {
        without_crosses(s.drop_last())
    } else {
        s
    }
}

/// The number in what was typed as a factor: blanks around it and crosses behind it do not
/// count.
pub fn ratio_digits(text: &str) -> (digits: String)
    ensures
        digits@ == without_crosses(trimmed(text@)),
{
    let inner = trim(text);
    let chars = chars_of(inner);
    let mut n: usize = chars.len();
    assert(chars@.take(n as int) =~= chars@);
    while n > 0 && chars[n - 1] == 'x'
        invariant
            n <= chars@.len(),
            without_crosses(chars@) == without_crosses(chars@.take(n as int)),
        decreases n,
    {
        assert(chars@.take(n as int).drop_last() =~= chars@.take(n - 1));
        n -= 1;
    }
    assert(chars@.take(n as int) =~= chars@.subrange(0, n as int));
    string_of(chars.as_slice(), 0, n)
}

/// The bits of 1.0 and 6.0.
pub const RATIO_MIN: u32 = 0x3f80_0000;

pub const RATIO_MAX: u32 = 0x40c0_0000;

/// A factor held to the range from 1.0 to 6.0. What is no number stays as it is; the patterns
/// of positive numbers are ordered as the numbers are.
pub open spec fn clamped_ratio(bits: u32) -> u32 {
    if is_nan_bits(bits) {
        bits
    } else if bits >= 0x8000_0000 || bits < RATIO_MIN {
        RATIO_MIN
    } else if bits > RATIO_MAX {
        RATIO_MAX
    } else {
        bits
    }
}

/// A factor, as the bits of a 32-bit floating-point number, held to its range.
pub fn clamp_ratio(bits: u32) -> (r: u32)
    ensures
        r == clamped_ratio(bits),
{
    if bits % 0x8000_0000 > 0x7f80_0000 {
        bits
    } else if bits >= 0x8000_0000 || bits < RATIO_MIN {
        RATIO_MIN
    } else if bits > RATIO_MAX {
        RATIO_MAX
    } else {
        bits
    }
}

/// The factor after a number was typed, and whether it changed. `differs` says whether the
/// number in its range is farther than a thousandth from the factor of before.
pub fn commit_ratio(current: u32, typed: Option<u32>, differs: bool) -> (r: (u32, bool))
    ensures
        r == (match typed {
            Some(bits) if differs => (clamped_ratio(bits), true),
            _ => (current, false),
        }),
{
    match typed {
        Some(bits) => if differs {
            (clamp_ratio(bits), true)
        } else {
            (current, false)
        },
        None => (current, false),
    }
}

/// The label of a factor in tenths.
pub open spec fn ratio_text(tenths: nat) -> Seq<char> {
    decimal(tenths / 10) + "."@ + decimal(tenths % 10) + "x"@
}

/// The factors that are offered, in tenths: from 1.0 to 6.0 in steps of a fifth.
pub open spec fn offered(n: nat) -> Seq<Seq<char>> {
    Seq::new(n, |i: int| ratio_text((10 + 2 * i) as nat))
}

/// The labels of the factors that are offered.
pub fn ratio_labels() -> (labels: Vec<String>)
    ensures
        texts(labels@) == offered(26),
{
    let mut labels: Vec<String> = Vec::new();
    let mut i: u64 = 0;
    assert(texts(labels@) =~= offered(0));
    while i < 26
        invariant
            i <= 26,
            texts(labels@) == offered(i as nat),
        decreases 26 - i,
    {
        let tenths: u64 = 10 + 2 * i;
        let mut label = String::new();
        push_decimal(&mut label, tenths / 10);
        label.append(".");
        push_decimal(&mut label, tenths % 10);
        label.append("x");
        let ghost text = label@;
        let ghost before = texts(labels@);
        assert(text =~= ratio_text(tenths as nat));
        labels.push(label);
        assert(texts(labels@) =~= before.push(text));
        assert(offered((i + 1) as nat) =~= offered(i as nat).push(ratio_text((10 + 2 * i) as nat)));
        i += 1;
    }
    labels
}

/// A magnification within its range is kept, a smaller or negative one becomes the least and a
/// larger one the greatest; bits that are no number stay as they are.
pub proof fn a_magnification_in_range_is_kept(bits: u32)
    ensures
        0x3f80_0000u32 <= bits <= 0x40c0_0000u32 ==> clamped_ratio(bits) == bits,
        bits < 0x3f80_0000u32 || 0x8000_0000 <= bits <= 0xff80_0000 ==> clamped_ratio(bits) == 0x3f80_0000u32,
        0x40c0_0000u32 < bits <= 0x7f80_0000 ==> clamped_ratio(bits) == 0x40c0_0000u32,
        0x7f80_0000 < bits < 0x8000_0000 || 0xff80_0000 < bits ==> clamped_ratio(bits) == bits,
        clamped_ratio(clamped_ratio(bits)) == clamped_ratio(bits),
{
}

/// The crosses at the end of a magnification are no part of it, and all else is.
pub proof fn crosses_at_the_end_are_left_out(s: Seq<char>)
    ensures
        without_crosses(s.push('x')) == without_crosses(s),
        s.len() == 0 || s.last() != 'x' ==> without_crosses(s) == s,
{
    assert(s.push('x').drop_last() =~= s);
}

/// The magnifications on offer begin with one and grow by a fifth, each with one decimal and a
/// cross.
pub proof fn magnifications_grow_by_a_fifth(n: nat, i: int)
    requires
        0 <= i < n,
    ensures
        offered(n).len() == n,
        offered(n)[i] == decimal(((10 + 2 * i) / 10) as nat) + "."@ + decimal(((10 + 2 * i) % 10) as nat) + "x"@,
{
}

/// Each button chooses its own way, and without one the way stays.
pub proof fn a_button_chooses_its_way(mode: ScaleMode)
    ensures
        chosen_mode(mode, true, false) == ScaleMode::Auto,
        chosen_mode(mode, false, true) == ScaleMode::Fixed,
        chosen_mode(mode, true, true) == ScaleMode::Fixed,
        chosen_mode(mode, false, false) == mode,
{
}

} // verus!
