//! UTF-16 text as Windows exchanges it: encoding with a terminating zero, and lossy
//! decoding of the units in front of the first zero.
use vstd::prelude::*;
use crate::text::{chars_of, trim};

verus! {

/// `char::from_u32` gives the character with the given code, and `None` where the code is
/// a surrogate or lies above U+10FFFF.
pub assume_specification[ char::from_u32 ](code: u32) -> (c: Option<char>)
    ensures
        (code < 0xd800 || 0xe000 <= code <= 0x10ffff) ==> c == Some(code as char),
        !(code < 0xd800 || 0xe000 <= code <= 0x10ffff) ==> c is None,
;

pub open spec fn is_high_surrogate(u: u16) -> bool {
    0xd800 <= u < 0xdc00
}

pub open spec fn is_low_surrogate(u: u16) -> bool {
    0xdc00 <= u < 0xe000
}

/// The UTF-16 units of one character.
pub open spec fn units_of_char(c: char) -> Seq<u16> {
    let n = c as u32;
    if n < 0x10000 {
        seq![n as u16]
    } else {
        seq![(0xd800 + (n - 0x10000) / 0x400) as u16, (0xdc00 + (n - 0x10000) % 0x400) as u16]
    }
}

/// The UTF-16 encoding of a text.
pub open spec fn utf16(s: Seq<char>) -> Seq<u16>
    decreases s.len(),
{
    if s.len() == 0 {
        Seq::empty()
    } else {
        utf16(s.drop_last()) + units_of_char(s.last())
    }
}

/// The character that a surrogate pair stands for.
pub open spec fn pair_char(high: u16, low: u16) -> char {
    (0x10000 + (high - 0xd800) * 0x400 + (low - 0xdc00)) as char
}

/// The text that UTF-16 units stand for, with U+FFFD in place of each unpaired surrogate.
pub open spec fn utf16_lossy(u: Seq<u16>) -> Seq<char>
    decreases u.len(),
{
    if u.len() == 0 {
        Seq::empty()
    } else if !is_high_surrogate(u[0]) && !is_low_surrogate(u[0]) {
        seq![u[0] as char] + utf16_lossy(u.skip(1))
    } else if is_high_surrogate(u[0]) && u.len() > 1 && is_low_surrogate(u[1]) {
        seq![pair_char(u[0], u[1])] + utf16_lossy(u.skip(2))
    } else {
        seq!['\u{fffd}'] + utf16_lossy(u.skip(1))
    }
}

proof fn lemma_lossy_front(c: char, rest: Seq<u16>)
    ensures
        utf16_lossy(units_of_char(c) + rest) == seq![c] + utf16_lossy(rest),
{
    let n = c as u32;
    let u = units_of_char(c) + rest;
    if n < 0x10000 {
        assert(u.skip(1) =~= rest);
    } else {
        assert(u.skip(2) =~= rest);
        let h = u[0];
        let l = u[1];
        assert(h == 0xd800 + (n - 0x10000) / 0x400);
        assert(l == 0xdc00 + (n - 0x10000) % 0x400);
        assert(pair_char(h, l) == c);
    }
}

proof fn lemma_utf16_concat(a: Seq<char>, b: Seq<char>)
    ensures
        utf16(a + b) == utf16(a) + utf16(b),
    decreases b.len(),
{
    if b.len() == 0 {
        assert(a + b =~= a);
        assert(utf16(a) + utf16(b) =~= utf16(a));
    } else {
        lemma_utf16_concat(a, b.drop_last());
        assert((a + b).drop_last() =~= a + b.drop_last());
        assert(utf16(a + b) =~= utf16(a) + utf16(b));
    }
}

/// Decoding what was encoded gives the text back.
pub proof fn utf16_round_trips(s: Seq<char>)
    ensures
        utf16_lossy(utf16(s)) == s,
    decreases s.len(),
{
    if s.len() > 0 {
        let head = seq![s[0]];
        assert(s =~= head + s.skip(1));
        lemma_utf16_concat(head, s.skip(1));
        assert(head.drop_last() =~= Seq::<char>::empty());
        assert(utf16(head) =~= units_of_char(s[0])) by {
            reveal_with_fuel(utf16, 2);
        }
        lemma_lossy_front(s[0], utf16(s.skip(1)));
        utf16_round_trips(s.skip(1));
    }
}

/// A text as a zero-terminated string of UTF-16 units.
pub fn wide(s: &str) -> (units: Vec<u16>)
    ensures
        units@ == utf16(s@).push(0),
{
    let v = chars_of(s);
    let mut units: Vec<u16> = Vec::new();
    let mut i: usize = 0;
    while i < v.len()
        invariant
            v@ == s@,
            i <= v@.len(),
            units@ == utf16(s@.take(i as int)),
        decreases v@.len() - i,
    {
        let n: u32 = v[i] as u32;
        if n < 0x10000 {
            units.push(n as u16);
        } else {
            units.push((0xd800 + (n - 0x10000) / 0x400) as u16);
            units.push((0xdc00 + (n - 0x10000) % 0x400) as u16);
        }
        assert(s@.take(i + 1).drop_last() =~= s@.take(i as int));
        assert(units@ =~= utf16(s@.take(i as int)) + units_of_char(v@[i as int]));
        i += 1;
    }
    assert(s@.take(i as int) =~= s@);
    units.push(0);
    units
}

/// The units in front of the first zero.
pub open spec fn before_zero(u: Seq<u16>) -> Seq<u16>
    decreases u.len(),
{
    if u.len() == 0 || u[0] == 0 {
        Seq::empty()
    } else {
        seq![u[0]] + before_zero(u.skip(1))
    }
}

/// A zero-terminated text reads back as the text, as long as it holds no zero itself.
pub proof fn terminated_text_reads_back(s: Seq<char>)
    requires
        !s.contains('\0'),
    ensures
        utf16_lossy(before_zero(utf16(s).push(0))) == s,
{
    lemma_no_zero_unit(s);
    lemma_before_zero_stops(utf16(s));
    utf16_round_trips(s);
}

proof fn lemma_char_units_nonzero(c: char)
    requires
        c != '\0',
    ensures
        forall|i: int| 0 <= i < units_of_char(c).len() ==> #[trigger] units_of_char(c)[i] != 0,
{
}

proof fn lemma_no_zero_unit(s: Seq<char>)
    requires
        !s.contains('\0'),
    ensures
        forall|i: int| 0 <= i < utf16(s).len() ==> #[trigger] utf16(s)[i] != 0,
    decreases s.len(),
{
    if s.len() > 0 {
        assert forall|c: char| s.drop_last().contains(c) implies s.contains(c) by {
            let k = choose|k: int| 0 <= k < s.drop_last().len() && s.drop_last()[k] == c;
            assert(s[k] == c);
        }
        lemma_no_zero_unit(s.drop_last());
        assert(s.contains(s.last()));
        let head = utf16(s.drop_last());
        assert forall|i: int| 0 <= i < utf16(s).len() implies #[trigger] utf16(s)[i] != 0 by {
            if i < head.len() {
                assert(utf16(s)[i] == head[i]);
            } else {
                assert(utf16(s)[i] == units_of_char(s.last())[i - head.len()]);
                lemma_char_units_nonzero(s.last());
            }
        }
    }
}

proof fn lemma_before_zero_stops(u: Seq<u16>)
    requires
        forall|i: int| 0 <= i < u.len() ==> #[trigger] u[i] != 0,
    ensures
        before_zero(u.push(0)) == u,
    decreases u.len(),
{
    if u.len() == 0 {
        assert(u.push(0)[0] == 0);
        assert(before_zero(u.push(0)) =~= u);
    } else {
        assert(u.push(0).skip(1) =~= u.skip(1).push(0));
        lemma_before_zero_stops(u.skip(1));
        assert(u[0] != 0);
        assert(before_zero(u.push(0)) =~= seq![u[0]] + u.skip(1));
        assert(seq![u[0]] + u.skip(1) =~= u);
    }
}

proof fn lemma_before_zero_is_prefix(u: Seq<u16>, n: int)
    requires
        0 <= n <= u.len(),
        forall|i: int| 0 <= i < n ==> #[trigger] u[i] != 0,
        n < u.len() ==> u[n] == 0,
    ensures
        before_zero(u) == u.take(n),
    decreases u.len(),
{
    if n == 0 {
        assert(u.take(0) =~= Seq::<u16>::empty());
    } else {
        assert(u[0] != 0);
        assert forall|i: int| 0 <= i < n - 1 implies #[trigger] u.skip(1)[i] != 0 by {
            assert(u[i + 1] != 0);
        }
        lemma_before_zero_is_prefix(u.skip(1), n - 1);
        assert(seq![u[0]] + u.skip(1).take(n - 1) =~= u.take(n));
    }
}

/// Decodes the units in front of the first zero.
pub fn decode_terminated(units: &[u16]) -> (s: String)
    ensures
        s@ == utf16_lossy(before_zero(units@)),
{
    let mut end: usize = 0;
    while end < units.len() && units[end] != 0
        invariant
            end <= units@.len(),
            forall|i: int| 0 <= i < end ==> #[trigger] units@[i] != 0,
        decreases units@.len() - end,
    {
        end += 1;
    }
    let ghost u = units@.take(end as int);
    proof {
        lemma_before_zero_is_prefix(units@, end as int);
    }
    let mut s = String::new();
    let mut i: usize = 0;
    assert(u.skip(0) =~= u);
    assert(s@ + utf16_lossy(u) =~= utf16_lossy(u));
    while i < end
        invariant
            i <= end <= units@.len(),
            u == units@.take(end as int),
            s@ + utf16_lossy(u.skip(i as int)) == utf16_lossy(u),
        decreases end - i,
    {
        let ghost before = s@;
        let ghost rest = u.skip(i as int);
        let a: u16 = units[i];
        assert(a == rest[0]);
        if a < 0xd800 || a >= 0xe000 {
            if let Some(c) = char::from_u32(a as u32) {
                s.push(c);
            }
            assert(s@ == before.push(a as char));
            assert(rest.skip(1) =~= u.skip(i + 1));
            assert(before + (seq![a as char] + utf16_lossy(u.skip(i + 1))) =~= s@ + utf16_lossy(u.skip(i + 1)));
            i += 1;
        } else if a < 0xdc00 && i + 1 < end && 0xdc00 <= units[i + 1] && units[i + 1] < 0xe000 {
            let b: u16 = units[i + 1];
            assert(b == rest[1]);
            let code: u32 = 0x10000 + (a as u32 - 0xd800) * 0x400 + (b as u32 - 0xdc00);
            if let Some(c) = char::from_u32(code) {
                s.push(c);
            }
            assert(s@ == before.push(pair_char(a, b)));
            assert(rest.skip(2) =~= u.skip(i + 2));
            assert(before + (seq![pair_char(a, b)] + utf16_lossy(u.skip(i + 2))) =~= s@ + utf16_lossy(
                u.skip(i + 2),
            ));
            i += 2;
        } else {
            s.push('\u{fffd}');
            assert(i + 1 < end ==> units@[i + 1] == rest[1]);
            assert(rest.skip(1) =~= u.skip(i + 1));
            assert(before + (seq!['\u{fffd}'] + utf16_lossy(u.skip(i + 1))) =~= s@ + utf16_lossy(
                u.skip(i + 1),
            ));
            i += 1;
        }
    }
    assert(u.skip(i as int) =~= Seq::<u16>::empty());
    assert(s@ + Seq::<char>::empty() =~= s@);
    s
}

/// The name in a fixed-size buffer of UTF-16 units: what stands in front of the first zero,
/// without leading and trailing white space.
pub fn wide_name(value: &[u16]) -> (name: String)
    ensures
        name@ == crate::text::trimmed(utf16_lossy(before_zero(value@))),
{
    let s = decode_terminated(value);
    trim(s.as_str()).to_owned()
}

/// Characters of the first plane are their own unit; every other is a pair of a high and a low
/// half, and is what the pair reads as.
pub proof fn characters_are_units_or_pairs(c: char)
    ensures
        (c as u32) < 0x10000 ==> units_of_char(c).len() == 1 && units_of_char(c)[0] as u32 == c as u32,
        (c as u32) >= 0x10000 ==> {
            let u = units_of_char(c);
            &&& u.len() == 2
            &&& 0xd800 <= u[0] < 0xdc00
            &&& 0xdc00 <= u[1] < 0xe000
            &&& c as u32 == 0x10000 + (u[0] - 0xd800) * 0x400 + (u[1] - 0xdc00)
        },
{
}

/// A text is encoded character by character, and read unit by unit; a half without its other half
/// reads as the sign for what cannot be read.
pub proof fn texts_are_encoded_in_order(s: Seq<char>, c: char, rest: Seq<u16>, unit: u16)
    ensures
        utf16(s.push(c)) == utf16(s) + units_of_char(c),
        utf16(Seq::empty()).len() == 0,
        utf16_lossy(Seq::empty()).len() == 0,
        unit < 0xd800 || unit >= 0xe000 ==> utf16_lossy(seq![unit] + rest) == seq![unit as char] + utf16_lossy(rest),
        0xdc00 <= unit < 0xe000 ==> utf16_lossy(seq![unit] + rest) == seq!['\u{fffd}'] + utf16_lossy(rest),
        0xd800 <= unit < 0xdc00 && (rest.len() == 0 || rest[0] < 0xdc00 || rest[0] >= 0xe000) ==> utf16_lossy(
            seq![unit] + rest,
        ) == seq!['\u{fffd}'] + utf16_lossy(rest),
        0xd800 <= unit < 0xdc00 && rest.len() > 0 && 0xdc00 <= rest[0] < 0xe000 ==> utf16_lossy(seq![unit] + rest).len()
            == 1 + utf16_lossy(rest.skip(1)).len(),
{
    assert(s.push(c).drop_last() =~= s);
    let all = seq![unit] + rest;
    assert(all.skip(1) =~= rest);
    if rest.len() > 0 {
        assert(all.skip(2) =~= rest.skip(1));
    }
}

/// What stands before the first zero is kept whole.
pub proof fn a_text_ends_at_its_zero(before: Seq<u16>, after: Seq<u16>)
    requires
        !before.contains(0),
    ensures
        before_zero(before.push(0) + after) == before,
        before_zero(before) == before,
    decreases before.len(),
{
    if before.len() > 0 {
        let rest = before.skip(1);
        assert(!rest.contains(0)) by {
            if rest.contains(0) {
                let k = choose|k: int| 0 <= k < rest.len() && rest[k] == 0;
                assert(before[k + 1] == 0);
            }
        }
        a_text_ends_at_its_zero(rest, after);
        assert((before.push(0) + after).skip(1) =~= rest.push(0) + after);
        assert(before.contains(before[0]));
        assert((before.push(0) + after)[0] == before[0]);
        assert(seq![before[0]] + rest =~= before);
    } else {
        assert((before.push(0) + after)[0] == 0);
        assert(before =~= Seq::<u16>::empty());
    }
}

} // verus!
