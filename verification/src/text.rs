//! Text primitives over strings seen as sequences of characters: trimming, splitting,
//! ASCII case, and the decimal and hexadecimal notations used in labels and identifiers.
use vstd::prelude::*;

verus! {

/// `String::push` appends the given character to the end of the string.
pub assume_specification[ String::push ](s: &mut String, c: char)
    ensures
        final(s)@ == old(s)@.push(c),
;

/// The characters of `s`, in order.
pub fn chars_of(s: &str) -> (v: Vec<char>)
    ensures
        v@ == s@,
{
    let mut v: Vec<char> = Vec::new();
    for c in it: s.chars()
        invariant
            it.seq() == s@,
            v@ == s@.take(it.index() as int),
    {
        v.push(c);
    }
    v
}

/// The string made of `chars[from..to]`.
pub fn string_of(chars: &[char], from: usize, to: usize) -> (s: String)
    requires
        from <= to <= chars@.len(),
    ensures
        s@ == chars@.subrange(from as int, to as int),
{
    let mut s = String::new();
    let mut i: usize = from;
    while i < to
        invariant
            from <= i <= to <= chars@.len(),
            s@ == chars@.subrange(from as int, i as int),
        decreases to - i,
    {
        s.push(chars[i]);
        assert(chars@.subrange(from as int, i + 1) =~= chars@.subrange(from as int, i as int).push(chars@[i as int]));
        i += 1;
    }
    s
}

/// Whether two texts are the same.
pub fn same_text(a: &str, b: &str) -> (same: bool)
    ensures
        same == (a@ == b@),
{
    let x = chars_of(a);
    let y = chars_of(b);
    if x.len() != y.len() {
        return false;
    }
    let mut i: usize = 0;
    while i < x.len()
        invariant
            x@ == a@,
            y@ == b@,
            x@.len() == y@.len(),
            i <= x@.len(),
            forall|k: int| 0 <= k < i ==> a@[k] == b@[k],
        decreases x@.len() - i,
    {
        if x[i] != y[i] {
            return false;
        }
        i += 1;
    }
    assert(a@ =~= b@);
    true
}

// ---------------------------------------------------------------------------------------
// ASCII case

/// The ASCII lower-case form of a character; every other character stays as it is.
pub open spec fn lower_char(c: char) -> char {
    if 'A' <= c <= 'Z' {
        ((c as u32) + 32) as char
    } else {
        c
    }
}

/// The ASCII lower-case form of a text.
pub open spec fn lower_text(s: Seq<char>) -> Seq<char> {
    s.map_values(|c: char| lower_char(c))
}

/// The ASCII upper-case form of a character; every other character stays as it is.
pub open spec fn upper_char(c: char) -> char {
    if 'a' <= c <= 'z' {
        ((c as u32) - 32) as char
    } else {
        c
    }
}

/// The ASCII upper-case form of a text.
pub open spec fn upper_text(s: Seq<char>) -> Seq<char> {
    s.map_values(|c: char| upper_char(c))
}

pub fn to_lower_char(c: char) -> (r: char)
    ensures
        r == lower_char(c),
{
    if 'A' <= c && c <= 'Z' {
        (c as u8 + 32) as char
    } else {
        c
    }
}

pub fn to_upper_char(c: char) -> (r: char)
    ensures
        r == upper_char(c),
{
    if 'a' <= c && c <= 'z' {
        (c as u8 - 32) as char
    } else {
        c
    }
}

pub fn to_ascii_lowercase(s: &str) -> (r: String)
    ensures
        r@ == lower_text(s@),
{
    let mut r = String::new();
    for c in it: s.chars()
        invariant
            it.seq() == s@,
            r@ == lower_text(s@.take(it.index() as int)),
    {
        r.push(to_lower_char(c));
        assert(lower_text(s@.take(it.index() + 1)) =~= lower_text(s@.take(it.index() as int)).push(
            lower_char(c),
        ));
    }
    assert(s@.take(s@.len() as int) =~= s@);
    r
}

pub fn to_ascii_uppercase(s: &str) -> (r: String)
    ensures
        r@ == upper_text(s@),
{
    let mut r = String::new();
    for c in it: s.chars()
        invariant
            it.seq() == s@,
            r@ == upper_text(s@.take(it.index() as int)),
    {
        r.push(to_upper_char(c));
        assert(upper_text(s@.take(it.index() + 1)) =~= upper_text(s@.take(it.index() as int)).push(
            upper_char(c),
        ));
    }
    assert(s@.take(s@.len() as int) =~= s@);
    r
}

/// Whether two texts are the same up to ASCII case.
pub fn eq_ignore_ascii_case(a: &str, b: &str) -> (same: bool)
    ensures
        same == (lower_text(a@) == lower_text(b@)),
{
    same_text(to_ascii_lowercase(a).as_str(), to_ascii_lowercase(b).as_str())
}

// ---------------------------------------------------------------------------------------
// Trimming

/// The characters with the Unicode property White_Space.
pub open spec fn is_white_space(c: char) -> bool {
    let n = c as u32;
    ||| 0x09 <= n <= 0x0d
    ||| n == 0x20
    ||| n == 0x85
    ||| n == 0xa0
    ||| n == 0x1680
    ||| 0x2000 <= n <= 0x200a
    ||| n == 0x2028
    ||| n == 0x2029
    ||| n == 0x202f
    ||| n == 0x205f
    ||| n == 0x3000
}

pub fn white_space(c: char) -> (r: bool)
    ensures
        r == is_white_space(c),
{
    let n: u32 = c as u32;
    (0x09 <= n && n <= 0x0d) || n == 0x20 || n == 0x85 || n == 0xa0 || n == 0x1680 || (0x2000 <= n && n
        <= 0x200a) || n == 0x2028 || n == 0x2029 || n == 0x202f || n == 0x205f || n == 0x3000
}

/// `s` without its leading white space.
pub open spec fn trimmed_start(s: Seq<char>) -> Seq<char>
    decreases s.len(),
{
    if s.len() > 0 && is_white_space(s[0]) {
        trimmed_start(s.skip(1))
    } else {
        s
    }
}

/// `s` without its trailing white space.
pub open spec fn trimmed_end(s: Seq<char>) -> Seq<char>
    decreases s.len(),
{
    if s.len() > 0 && is_white_space(s.last()) {
        trimmed_end(s.drop_last())
    } else {
        s
    }
}

/// `s` without its leading and trailing white space.
pub open spec fn trimmed(s: Seq<char>) -> Seq<char> {
    trimmed_end(trimmed_start(s))
}

proof fn lemma_trimmed_end_shape(s: Seq<char>)
    ensures
        trimmed_end(s).len() <= s.len(),
        trimmed_end(s) == s.take(trimmed_end(s).len() as int),
        trimmed_end(s).len() > 0 ==> !is_white_space(trimmed_end(s).last()),
    decreases s.len(),
{
    if s.len() > 0 && is_white_space(s.last()) {
        lemma_trimmed_end_shape(s.drop_last());
        let n = trimmed_end(s).len() as int;
        assert(s.drop_last().take(n) =~= s.take(n));
    } else {
        assert(s.take(s.len() as int) =~= s);
    }
}

proof fn lemma_trimmed_start_shape(s: Seq<char>)
    ensures
        trimmed_start(s).len() <= s.len(),
        trimmed_start(s) == s.skip(s.len() - trimmed_start(s).len()),
        trimmed_start(s).len() > 0 ==> !is_white_space(trimmed_start(s)[0]),
    decreases s.len(),
{
    if s.len() > 0 && is_white_space(s[0]) {
        lemma_trimmed_start_shape(s.skip(1));
        let n = s.len() - trimmed_start(s).len();
        assert(s.skip(1).skip(n - 1) =~= s.skip(n));
    } else {
        assert(s.skip(0) =~= s);
    }
}

/// Trimming a trimmed text changes nothing, and what is left neither begins nor ends with
/// white space.
pub proof fn trimming_is_idempotent(s: Seq<char>)
    ensures
        trimmed(trimmed(s)) == trimmed(s),
        trimmed(s).len() > 0 ==> !is_white_space(trimmed(s)[0]) && !is_white_space(trimmed(s).last()),
{
    lemma_trimmed_start_shape(s);
    lemma_trimmed_end_shape(trimmed_start(s));
    let t = trimmed(s);
    if t.len() > 0 {
        assert(t[0] == trimmed_start(s)[0]);
    }
    assert(trimmed_start(t) == t);
    assert(trimmed_end(t) == t);
}

/// The part of `s` left after its leading and trailing white space is cut off.
pub fn trim(s: &str) -> (r: &str)
    ensures
        r@ == trimmed(s@),
{
    let v = chars_of(s);
    let mut from: usize = 0;
    assert(s@.skip(0) =~= s@);
    while from < v.len() && white_space(v[from])
        invariant
            v@ == s@,
            from <= v@.len(),
            trimmed_start(s@) == trimmed_start(s@.skip(from as int)),
        decreases v@.len() - from,
    {
        assert(s@.skip(from as int).skip(1) =~= s@.skip(from + 1));
        from += 1;
    }
    let mut to: usize = v.len();
    assert(s@.subrange(from as int, to as int) =~= s@.skip(from as int));
    while from < to && white_space(v[to - 1])
        invariant
            v@ == s@,
            from <= to <= v@.len(),
            trimmed_end(s@.skip(from as int)) == trimmed_end(s@.subrange(from as int, to as int)),
        decreases to - from,
    {
        assert(s@.subrange(from as int, to as int).drop_last() =~= s@.subrange(from as int, to - 1));
        to -= 1;
    }
    s.substring_char(from, to)
}

// ---------------------------------------------------------------------------------------
// Splitting

/// The pieces of `s` between the occurrences of `sep`. There is always at least one piece.
pub open spec fn split_on(s: Seq<char>, sep: char) -> Seq<Seq<char>>
    decreases s.len(),
{
    if s.len() == 0 {
        seq![Seq::<char>::empty()]
    } else {
        let before = split_on(s.drop_last(), sep);
        if s.last() == sep {
            before.push(Seq::<char>::empty())
        } else {
            before.update(before.len() - 1, before.last().push(s.last()))
        }
    }
}

pub proof fn split_on_has_a_piece(s: Seq<char>, sep: char)
    ensures
        split_on(s, sep).len() >= 1,
    decreases s.len(),
{
    if s.len() > 0 {
        split_on_has_a_piece(s.drop_last(), sep);
    }
}

/// The views of a list of strings.
pub open spec fn texts(v: Seq<String>) -> Seq<Seq<char>> {
    v.map_values(|s: String| s@)
}

/// The pieces of `s` between the occurrences of `sep`.
pub fn split(s: &str, sep: char) -> (pieces: Vec<String>)
    ensures
        texts(pieces@) == split_on(s@, sep),
{
    let mut pieces: Vec<String> = Vec::new();
    let mut current = String::new();
    for c in it: s.chars()
        invariant
            it.seq() == s@,
            texts(pieces@).push(current@) == split_on(s@.take(it.index() as int), sep),
    {
        let ghost before = texts(pieces@).push(current@);
        let ghost done = pieces@;
        assert(s@.take(it.index() + 1).drop_last() =~= s@.take(it.index() as int));
        if c == sep {
            pieces.push(current);
            current = String::new();
            assert(texts(pieces@) =~= before);
            assert(texts(pieces@).push(current@) == split_on(s@.take(it.index() + 1), sep));
        } else {
            current.push(c);
            assert(texts(pieces@).push(current@) =~= before.update(before.len() - 1, before.last().push(c)));
        }
    }
    assert(s@.take(s@.len() as int) =~= s@);
    let ghost before = texts(pieces@).push(current@);
    pieces.push(current);
    assert(texts(pieces@) =~= before);
    pieces
}

// ---------------------------------------------------------------------------------------
// Numbers

/// The decimal digit for a value below ten.
pub open spec fn digit_char(d: nat) -> char {
    (('0' as u32) + d) as char
}

/// Decimal notation without leading zeros.
pub open spec fn decimal(n: nat) -> Seq<char>
    decreases n,
{
    if n < 10 {
        seq![digit_char(n)]
    } else {
        decimal(n / 10).push(digit_char(n % 10))
    }
}

/// Decimal notation of an integer, with a leading minus sign below zero.
pub open spec fn signed_decimal(n: int) -> Seq<char> {
    if n < 0 {
        seq!['-'] + decimal((-n) as nat)
    } else {
        decimal(n as nat)
    }
}

/// Appends `n` in decimal notation.
pub fn push_decimal(out: &mut String, n: u64)
    ensures
        final(out)@ == old(out)@ + decimal(n as nat),
    decreases n,
{
    if n >= 10 {
        push_decimal(out, n / 10);
    }
    let d: u8 = (n % 10) as u8;
    out.push((48u8 + d) as char);
    assert(out@ =~= old(out)@ + decimal(n as nat));
}

/// Appends `n` in decimal notation, with a minus sign below zero.
pub fn push_signed_decimal(out: &mut String, n: i32)
    ensures
        final(out)@ == old(out)@ + signed_decimal(n as int),
{
    if n < 0 {
        out.push('-');
        let m: i64 = -(n as i64);
        push_decimal(out, m as u64);
        assert(out@ =~= old(out)@ + signed_decimal(n as int));
    } else {
        push_decimal(out, n as u64);
    }
}

/// The hexadecimal digit for a value below sixteen.
pub open spec fn hex_char(d: nat, upper: bool) -> char {
    if d < 10 {
        digit_char(d)
    } else if upper {
        (('A' as u32) + (d - 10)) as char
    } else {
        (('a' as u32) + (d - 10)) as char
    }
}

/// Hexadecimal notation, padded with zeros on the left to at least `width` digits.
pub open spec fn hexadecimal(n: nat, width: nat, upper: bool) -> Seq<char>
    decreases n, width,
{
    if n < 16 && width <= 1 {
        seq![hex_char(n, upper)]
    } else {
        hexadecimal(
            n / 16,
            if width > 0 {
                (width - 1) as nat
            } else {
                0
            },
            upper,
        ).push(hex_char(n % 16, upper))
    }
}

/// Appends `n` in hexadecimal notation of at least `width` digits.
pub fn push_hex(out: &mut String, n: u64, width: u32, upper: bool)
    ensures
        final(out)@ == old(out)@ + hexadecimal(n as nat, width as nat, upper),
    decreases n, width,
{
    if n >= 16 || width > 1 {
        let rest: u32 = if width > 0 {
            width - 1
        } else {
            0
        };
        push_hex(out, n / 16, rest, upper);
    }
    let d: u8 = (n % 16) as u8;
    let c: u8 = if d < 10 {
        48 + d
    } else if upper {
        55 + d
    } else {
        87 + d
    };
    out.push(c as char);
    assert(out@ =~= old(out)@ + hexadecimal(n as nat, width as nat, upper));
}

pub open spec fn is_digit(c: char) -> bool {
    '0' <= c <= '9'
}

pub open spec fn all_digits(s: Seq<char>) -> bool {
    forall|i: int| 0 <= i < s.len() ==> is_digit(#[trigger] s[i])
}

/// The number that a run of decimal digits stands for.
pub open spec fn digits_value(s: Seq<char>) -> nat
    decreases s.len(),
{
    if s.len() == 0 {
        0
    } else {
        (digits_value(s.drop_last()) * 10 + (s.last() as u32 - '0' as u32)) as nat
    }
}

/// The number that `s` reads as: at least one digit and nothing else but an optional plus
/// sign in front, with a value of at most `max`.
pub open spec fn unsigned_value(s: Seq<char>, max: nat) -> Option<nat> {
    let digits = if s.len() > 0 && s[0] == '+' {
        s.skip(1)
    } else {
        s
    };
    if digits.len() > 0 && all_digits(digits) && digits_value(digits) <= max {
        Some(digits_value(digits))
    } else {
        None
    }
}

proof fn lemma_digits_value_grows(s: Seq<char>, i: int)
    requires
        0 <= i <= s.len(),
        all_digits(s),
    ensures
        digits_value(s.take(i)) <= digits_value(s),
    decreases s.len() - i,
{
    if i < s.len() {
        lemma_digits_value_grows(s, i + 1);
        assert(s.take(i + 1).drop_last() =~= s.take(i));
        assert(s.take(i + 1).last() == s[i]);
    } else {
        assert(s.take(i) =~= s);
    }
}

/// Reads an unsigned decimal number of at most `max`, as `str::parse` does.
pub fn parse_unsigned(s: &str, max: u64) -> (r: Option<u64>)
    ensures
        match r {
            Some(n) => unsigned_value(s@, max as nat) == Some(n as nat),
            None => unsigned_value(s@, max as nat) is None,
        },
{
    let v = chars_of(s);
    let start: usize = if v.len() > 0 && v[0] == '+' {
        1
    } else {
        0
    };
    let ghost digits = s@.skip(start as int);
    assert(start == 0 ==> digits =~= s@);
    if start == v.len() {
        return None;
    }
    let mut value: u64 = 0;
    let mut i: usize = start;
    assert(digits.take(0) =~= Seq::<char>::empty());
    while i < v.len()
        invariant
            v@ == s@,
            start <= i <= v@.len(),
            start == 0 || start == 1,
            start == 1 <==> s@.len() > 0 && s@[0] == '+',
            start < v@.len(),
            digits == s@.skip(start as int),
            start == 0 ==> digits == s@,
            value <= max,
            value == digits_value(digits.take(i - start)),
            forall|k: int| 0 <= k < i - start ==> is_digit(#[trigger] digits[k]),
        decreases v@.len() - i,
    {
        let c = v[i];
        assert(c == digits[i - start]);
        if c < '0' || c > '9' {
            assert(!is_digit(digits[i - start]));
            return None;
        }
        let d: u64 = (c as u32 - 48) as u64;
        assert(digits.take(i - start + 1).drop_last() =~= digits.take(i - start));
        assert(digits_value(digits.take(i - start + 1)) == value * 10 + d);
        if value > (u64::MAX - d) / 10 || value * 10 + d > max {
            proof {
                if all_digits(digits) {
                    lemma_digits_value_grows(digits, i - start + 1);
                }
            }
            return None;
        }
        value = value * 10 + d;
        i += 1;
    }
    assert(digits.take(digits.len() as int) =~= digits);
    Some(value)
}

proof fn lemma_decimal_reads_back(n: nat)
    ensures
        decimal(n).len() > 0,
        all_digits(decimal(n)),
        digits_value(decimal(n)) == n,
    decreases n,
{
    reveal_with_fuel(digits_value, 2);
    if n >= 10 {
        lemma_decimal_reads_back(n / 10);
        assert(decimal(n).drop_last() =~= decimal(n / 10));
    } else {
        assert(decimal(n).drop_last() =~= Seq::<char>::empty());
    }
}

/// A number that was written in decimal notation reads back as itself.
pub proof fn decimal_notation_round_trips(n: nat, max: nat)
    requires
        n <= max,
    ensures
        unsigned_value(decimal(n), max) == Some(n),
{
    lemma_decimal_reads_back(n);
    assert(is_digit(decimal(n)[0]));
}

// ---------------------------------------------------------------------------------------
// Searching

/// The text `pat` stands in `s` at position `i`.
pub open spec fn occurs_at(s: Seq<char>, pat: Seq<char>, i: int) -> bool {
    0 <= i && i + pat.len() <= s.len() && s.subrange(i, i + pat.len()) == pat
}

pub open spec fn contains_text(s: Seq<char>, pat: Seq<char>) -> bool {
    exists|i: int| #[trigger] occurs_at(s, pat, i)
}

pub open spec fn is_first_occurrence(s: Seq<char>, pat: Seq<char>, i: int) -> bool {
    occurs_at(s, pat, i) && forall|j: int| j < i ==> !#[trigger] occurs_at(s, pat, j)
}

pub open spec fn is_last_occurrence(s: Seq<char>, pat: Seq<char>, i: int) -> bool {
    occurs_at(s, pat, i) && forall|j: int| j > i ==> !#[trigger] occurs_at(s, pat, j)
}

/// What stands in front of the first `pat`, or all of `s` if there is none.
pub open spec fn before_first(s: Seq<char>, pat: Seq<char>) -> Seq<char> {
    if contains_text(s, pat) {
        s.take(choose|i: int| is_first_occurrence(s, pat, i))
    } else {
        s
    }
}

pub proof fn before_first_is_unique(s: Seq<char>, pat: Seq<char>, i: int)
    requires
        is_first_occurrence(s, pat, i),
    ensures
        before_first(s, pat) == s.take(i),
{
    let k = choose|k: int| is_first_occurrence(s, pat, k);
    assert(is_first_occurrence(s, pat, k));
    assert(k == i);
}

/// Whether `pat` stands in `chars` at position `at`.
pub fn matches_at(chars: &[char], pat: &[char], at: usize) -> (r: bool)
    ensures
        r == occurs_at(chars@, pat@, at as int),
{
    let n: usize = chars.len();
    if at > n || pat.len() > n - at {
        return false;
    }
    let mut k: usize = 0;
    while k < pat.len()
        invariant
            n == chars@.len(),
            k <= pat@.len(),
            at + pat@.len() <= chars@.len(),
            forall|j: int| 0 <= j < k ==> chars@[at + j] == #[trigger] pat@[j],
        decreases pat@.len() - k,
    {
        if chars[at + k] != pat[k] {
            assert(chars@.subrange(at as int, at + pat@.len())[k as int] != pat@[k as int]);
            return false;
        }
        k += 1;
    }
    assert(chars@.subrange(at as int, at + pat@.len()) =~= pat@);
    true
}

/// The first position of `pat` at or behind `from`.
pub fn find_from(chars: &[char], pat: &[char], from: usize) -> (r: Option<usize>)
    ensures
        match r {
            Some(i) => i >= from && occurs_at(chars@, pat@, i as int) && forall|j: int|
                from <= j < i ==> !#[trigger] occurs_at(chars@, pat@, j),
            None => forall|j: int| j >= from ==> !#[trigger] occurs_at(chars@, pat@, j),
        },
{
    let mut i: usize = from;
    while i <= chars.len()
        invariant
            from <= i,
            i <= chars@.len() + 1 || i == from,
            forall|j: int| from <= j < i ==> !#[trigger] occurs_at(chars@, pat@, j),
        decreases chars@.len() + 1 - i,
    {
        if matches_at(chars, pat, i) {
            return Some(i);
        }
        if i == chars.len() {
            return None;
        }
        i += 1;
    }
    None
}

/// The last position of `pat`.
pub fn find_last(chars: &[char], pat: &[char]) -> (r: Option<usize>)
    ensures
        match r {
            Some(i) => is_last_occurrence(chars@, pat@, i as int),
            None => !contains_text(chars@, pat@),
        },
{
    let mut i: usize = chars.len();
    loop
        invariant
            i <= chars@.len(),
            forall|j: int| j > i ==> !#[trigger] occurs_at(chars@, pat@, j),
        decreases i,
    {
        if matches_at(chars, pat, i) {
            return Some(i);
        }
        if i == 0 {
            return None;
        }
        i -= 1;
    }
}

/// Whether `pat` stands anywhere in `s`.
pub fn contains(s: &str, pat: &str) -> (r: bool)
    ensures
        r == contains_text(s@, pat@),
{
    find_from(chars_of(s).as_slice(), chars_of(pat).as_slice(), 0).is_some()
}

/// Whether `s` begins with `prefix`.
pub fn starts_with(s: &str, prefix: &str) -> (r: bool)
    ensures
        r == prefix@.is_prefix_of(s@),
{
    let v = chars_of(s);
    let p = chars_of(prefix);
    let r = matches_at(v.as_slice(), p.as_slice(), 0);
    assert(p@.len() <= v@.len() ==> v@.subrange(0, p@.len() as int) =~= v@.take(p@.len() as int));
    r
}

/// A text cut at a character.
pub struct Cut {
    pub before: Seq<char>,
    pub after: Seq<char>,
}

/// What stands in front of and behind the first `c`.
pub open spec fn cut_at(s: Seq<char>, c: char) -> Option<Cut>
    decreases s.len(),
{
    if s.len() == 0 {
        None
    } else if s[0] == c {
        Some(Cut { before: Seq::empty(), after: s.skip(1) })
    } else {
        match cut_at(s.skip(1), c) {
            Some(cut) => Some(Cut { before: seq![s[0]] + cut.before, after: cut.after }),
            None => None,
        }
    }
}

proof fn lemma_cut_at(s: Seq<char>, c: char, i: int)
    requires
        0 <= i <= s.len(),
        forall|j: int| 0 <= j < i ==> #[trigger] s[j] != c,
        i < s.len() ==> s[i] == c,
    ensures
        i < s.len() ==> cut_at(s, c) == Some(Cut { before: s.take(i), after: s.skip(i + 1) }),
        i == s.len() ==> cut_at(s, c) is None,
    decreases s.len(),
{
    if s.len() > 0 {
        if i == 0 {
            assert(s.take(0) =~= Seq::<char>::empty());
        } else {
            assert(s[0] != c);
            assert forall|j: int| 0 <= j < i - 1 implies #[trigger] s.skip(1)[j] != c by {
                assert(s[j + 1] != c);
            }
            lemma_cut_at(s.skip(1), c, i - 1);
            if i < s.len() {
                assert(seq![s[0]] + s.skip(1).take(i - 1) =~= s.take(i));
                assert(s.skip(1).skip(i) =~= s.skip(i + 1));
            }
        }
    }
}

/// Cuts `s` at its first `c`.
pub fn split_once(s: &str, c: char) -> (r: Option<(&str, &str)>)
    ensures
        match r {
            Some((a, b)) => cut_at(s@, c) == Some(Cut { before: a@, after: b@ }),
            None => cut_at(s@, c) is None,
        },
{
    let v = chars_of(s);
    let mut i: usize = 0;
    while i < v.len() && v[i] != c
        invariant
            v@ == s@,
            i <= v@.len(),
            forall|j: int| 0 <= j < i ==> #[trigger] s@[j] != c,
        decreases v@.len() - i,
    {
        i += 1;
    }
    proof {
        lemma_cut_at(s@, c, i as int);
    }
    if i == v.len() {
        return None;
    }
    let a = s.substring_char(0, i);
    let b = s.substring_char(i + 1, v.len());
    assert(a@ =~= s@.take(i as int));
    assert(b@ =~= s@.skip(i + 1));
    Some((a, b))
}

// ---------------------------------------------------------------------------------------
// Unicode

/// Whether a character is a letter or a number of any script.
pub uninterp spec fn unicode_alphanumeric(c: char) -> bool;

/// `char::is_alphanumeric`: among the ASCII characters it holds of the letters and digits.
#[verifier::external_body]
pub(crate) fn is_alphanumeric(c: char) -> (r: bool)
    ensures
        r == unicode_alphanumeric(c),
        (c as u32) < 128 ==> r == (('0' <= c <= '9') || ('A' <= c <= 'Z') || ('a' <= c <= 'z')),
{
    c.is_alphanumeric()
}

/// The lower-case form of a text by the rules of Unicode.
pub uninterp spec fn unicode_lowercase(s: Seq<char>) -> Seq<char>;

pub open spec fn all_ascii(s: Seq<char>) -> bool {
    forall|i: int| 0 <= i < s.len() ==> (#[trigger] s[i] as u32) < 128
}

/// `str::to_lowercase`: a text of ASCII characters alone is lowered letter by letter.
#[verifier::external_body]
pub(crate) fn to_lowercase(s: &str) -> (r: String)
    ensures
        r@ == unicode_lowercase(s@),
        all_ascii(s@) ==> r@ == lower_text(s@),
{
    s.to_lowercase()
}

/// `s` from position `from` on, with every `pat` in it replaced from left to right.
pub open spec fn replaced_from(s: Seq<char>, pat: Seq<char>, with: Seq<char>, from: int) -> Seq<char>
    decreases s.len() - from,
{
    if from >= s.len() || pat.len() == 0 {
        Seq::empty()
    } else if occurs_at(s, pat, from) {
        with + replaced_from(s, pat, with, from + pat.len())
    } else {
        seq![s[from]] + replaced_from(s, pat, with, from + 1)
    }
}

/// `s` with every `pat` replaced.
pub open spec fn replaced(s: Seq<char>, pat: Seq<char>, with: Seq<char>) -> Seq<char> {
    replaced_from(s, pat, with, 0)
}

/// Replaces every `pat` in `s`.
pub fn replace_all(s: &str, pat: &str, with: &str) -> (r: String)
    requires
        pat@.len() > 0,
    ensures
        r@ == replaced(s@, pat@, with@),
{
    let v = chars_of(s);
    let p = chars_of(pat);
    let mut r = String::new();
    let mut i: usize = 0;
    assert(r@ + replaced_from(s@, pat@, with@, 0) =~= replaced(s@, pat@, with@));
    while i < v.len()
        invariant
            v@ == s@,
            p@ == pat@,
            pat@.len() > 0,
            i <= v@.len(),
            r@ + replaced_from(s@, pat@, with@, i as int) == replaced(s@, pat@, with@),
        decreases v@.len() - i,
    {
        let ghost before = r@;
        if matches_at(v.as_slice(), p.as_slice(), i) {
            r.append(with);
            assert(r@ + replaced_from(s@, pat@, with@, i + pat@.len()) =~= before + replaced_from(
                s@,
                pat@,
                with@,
                i as int,
            ));
            i += p.len();
        } else {
            r.push(v[i]);
            assert(r@ + replaced_from(s@, pat@, with@, i + 1) =~= before + replaced_from(s@, pat@, with@, i as int));
            i += 1;
        }
    }
    assert(replaced_from(s@, pat@, with@, i as int) =~= Seq::<char>::empty());
    assert(r@ =~= replaced(s@, pat@, with@));
    r
}

/// A text without the pattern stays as it is.
pub proof fn replacing_nothing_changes_nothing(s: Seq<char>, pat: Seq<char>, with: Seq<char>)
    requires
        pat.len() > 0,
        forall|i: int| !occurs_at(s, pat, i),
    ensures
        replaced(s, pat, with) == s,
{
    lemma_replaced_nothing(s, pat, with, 0);
    assert(s.skip(0) =~= s);
}

proof fn lemma_replaced_nothing(s: Seq<char>, pat: Seq<char>, with: Seq<char>, from: int)
    requires
        pat.len() > 0,
        0 <= from <= s.len(),
        forall|i: int| !occurs_at(s, pat, i),
    ensures
        replaced_from(s, pat, with, from) == s.skip(from),
    decreases s.len() - from,
{
    if from < s.len() {
        lemma_replaced_nothing(s, pat, with, from + 1);
        assert(seq![s[from]] + s.skip(from + 1) =~= s.skip(from));
    }
}

// ---------------------------------------------------------------------------------------
// What the helpers are for

/// A letter has its small and its capital form, thirty-two apart, and nothing else has another
/// form; going to the one form and back changes nothing of a letter.
pub proof fn letters_have_two_forms(c: char)
    ensures
        'A' <= c <= 'Z' ==> lower_char(c) as u32 == c as u32 + 32 && upper_char(lower_char(c)) == c && upper_char(c)
            == c,
        'a' <= c <= 'z' ==> upper_char(c) as u32 == c as u32 - 32 && lower_char(upper_char(c)) == c && lower_char(c)
            == c,
        !('A' <= c <= 'Z') && !('a' <= c <= 'z') ==> lower_char(c) == c && upper_char(c) == c,
{
}

/// Changing the case changes every character on its own and keeps their number.
pub proof fn the_case_is_changed_letter_by_letter(s: Seq<char>, i: int)
    ensures
        lower_text(s).len() == s.len(),
        upper_text(s).len() == s.len(),
        0 <= i < s.len() ==> lower_text(s)[i] == lower_char(s[i]) && upper_text(s)[i] == upper_char(s[i]),
{
}

/// Trimming takes blanks off both ends and nothing else: what is left stands in the text, begins
/// and ends with no blank, and all around it is blank.
pub proof fn trimming_takes_only_blanks(s: Seq<char>)
    ensures
        exists|a: int, b: int|
            0 <= a <= b <= s.len() && trimmed(s) == #[trigger] s.subrange(a, b) && (forall|i: int|
                0 <= i < a ==> is_white_space(#[trigger] s[i])) && (forall|i: int|
                b <= i < s.len() ==> is_white_space(#[trigger] s[i])),
        trimmed(s).len() > 0 ==> !is_white_space(trimmed(s)[0]) && !is_white_space(trimmed(s).last()),
{
    lemma_start_trimmed(s);
    let front = trimmed_start(s);
    lemma_end_trimmed(front);
    let a = s.len() - front.len();
    let b = a + trimmed(s).len();
    assert(s.subrange(a, b) =~= trimmed(s)) by {
        assert(front =~= s.skip(a));
        assert(trimmed(s) =~= front.take(trimmed(s).len() as int));
    }
    assert forall|i: int| b <= i < s.len() implies is_white_space(#[trigger] s[i]) by {
        assert(front[i - a] == s[i]);
    }
    if trimmed(s).len() > 0 {
        assert(trimmed(s)[0] == front[0]);
    }
}

proof fn lemma_start_trimmed(s: Seq<char>)
    ensures
        trimmed_start(s).len() <= s.len(),
        trimmed_start(s) == s.skip(s.len() - trimmed_start(s).len()),
        forall|i: int| 0 <= i < s.len() - trimmed_start(s).len() ==> is_white_space(#[trigger] s[i]),
        trimmed_start(s).len() > 0 ==> !is_white_space(trimmed_start(s)[0]),
    decreases s.len(),
{
    if s.len() > 0 && is_white_space(s[0]) {
        let rest = s.skip(1);
        lemma_start_trimmed(rest);
        let n = s.len() - trimmed_start(s).len();
        assert(rest.skip(n - 1) =~= s.skip(n));
        assert forall|i: int| 0 <= i < n implies is_white_space(#[trigger] s[i]) by {
            if i > 0 {
                assert(rest[i - 1] == s[i]);
            }
        }
    } else {
        assert(s.skip(0) =~= s);
    }
}

proof fn lemma_end_trimmed(s: Seq<char>)
    ensures
        trimmed_end(s).len() <= s.len(),
        trimmed_end(s) == s.take(trimmed_end(s).len() as int),
        forall|i: int| trimmed_end(s).len() <= i < s.len() ==> is_white_space(#[trigger] s[i]),
        trimmed_end(s).len() > 0 ==> !is_white_space(trimmed_end(s).last()),
    decreases s.len(),
{
    if s.len() > 0 && is_white_space(s.last()) {
        let rest = s.drop_last();
        lemma_end_trimmed(rest);
        let n = trimmed_end(s).len() as int;
        assert(rest.take(n) =~= s.take(n));
        assert forall|i: int| n <= i < s.len() implies is_white_space(#[trigger] s[i]) by {
            if i < s.len() - 1 {
                assert(rest[i] == s[i]);
            }
        }
    } else {
        assert(s.take(s.len() as int) =~= s);
    }
}

/// The blanks: the space, the tabulator and the ends of a line among them, no letter, no digit and
/// no sign that can be seen.
pub proof fn blanks_cannot_be_seen(c: char)
    ensures
        is_white_space(' ') && is_white_space('\t') && is_white_space('\n') && is_white_space('\r')
            && is_white_space('\u{3000}') && is_white_space('\u{a0}'),
        0x21 <= c as u32 <= 0x7e ==> !is_white_space(c),
        0x3001 <= c as u32 ==> !is_white_space(c),
{
}

/// The pieces of a text between its separators, put together again.
pub open spec fn joined_by(pieces: Seq<Seq<char>>, sep: char) -> Seq<char>
    decreases pieces.len(),
{
    if pieces.len() == 0 {
        Seq::empty()
    } else if pieces.len() == 1 {
        pieces[0]
    } else {
        joined_by(pieces.drop_last(), sep).push(sep) + pieces.last()
    }
}

/// Splitting loses nothing: the pieces with the separators between them are the text, and no piece
/// has a separator in it.
pub proof fn pieces_make_the_text_again(s: Seq<char>, sep: char)
    ensures
        joined_by(split_on(s, sep), sep) == s,
        forall|i: int| 0 <= i < split_on(s, sep).len() ==> !(#[trigger] split_on(s, sep)[i]).contains(sep),
    decreases s.len(),
{
    split_on_has_a_piece(s, sep);
    if s.len() == 0 {
        assert(joined_by(split_on(s, sep), sep) =~= s);
    } else {
        let rest = s.drop_last();
        pieces_make_the_text_again(rest, sep);
        split_on_has_a_piece(rest, sep);
        let before = split_on(rest, sep);
        let pieces = split_on(s, sep);
        if s.last() == sep {
            assert(pieces.drop_last() =~= before);
            assert(pieces.last() =~= Seq::<char>::empty());
            assert(joined_by(pieces, sep) =~= joined_by(before, sep).push(sep));
            assert(rest.push(sep) =~= s);
        } else {
            assert(pieces.drop_last() =~= before.drop_last());
            assert(pieces.last() == before.last().push(s.last()));
            if before.len() > 1 {
                assert(joined_by(pieces, sep) =~= joined_by(before, sep).push(s.last()));
            } else {
                assert(pieces[0] == before[0].push(s.last()));
                assert(joined_by(pieces, sep) =~= before[0].push(s.last()));
            }
            assert(rest.push(s.last()) =~= s);
            assert(!pieces.last().contains(sep)) by {
                if pieces.last().contains(sep) {
                    let k = choose|k: int| 0 <= k < pieces.last().len() && pieces.last()[k] == sep;
                    if k < before.last().len() {
                        assert(before.last()[k] == sep);
                        assert(before[before.len() - 1].contains(sep));
                    }
                }
            }
        }
        assert forall|i: int| 0 <= i < pieces.len() implies !(#[trigger] pieces[i]).contains(sep) by {
            if i < pieces.len() - 1 {
                assert(pieces[i] == before[i]);
            }
        }
    }
}

/// Decimal notation is by tens, the most significant digit first.
pub proof fn decimal_notation_is_by_tens(n: nat, d: nat)
    requires
        d < 10,
    ensures
        decimal(d).len() == 1,
        decimal(d)[0] as u32 == 0x30 + d,
        n > 0 ==> decimal(10 * n + d) == decimal(n).push(decimal(d)[0]),
{
    if n > 0 {
        assert((10 * n + d) / 10 == n);
        assert((10 * n + d) % 10 == d);
    }
}

/// A number below zero has a minus sign before its digits, and no other has a sign.
pub proof fn a_minus_sign_stands_before(n: int)
    ensures
        n < 0 ==> signed_decimal(n) == seq!['-'] + decimal((-n) as nat),
        n >= 0 ==> signed_decimal(n) == decimal(n as nat),
{
}

/// Hexadecimal notation is by sixteens, the most significant digit first, with letters of the
/// wanted case for the digits from ten on, and filled up with zeros to its width.
pub proof fn hexadecimal_notation_is_by_sixteens(n: nat, d: nat, width: nat, upper: bool)
    requires
        d < 16,
    ensures
        hexadecimal(n, width, upper).len() >= width,
        hexadecimal(d, 1, upper).len() == 1,
        d < 10 ==> hexadecimal(d, 1, upper)[0] as u32 == 0x30 + d,
        d >= 10 && upper ==> hexadecimal(d, 1, upper)[0] as u32 == 0x41 + d - 10,
        d >= 10 && !upper ==> hexadecimal(d, 1, upper)[0] as u32 == 0x61 + d - 10,
        n > 0 || width > 0 ==> hexadecimal(16 * n + d, width + 1, upper) == hexadecimal(n, width, upper).push(
            hexadecimal(d, 1, upper)[0],
        ),
    decreases width,
{
    reveal_with_fuel(hexadecimal, 2);
    if n > 0 || width > 0 {
        assert((16 * n + d) / 16 == n);
        assert((16 * n + d) % 16 == d);
    }
    if width > 1 {
        hexadecimal_notation_is_by_sixteens(n / 16, d, (width - 1) as nat, upper);
    }
}

/// A number is read from decimal digits alone, with at most a plus sign before them; anything
/// else, and a number that is too large, is none.
pub proof fn numbers_are_read_from_digits(s: Seq<char>, max: nat)
    ensures
        s.len() == 0 ==> unsigned_value(s, max) is None,
        unsigned_value(s, max) matches Some(n) ==> n <= max,
        unsigned_value(s, max) is Some ==> forall|i: int|
            0 < i < s.len() ==> '0' <= #[trigger] s[i] <= '9',
        unsigned_value(s, max) is Some ==> s[0] == '+' || '0' <= s[0] <= '9',
        s.len() > 0 && s[0] != '+' ==> unsigned_value(seq!['+'] + s, max) == unsigned_value(s, max),
{
    if s.len() > 0 && s[0] == '+' && unsigned_value(s, max) is Some {
        assert forall|i: int| 0 < i < s.len() implies '0' <= #[trigger] s[i] <= '9' by {
            assert(is_digit(s.skip(1)[i - 1]));
        }
    }
    if s.len() > 0 && s[0] != '+' {
        assert((seq!['+'] + s).skip(1) =~= s);
    }
}

/// A text is cut at the first separator: what stands before has none, and both parts with the
/// separator between them are the text; without a separator there is no cut.
pub proof fn a_cut_is_at_the_first_separator(s: Seq<char>, c: char)
    ensures
        match cut_at(s, c) {
            Some(cut) => s == cut.before.push(c) + cut.after && !cut.before.contains(c),
            None => !s.contains(c),
        },
    decreases s.len(),
{
    if s.len() > 0 {
        let rest = s.skip(1);
        if s[0] == c {
            assert(s =~= Seq::<char>::empty().push(c) + rest);
        } else {
            a_cut_is_at_the_first_separator(rest, c);
            match cut_at(rest, c) {
                Some(cut) => {
                    let before = seq![s[0]] + cut.before;
                    assert(s =~= seq![s[0]] + rest);
                    assert(s =~= before.push(c) + cut.after);
                    assert(!before.contains(c)) by {
                        if before.contains(c) {
                            let k = choose|k: int| 0 <= k < before.len() && before[k] == c;
                            assert(k > 0);
                            assert(cut.before[k - 1] == c);
                            assert(cut.before.contains(c));
                        }
                    }
                },
                None => {
                    if s.contains(c) {
                        let k = choose|k: int| 0 <= k < s.len() && s[k] == c;
                        assert(rest[k - 1] == c);
                        assert(rest.contains(c));
                    }
                },
            }
        }
    }
}

/// The text before the pattern holds no occurrence of it, and the pattern follows; a text without
/// the pattern is kept whole.
pub proof fn the_part_before_ends_at_the_pattern(s: Seq<char>, pat: Seq<char>, i: int)
    ensures
        is_first_occurrence(s, pat, i) ==> before_first(s, pat) == s.take(i),
        (forall|j: int| !#[trigger] occurs_at(s, pat, j)) ==> before_first(s, pat) == s,
{
    if is_first_occurrence(s, pat, i) {
        before_first_is_unique(s, pat, i);
    }
}

/// A place for a text is filled where it stands: what comes before it is kept, and what comes after
/// is filled in turn.
pub proof fn a_place_is_filled(before: Seq<char>, pat: Seq<char>, after: Seq<char>, with: Seq<char>)
    requires
        pat.len() > 0,
        forall|j: int| 0 <= j < before.len() ==> !#[trigger] occurs_at(before + pat + after, pat, j),
    ensures
        replaced(before + pat + after, pat, with) == before + with + replaced(after, pat, with),
{
    let s = before + pat + after;
    let at = before.len() as int;
    assert(s.subrange(at, at + pat.len()) =~= pat);
    lemma_replaced_behind(s, pat, with, at + pat.len());
    assert(s.skip(at + pat.len()) =~= after);
    assert(replaced_from(s, pat, with, at) == with + replaced_from(s, pat, with, at + pat.len()));
    lemma_replaced_before(s, pat, with, 0, at);
    assert(s.subrange(0, at) =~= before);
    assert(before + with + replaced(after, pat, with) =~= before + (with + replaced(after, pat, with)));
}

proof fn lemma_replaced_before(s: Seq<char>, pat: Seq<char>, with: Seq<char>, from: int, to: int)
    requires
        pat.len() > 0,
        0 <= from <= to <= s.len(),
        forall|j: int| from <= j < to ==> !#[trigger] occurs_at(s, pat, j),
    ensures
        replaced_from(s, pat, with, from) == s.subrange(from, to) + replaced_from(s, pat, with, to),
    decreases to - from,
{
    if from < to {
        lemma_replaced_before(s, pat, with, from + 1, to);
        assert(!occurs_at(s, pat, from));
        assert(seq![s[from]] + (s.subrange(from + 1, to) + replaced_from(s, pat, with, to)) =~= s.subrange(from, to)
            + replaced_from(s, pat, with, to));
    } else {
        assert(s.subrange(from, to) + replaced_from(s, pat, with, to) =~= replaced_from(s, pat, with, to));
    }
}

proof fn lemma_replaced_behind(s: Seq<char>, pat: Seq<char>, with: Seq<char>, from: int)
    requires
        pat.len() > 0,
        0 <= from <= s.len(),
    ensures
        replaced_from(s, pat, with, from) == replaced(s.skip(from), pat, with),
{
    lemma_replaced_shifted(s, pat, with, from, 0);
}

proof fn lemma_replaced_shifted(s: Seq<char>, pat: Seq<char>, with: Seq<char>, from: int, k: int)
    requires
        pat.len() > 0,
        0 <= from <= s.len(),
        0 <= k,
    ensures
        replaced_from(s, pat, with, from + k) == replaced_from(s.skip(from), pat, with, k),
    decreases s.len() - from - k,
{
    let t = s.skip(from);
    if from + k < s.len() {
        assert(occurs_at(s, pat, from + k) == occurs_at(t, pat, k)) by {
            if from + k + pat.len() <= s.len() {
                assert(s.subrange(from + k, from + k + pat.len()) =~= t.subrange(k, k + pat.len()));
            }
        }
        if occurs_at(s, pat, from + k) {
            lemma_replaced_shifted(s, pat, with, from, k + pat.len());
        } else {
            lemma_replaced_shifted(s, pat, with, from, k + 1);
        }
    }
}

} // verus!
