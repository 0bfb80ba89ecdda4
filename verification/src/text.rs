//! Text helpers of the front end: decimal and hexadecimal numerals, levels
//! written in dB with one decimal, padding, and matching of command words.

use vstd::prelude::*;

verus! {

/// The decimal digit character of `d` (0 to 9).
pub open spec fn spec_digit_char(d: int) -> char {
    if d == 0 {
        '0'
    } else if d == 1 {
        '1'
    } else if d == 2 {
        '2'
    } else if d == 3 {
        '3'
    } else if d == 4 {
        '4'
    } else if d == 5 {
        '5'
    } else if d == 6 {
        '6'
    } else if d == 7 {
        '7'
    } else if d == 8 {
        '8'
    } else {
        '9'
    }
}

/// The value of a decimal digit character, if it is one.
pub open spec fn spec_digit_value(c: char) -> Option<int> {
    if c == '0' {
        Some(0)
    } else if c == '1' {
        Some(1)
    } else if c == '2' {
        Some(2)
    } else if c == '3' {
        Some(3)
    } else if c == '4' {
        Some(4)
    } else if c == '5' {
        Some(5)
    } else if c == '6' {
        Some(6)
    } else if c == '7' {
        Some(7)
    } else if c == '8' {
        Some(8)
    } else if c == '9' {
        Some(9)
    } else {
        None
    }
}

/// The decimal numeral of `n`, without leading zeros.
pub open spec fn spec_decimal(n: nat) -> Seq<char>
    decreases n,
{
    if n < 10 {
        seq![spec_digit_char(n as int)]
    } else {
        spec_decimal(n / 10).push(spec_digit_char((n % 10) as int))
    }
}

/// The one-character string of a decimal digit.
pub fn digit_str(d: u32) -> (s: &'static str)
    requires
        d < 10,
    ensures
        s@ == seq![spec_digit_char(d as int)],
{
    if d == 0 {
        proof { reveal_strlit("0"); }
        "0"
    } else if d == 1 {
        proof { reveal_strlit("1"); }
        "1"
    } else if d == 2 {
        proof { reveal_strlit("2"); }
        "2"
    } else if d == 3 {
        proof { reveal_strlit("3"); }
        "3"
    } else if d == 4 {
        proof { reveal_strlit("4"); }
        "4"
    } else if d == 5 {
        proof { reveal_strlit("5"); }
        "5"
    } else if d == 6 {
        proof { reveal_strlit("6"); }
        "6"
    } else if d == 7 {
        proof { reveal_strlit("7"); }
        "7"
    } else if d == 8 {
        proof { reveal_strlit("8"); }
        "8"
    } else {
        proof { reveal_strlit("9"); }
        "9"
    }
}

/// The decimal numeral of `n`.
pub fn decimal(n: u64) -> (s: String)
    ensures
        s@ == spec_decimal(n as nat),
    decreases n,
{
    if n < 10 {
        String::from_str(digit_str(n as u32))
    } else {
        let head = decimal(n / 10);
        let s = head.concat(digit_str((n % 10) as u32));
        assert(s@ =~= spec_decimal(n as nat));
        s
    }
}

/// The uppercase hexadecimal digit character of `d` (0 to 15).
pub open spec fn spec_hex_char(d: int) -> char {
    if d < 10 {
        spec_digit_char(d)
    } else if d == 10 {
        'A'
    } else if d == 11 {
        'B'
    } else if d == 12 {
        'C'
    } else if d == 13 {
        'D'
    } else if d == 14 {
        'E'
    } else {
        'F'
    }
}

/// A 16-bit value as four uppercase hexadecimal digits, as `{:04X}` writes it.
pub open spec fn spec_hex4(v: u16) -> Seq<char> {
    seq![
        spec_hex_char(v as int / 4096),
        spec_hex_char((v as int / 256) % 16),
        spec_hex_char((v as int / 16) % 16),
        spec_hex_char(v as int % 16),
    ]
}

/// The one-character string of an uppercase hexadecimal digit.
fn hex_str(d: u16) -> (s: &'static str)
    requires
        d < 16,
    ensures
        s@ == seq![spec_hex_char(d as int)],
{
    if d < 10 {
        digit_str(d as u32)
    } else if d == 10 {
        proof { reveal_strlit("A"); }
        "A"
    } else if d == 11 {
        proof { reveal_strlit("B"); }
        "B"
    } else if d == 12 {
        proof { reveal_strlit("C"); }
        "C"
    } else if d == 13 {
        proof { reveal_strlit("D"); }
        "D"
    } else if d == 14 {
        proof { reveal_strlit("E"); }
        "E"
    } else {
        proof { reveal_strlit("F"); }
        "F"
    }
}

/// Write a 16-bit value as four uppercase hexadecimal digits.
pub fn hex4(v: u16) -> (s: String)
    ensures
        s@ == spec_hex4(v),
{
    let mut s = String::from_str(hex_str(v / 4096));
    s.append(hex_str((v / 256) % 16));
    s.append(hex_str((v / 16) % 16));
    s.append(hex_str(v % 16));
    assert(s@ =~= spec_hex4(v));
    s
}

/// The number of tenths of a dB nearest to |raw| / 256 dB, halves to even:
/// the rounding of an exactly represented value to one decimal.
pub open spec fn spec_tenths(raw: i16) -> int {
    let mag = if raw < 0 {
        -(raw as int)
    } else {
        raw as int
    };
    let q = (mag * 10) / 256;
    let r = (mag * 10) % 256;
    if r > 128 || (r == 128 && q % 2 == 1) {
        q + 1
    } else {
        q
    }
}

/// A Q8.8 level written in dB with one decimal, as `{:.1}` writes the real
/// number raw / 256: a minus sign for a negative level (also when it rounds
/// to zero), the whole dB, a point, and the tenth.
pub open spec fn spec_db1(raw: i16) -> Seq<char> {
    let t = spec_tenths(raw);
    let sign = if raw < 0 {
        seq!['-']
    } else {
        Seq::<char>::empty()
    };
    sign + spec_decimal((t / 10) as nat) + seq!['.', spec_digit_char(t % 10)]
}

/// Write a Q8.8 level in dB with one decimal.
pub fn format_db1(raw: i16) -> (s: String)
    ensures
        s@ == spec_db1(raw),
{
    let mag: u32 = if raw < 0 {
        (0 - (raw as i32)) as u32
    } else {
        raw as u32
    };
    let q: u32 = (mag * 10) / 256;
    let r: u32 = (mag * 10) % 256;
    let tenths: u32 = if r > 128 || (r == 128 && q % 2 == 1) {
        q + 1
    } else {
        q
    };
    let mut s = String::new();
    if raw < 0 {
        proof { reveal_strlit("-"); }
        s.append("-");
    }
    let whole = decimal((tenths / 10) as u64);
    s.append(whole.as_str());
    proof { reveal_strlit("."); }
    s.append(".");
    s.append(digit_str(tenths % 10));
    assert(s@ =~= spec_db1(raw));
    s
}

/// Whether two strings are equal, character by character.
pub fn str_eq(a: &str, b: &str) -> (r: bool)
    ensures
        r == (a@ == b@),
{
    let n = a.unicode_len();
    if n != b.unicode_len() {
        return false;
    }
    let mut i: usize = 0;
    while i < n
        invariant
            n as int == a@.len(),
            n as int == b@.len(),
            i <= n,
            forall|k: int| 0 <= k < i ==> a@[k] == b@[k],
        decreases n - i,
    {
        if a.get_char(i) != b.get_char(i) {
            return false;
        }
        i = i + 1;
    }
    assert(a@ =~= b@);
    true
}

/// Whether `needle` occurs in `s` at some position.
pub open spec fn spec_contains(s: Seq<char>, needle: Seq<char>) -> bool {
    exists|i: int|
        0 <= i && i + needle.len() <= s.len() && #[trigger] s.subrange(i, i + needle.len())
            == needle
}

/// Whether `needle` occurs in `s`.
pub fn contains(s: &str, needle: &str) -> (r: bool)
    ensures
        r == spec_contains(s@, needle@),
{
    let n = s.unicode_len();
    let m = needle.unicode_len();
    if m > n {
        return false;
    }
    let mut i: usize = 0;
    while i < n - m
        invariant
            n as int == s@.len(),
            m as int == needle@.len(),
            m <= n,
            i <= n - m,
            forall|k: int| 0 <= k < i ==> #[trigger] s@.subrange(k, k + m) != needle@,
        decreases n - m - i,
    {
        if str_eq(s.substring_char(i, i + m), needle) {
            return true;
        }
        i = i + 1;
    }
    if str_eq(s.substring_char(i, i + m), needle) {
        return true;
    }
    assert forall|k: int| 0 <= k && k + needle@.len() <= s@.len() implies #[trigger] s@.subrange(
        k,
        k + needle@.len(),
    ) != needle@ by {
        assert(k <= i);
    }
    false
}

/// Whether `s` begins with `prefix`.
pub fn starts_with(s: &str, prefix: &str) -> (r: bool)
    ensures
        r == (prefix@.len() <= s@.len() && s@.subrange(0, prefix@.len() as int) == prefix@),
{
    let n = prefix.unicode_len();
    if n > s.unicode_len() {
        return false;
    }
    let mut i: usize = 0;
    while i < n
        invariant
            n as int == prefix@.len(),
            n <= s@.len(),
            i <= n,
            forall|k: int| 0 <= k < i ==> s@[k] == prefix@[k],
        decreases n - i,
    {
        if s.get_char(i) != prefix.get_char(i) {
            assert(s@.subrange(0, n as int)[i as int] != prefix@[i as int]);
            return false;
        }
        i = i + 1;
    }
    assert(s@.subrange(0, n as int) =~= prefix@);
    true
}

/// The value of a string of decimal digits, read left to right.
pub open spec fn spec_digits_value(s: Seq<char>) -> int
    decreases s.len(),
{
    if s.len() == 0 {
        0
    } else {
        spec_digits_value(s.drop_last()) * 10 + spec_digit_value(s.last()).unwrap()
    }
}

/// Every character of `s` is a decimal digit.
pub open spec fn spec_all_digits(s: Seq<char>) -> bool {
    forall|k: int| 0 <= k < s.len() ==> (#[trigger] spec_digit_value(s[k])) is Some
}

/// How a string reads as an unsigned byte, as `str::parse::<u8>` reads it:
/// an optional leading `+`, then at least one decimal digit and nothing
/// else, with a value of at most 255.
pub open spec fn spec_parse_u8(s: Seq<char>) -> Option<u8> {
    let digits = if s.len() > 0 && s[0] == '+' {
        s.subrange(1, s.len() as int)
    } else {
        s
    };
    if digits.len() > 0 && spec_all_digits(digits) && spec_digits_value(digits) <= 255 {
        Some(spec_digits_value(digits) as u8)
    } else {
        None
    }
}

proof fn lemma_digits_value_nonneg(s: Seq<char>)
    requires
        spec_all_digits(s),
    ensures
        spec_digits_value(s) >= 0,
    decreases s.len(),
{
    if s.len() > 0 {
        assert(spec_digit_value(s[s.len() - 1]) is Some);
        assert(spec_all_digits(s.drop_last())) by {
            assert forall|k: int| 0 <= k < s.drop_last().len() implies (#[trigger] spec_digit_value(
                s.drop_last()[k],
            )) is Some by {
                assert(s.drop_last()[k] == s[k]);
            }
        }
        lemma_digits_value_nonneg(s.drop_last());
    }
}

/// The value of a digit character.
pub fn digit_value(c: char) -> (d: Option<u32>)
    ensures
        d is Some <==> spec_digit_value(c) is Some,
        d is Some ==> d->0 as int == spec_digit_value(c)->0 && d->0 < 10,
{
    if c == '0' {
        Some(0)
    } else if c == '1' {
        Some(1)
    } else if c == '2' {
        Some(2)
    } else if c == '3' {
        Some(3)
    } else if c == '4' {
        Some(4)
    } else if c == '5' {
        Some(5)
    } else if c == '6' {
        Some(6)
    } else if c == '7' {
        Some(7)
    } else if c == '8' {
        Some(8)
    } else if c == '9' {
        Some(9)
    } else {
        None
    }
}

/// Read a string as an unsigned byte, as `str::parse::<u8>` does.
pub fn parse_u8(s: &str) -> (r: Option<u8>)
    ensures
        r == spec_parse_u8(s@),
{
    let n = s.unicode_len();
    let start: usize = if n > 0 && s.get_char(0) == '+' {
        1
    } else {
        0
    };
    let ghost digits = if s@.len() > 0 && s@[0] == '+' {
        s@.subrange(1, s@.len() as int)
    } else {
        s@
    };
    assert(digits =~= s@.subrange(start as int, n as int));
    if start == n {
        return None;
    }
    let mut value: u32 = 0;
    let mut i: usize = start;
    while i < n
        invariant
            n as int == s@.len(),
            start <= i <= n,
            digits == s@.subrange(start as int, n as int),
            digits == (if s@.len() > 0 && s@[0] == '+' {
                s@.subrange(1, s@.len() as int)
            } else {
                s@
            }),
            spec_all_digits(s@.subrange(start as int, i as int)),
            value as int == spec_digits_value(s@.subrange(start as int, i as int)),
            value <= 255,
        decreases n - i,
    {
        let ghost prefix = s@.subrange(start as int, i as int);
        let ghost next = s@.subrange(start as int, i as int + 1);
        assert(next.drop_last() =~= prefix);
        assert(next.last() == s@[i as int]);
        let c = s.get_char(i);
        match digit_value(c) {
            None => {
                proof {
                    let k = (i - start) as int;
                    assert(digits[k] == c);
                    assert(spec_digit_value(digits[k]) is None);
                    assert(!spec_all_digits(digits));
                }
                return None;
            },
            Some(d) => {
                let v = value * 10 + d;
                proof {
                    assert(spec_digit_value(next.last()) == Some(d as int));
                    assert(spec_digits_value(next) == spec_digits_value(prefix) * 10 + d as int);
                }
                if v > 255 {
                    proof {
                        assert(spec_all_digits(next)) by {
                            assert forall|k: int| 0 <= k < next.len() implies (#[trigger] spec_digit_value(
                                next[k],
                            )) is Some by {
                                if k < prefix.len() {
                                    assert(next[k] == prefix[k]);
                                }
                            }
                        }
                        assert(digits.subrange(0, (i - start + 1) as int) =~= next);
                        lemma_digits_prefix_bound(digits, (i - start + 1) as int);
                    }
                    return None;
                }
                value = v;
                proof {
                    assert forall|k: int| 0 <= k < next.len() implies (#[trigger] spec_digit_value(
                        next[k],
                    )) is Some by {
                        if k < prefix.len() {
                            assert(next[k] == prefix[k]);
                        }
                    }
                }
            },
        }
        i = i + 1;
    }
    assert(s@.subrange(start as int, n as int) =~= digits);
    Some(value as u8)
}

/// A numeral is at least as large as any of its prefixes.
proof fn lemma_digits_prefix_bound(s: Seq<char>, len: int)
    requires
        0 < len <= s.len(),
        spec_all_digits(s.subrange(0, len)),
    ensures
        spec_all_digits(s) ==> spec_digits_value(s) >= spec_digits_value(s.subrange(0, len)),
    decreases s.len() - len,
{
    if len < s.len() && spec_all_digits(s) {
        let longer = s.subrange(0, len + 1);
        assert(longer.drop_last() =~= s.subrange(0, len));
        assert(spec_all_digits(longer)) by {
            assert forall|k: int| 0 <= k < longer.len() implies (#[trigger] spec_digit_value(
                longer[k],
            )) is Some by {
                assert(longer[k] == s[k]);
            }
        }
        assert(spec_digit_value(longer.last()) is Some);
        lemma_digits_value_nonneg(s.subrange(0, len));
        lemma_digits_prefix_bound(s, len + 1);
    }
    if len == s.len() {
        assert(s.subrange(0, len) =~= s);
    }
}

/// `s` followed by spaces up to `width` characters, as `{:<width}` writes it.
pub open spec fn spec_pad_right(s: Seq<char>, width: nat) -> Seq<char> {
    if s.len() >= width {
        s
    } else {
        s + Seq::new((width - s.len()) as nat, |i: int| ' ')
    }
}

/// `s` after spaces up to `width` characters, as `{:>width}` writes it.
pub open spec fn spec_pad_left(s: Seq<char>, width: nat) -> Seq<char> {
    if s.len() >= width {
        s
    } else {
        Seq::new((width - s.len()) as nat, |i: int| ' ') + s
    }
}

/// `count` spaces.
fn spaces(count: usize) -> (s: String)
    ensures
        s@ == Seq::new(count as nat, |i: int| ' '),
{
    let mut s = String::new();
    let mut i: usize = 0;
    while i < count
        invariant
            i <= count,
            s@ == Seq::new(i as nat, |k: int| ' '),
        decreases count - i,
    {
        proof { reveal_strlit(" "); }
        s.append(" ");
        i = i + 1;
        assert(s@ =~= Seq::new(i as nat, |k: int| ' '));
    }
    s
}

/// Left-align `s` in a field of `width` characters.
pub fn pad_right(s: &str, width: usize) -> (r: String)
    ensures
        r@ == spec_pad_right(s@, width as nat),
{
    let n = s.unicode_len();
    let mut r = String::from_str(s);
    if n < width {
        let fill = spaces(width - n);
        r.append(fill.as_str());
    }
    assert(r@ =~= spec_pad_right(s@, width as nat));
    r
}

/// Right-align `s` in a field of `width` characters.
pub fn pad_left(s: &str, width: usize) -> (r: String)
    ensures
        r@ == spec_pad_left(s@, width as nat),
{
    let n = s.unicode_len();
    if n < width {
        let mut r = spaces(width - n);
        r.append(s);
        assert(r@ =~= spec_pad_left(s@, width as nat));
        r
    } else {
        String::from_str(s)
    }
}

} // verus!
