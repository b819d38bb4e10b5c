//! Decimal numbers as they are written in a query.

use crate::text::eq_ignore_case;
use crate::text::is_word_ignore_case;
use vstd::prelude::*;
use vstd::slice::slice_subrange;

verus! {

/// Whether `c` is one of `0` to `9`.
pub open spec fn is_digit(c: char) -> bool {
    '0' <= c && c <= '9'
}

/// The number that the digit `c` stands for.
pub open spec fn digit_value(c: char) -> nat {
    (c as int - '0' as int) as nat
}

/// Whether `s` holds digits only.
pub open spec fn all_digits(s: Seq<char>) -> bool {
    forall|i: int| 0 <= i < s.len() ==> is_digit(#[trigger] s[i])
}

/// The number that the digits of `s` spell in base ten.
pub open spec fn digits_value(s: Seq<char>) -> nat
    decreases s.len(),
{
    if s.len() == 0 {
        0
    } else {
        digits_value(s.drop_last()) * 10 + digit_value(s.last())
    }
}

/// The number that `s` spells: one or more digits, after an optional `+`.
pub open spec fn unsigned_value(s: Seq<char>) -> Option<int> {
    let body = if s.len() > 0 && s[0] == '+' {
        s.skip(1)
    } else {
        s
    };
    if body.len() > 0 && all_digits(body) {
        Some(digits_value(body) as int)
    } else {
        None
    }
}

/// The number that `s` spells: one or more digits, after an optional `+` or
/// `-`.
pub open spec fn signed_value(s: Seq<char>) -> Option<int> {
    if s.len() > 0 && s[0] == '-' {
        let body = s.skip(1);
        if body.len() > 0 && all_digits(body) {
            Some(-(digits_value(body) as int))
        } else {
            None
        }
    } else {
        unsigned_value(s)
    }
}

/// The value of `v`, if there is one and it lies between `min` and `max`.
pub open spec fn within(v: Option<int>, min: int, max: int) -> Option<int> {
    match v {
        Some(n) if min <= n && n <= max => Some(n),
        _ => None,
    }
}

/// The `u8` that `s` spells, if it spells one.
pub open spec fn u8_value(s: Seq<char>) -> Option<u8> {
    match within(unsigned_value(s), 0, u8::MAX as int) {
        Some(n) => Some(n as u8),
        None => None,
    }
}

/// The `u16` that `s` spells, if it spells one.
pub open spec fn u16_value(s: Seq<char>) -> Option<u16> {
    match within(unsigned_value(s), 0, u16::MAX as int) {
        Some(n) => Some(n as u16),
        None => None,
    }
}

/// The `u32` that `s` spells, if it spells one.
pub open spec fn u32_value(s: Seq<char>) -> Option<u32> {
    match within(unsigned_value(s), 0, u32::MAX as int) {
        Some(n) => Some(n as u32),
        None => None,
    }
}

/// The `i32` that `s` spells, if it spells one.
pub open spec fn i32_value(s: Seq<char>) -> Option<i32> {
    match within(signed_value(s), i32::MIN as int, i32::MAX as int) {
        Some(n) => Some(n as i32),
        None => None,
    }
}

/// The `i64` that `s` spells, if it spells one.
pub open spec fn i64_value(s: Seq<char>) -> Option<i64> {
    match within(signed_value(s), i64::MIN as int, i64::MAX as int) {
        Some(n) => Some(n as i64),
        None => None,
    }
}

/// A longer run of digits spells no smaller a number.
pub proof fn lemma_digits_value_prefix(s: Seq<char>, n: int)
    requires
        0 <= n <= s.len(),
    ensures
        digits_value(s.take(n)) <= digits_value(s),
    decreases s.len(),
{
    if n < s.len() {
        lemma_digits_value_prefix(s.drop_last(), n);
        assert(s.drop_last().take(n) == s.take(n));
    } else {
        assert(s.take(n) == s);
    }
}

/// The number spelt by the digits of `s` from `start` on, where there is at
/// least one character, all are digits, and the number is at most `limit`.
fn parse_magnitude(s: &[char], start: usize, limit: u64) -> (r: Option<u64>)
    requires
        start <= s.len(),
    ensures
        r == (if start < s.len() && all_digits(s@.skip(start as int)) && digits_value(
            s@.skip(start as int),
        ) <= limit {
            Some(digits_value(s@.skip(start as int)) as u64)
        } else {
            None
        }),
{
    if start >= s.len() {
        return None;
    }
    let ghost body = s@.skip(start as int);
    let mut acc: u64 = 0;
    let mut i: usize = start;
    while i < s.len()
        invariant
            start <= i <= s.len(),
            body == s@.skip(start as int),
            all_digits(body.take(i - start)),
            acc == digits_value(body.take(i - start)),
            acc <= limit,
        decreases s.len() - i,
    {
        let c = s[i];
        let ghost next = body.take(i - start + 1);
        proof {
            assert(next.drop_last() == body.take(i - start));
            assert(next.last() == c);
        }
        if !('0' <= c && c <= '9') {
            proof {
                assert(!is_digit(body[i - start]));
            }
            return None;
        }
        let d: u64 = (c as u32 - '0' as u32) as u64;
        assert(d == digit_value(c));
        if acc > limit / 10 || d > limit || acc * 10 > limit - d {
            proof {
                if all_digits(body) {
                    lemma_digits_value_prefix(body, i - start + 1);
                }
            }
            return None;
        }
        acc = acc * 10 + d;
        i += 1;
        proof {
            assert forall|k: int| 0 <= k < next.len() implies is_digit(#[trigger] next[k]) by {
                if k < next.len() - 1 {
                    assert(next[k] == body.take(i - start - 1)[k]);
                }
            }
        }
    }
    proof {
        assert(body.take(i - start) == body);
    }
    Some(acc)
}

/// Reads `s` as a `u8`, as `u8::from_str` does.
pub fn parse_u8(s: &[char]) -> (r: Option<u8>)
    ensures
        r == u8_value(s@),
{
    match parse_unsigned(s, 0xff) {
        Some(n) => Some(n as u8),
        None => None,
    }
}

/// Reads `s` as a `u16`, as `u16::from_str` does.
pub fn parse_u16(s: &[char]) -> (r: Option<u16>)
    ensures
        r == u16_value(s@),
{
    match parse_unsigned(s, 0xffff) {
        Some(n) => Some(n as u16),
        None => None,
    }
}

/// Reads `s` as a `u32`, as `u32::from_str` does.
pub fn parse_u32(s: &[char]) -> (r: Option<u32>)
    ensures
        r == u32_value(s@),
{
    match parse_unsigned(s, 0xffff_ffff) {
        Some(n) => Some(n as u32),
        None => None,
    }
}

/// Reads `s` as a number from 0 to `max`: one or more digits after an
/// optional `+`.
fn parse_unsigned(s: &[char], max: u64) -> (r: Option<u64>)
    ensures
        r.is_some() == within(unsigned_value(s@), 0, max as int).is_some(),
        r matches Some(n) ==> within(unsigned_value(s@), 0, max as int) == Some(n as int),
{
    let start: usize = if s.len() > 0 && s[0] == '+' {
        1
    } else {
        0
    };
    proof {
        assert(s@.skip(0) == s@);
    }
    parse_magnitude(s, start, max)
}

/// Reads `s` as a number from `-below` to `max`: one or more digits after an
/// optional `+` or `-`.
fn parse_signed(s: &[char], below: u64, max: u64) -> (r: Option<i64>)
    requires
        below <= 0x8000_0000_0000_0000,
        max <= 0x7fff_ffff_ffff_ffff,
    ensures
        r.is_some() == within(signed_value(s@), -(below as int), max as int).is_some(),
        r matches Some(n) ==> within(signed_value(s@), -(below as int), max as int) == Some(
            n as int,
        ),
{
    if s.len() > 0 && s[0] == '-' {
        match parse_magnitude(s, 1, below) {
            Some(m) => {
                if m == 0x8000_0000_0000_0000 {
                    Some(i64::MIN)
                } else {
                    Some(-(m as i64))
                }
            },
            None => None,
        }
    } else {
        match parse_unsigned(s, max) {
            Some(n) => Some(n as i64),
            None => None,
        }
    }
}

/// Reads `s` as an `i32`, as `i32::from_str` does.
pub fn parse_i32(s: &[char]) -> (r: Option<i32>)
    ensures
        r == i32_value(s@),
{
    match parse_signed(s, 0x8000_0000, 0x7fff_ffff) {
        Some(n) => Some(n as i32),
        None => None,
    }
}

/// Reads `s` as an `i64`, as `i64::from_str` does.
pub fn parse_i64(s: &[char]) -> (r: Option<i64>)
    ensures
        r == i64_value(s@),
{
    parse_signed(s, 0x8000_0000_0000_0000, 0x7fff_ffff_ffff_ffff)
}

/// The digit that stands for `d`.
pub open spec fn digit_char(d: nat) -> char {
    ('0' as int + d) as char
}

/// `n` written in base ten, without leading zeros.
pub open spec fn nat_text(n: nat) -> Seq<char>
    decreases n,
{
    if n < 10 {
        seq![digit_char(n)]
    } else {
        nat_text(n / 10).push(digit_char(n % 10))
    }
}

/// `n` written in base ten, with `-` in front where it is negative.
pub open spec fn int_text(n: int) -> Seq<char> {
    if n < 0 {
        seq!['-'] + nat_text((-n) as nat)
    } else {
        nat_text(n as nat)
    }
}

/// A number written in base ten is digits only, and they spell the number.
pub proof fn lemma_nat_text(n: nat)
    ensures
        nat_text(n).len() > 0,
        all_digits(nat_text(n)),
        digits_value(nat_text(n)) == n,
    decreases n,
{
    if n < 10 {
        assert(nat_text(n).drop_last() == Seq::<char>::empty());
        assert(digits_value(Seq::<char>::empty()) == 0);
        assert(digit_value(digit_char(n)) == n);
    } else {
        lemma_nat_text(n / 10);
        let text = nat_text(n);
        assert(text.drop_last() == nat_text(n / 10));
        assert(digit_value(digit_char(n % 10)) == n % 10);
        assert forall|i: int| 0 <= i < text.len() implies is_digit(#[trigger] text[i]) by {
            if i < text.len() - 1 {
                assert(text[i] == nat_text(n / 10)[i]);
            }
        }
    }
}

/// An integer written in base ten reads back as itself.
pub proof fn lemma_int_text_reads_back(n: int)
    ensures
        signed_value(int_text(n)) == Some(n),
{
    if n < 0 {
        let digits = nat_text((-n) as nat);
        lemma_nat_text((-n) as nat);
        assert(int_text(n).skip(1) == digits);
    } else {
        lemma_nat_text(n as nat);
        assert(is_digit(nat_text(n as nat)[0]));
    }
}

/// The digits that come before the last one of `n`.
spec fn leading_text(n: nat) -> Seq<char> {
    if n < 10 {
        Seq::empty()
    } else {
        nat_text(n / 10)
    }
}

/// Writes `n` in base ten, as `to_string` does for an integer.
pub fn int_string(n: i64) -> (s: String)
    ensures
        s@ == int_text(n as int),
{
    let mut out = String::new();
    let magnitude: u64 = if n < 0 {
        out.push('-');
        ((-(n + 1)) as u64) + 1
    } else {
        n as u64
    };
    let mut reversed: Vec<char> = Vec::new();
    reversed.push(((magnitude % 10) as u8 + 48) as char);
    let mut rest: u64 = magnitude / 10;
    while rest > 0
        invariant
            reversed@.len() > 0,
            nat_text(magnitude as nat) == (if rest > 0 {
                nat_text(rest as nat)
            } else {
                Seq::empty()
            }) + reversed@.reverse(),
        decreases rest,
    {
        let ghost before = reversed@;
        reversed.push(((rest % 10) as u8 + 48) as char);
        proof {
            assert(reversed@.reverse() == seq![digit_char((rest % 10) as nat)] + before.reverse());
            assert(nat_text(rest as nat) == leading_text(rest as nat).push(
                digit_char((rest % 10) as nat),
            ));
        }
        rest = rest / 10;
    }
    let ghost sign = out@;
    let mut i: usize = reversed.len();
    while i > 0
        invariant
            i <= reversed.len(),
            out@ == sign + reversed@.reverse().take(reversed.len() - i),
        decreases i,
    {
        i -= 1;
        out.push(reversed[i]);
        proof {
            let r = reversed@.reverse();
            let done = reversed.len() - i;
            assert(r.take(done) == r.take(done - 1).push(reversed@[i as int]));
        }
    }
    proof {
        assert(reversed@.reverse().take(reversed.len() as int) == reversed@.reverse());
    }
    out
}

/// The index of the first character of `s` from `i` on that is no digit.
pub open spec fn digits_end(s: Seq<char>, i: int) -> int
    decreases s.len() - i,
{
    if 0 <= i < s.len() && is_digit(s[i]) {
        digits_end(s, i + 1)
    } else {
        i
    }
}

/// Whether `s` is a decimal number: digits with at most one `.` among them,
/// at least one digit in all, and then an optional exponent, which is `e` or
/// `E`, an optional sign and one or more digits.
pub open spec fn is_number_literal(s: Seq<char>) -> bool {
    let int_end = digits_end(s, 0);
    let frac_start = if int_end < s.len() && s[int_end] == '.' {
        int_end + 1
    } else {
        int_end
    };
    let frac_end = digits_end(s, frac_start);
    let exp_sign = frac_end + 1;
    let exp_start = if exp_sign < s.len() && (s[exp_sign] == '+' || s[exp_sign] == '-') {
        exp_sign + 1
    } else {
        exp_sign
    };
    &&& int_end + (frac_end - frac_start) > 0
    &&& frac_end == s.len() || {
        &&& s[frac_end] == 'e' || s[frac_end] == 'E'
        &&& digits_end(s, exp_start) > exp_start
        &&& digits_end(s, exp_start) == s.len()
    }
}

/// Whether `s` is a floating-point literal as `f32::from_str` documents it:
/// an optional sign, and then a decimal number or one of `inf`, `infinity`
/// and `nan` in any case.
pub open spec fn is_float_literal(s: Seq<char>) -> bool {
    let body = if s.len() > 0 && (s[0] == '+' || s[0] == '-') {
        s.skip(1)
    } else {
        s
    };
    ||| is_number_literal(body)
    ||| eq_ignore_case(body, "inf"@)
    ||| eq_ignore_case(body, "infinity"@)
    ||| eq_ignore_case(body, "nan"@)
}

/// The index of the first character of `s` from `i` on that is no digit.
fn skip_digits(s: &[char], i: usize) -> (end: usize)
    requires
        i <= s.len(),
    ensures
        end == digits_end(s@, i as int),
        i <= end <= s.len(),
{
    let mut end: usize = i;
    while end < s.len() && '0' <= s[end] && s[end] <= '9'
        invariant
            i <= end <= s.len(),
            digits_end(s@, i as int) == digits_end(s@, end as int),
        decreases s.len() - end,
    {
        end += 1;
    }
    end
}

/// Whether `s` is a decimal number.
fn check_number_literal(s: &[char]) -> (b: bool)
    ensures
        b == is_number_literal(s@),
{
    let int_end = skip_digits(s, 0);
    let frac_start = if int_end < s.len() && s[int_end] == '.' {
        int_end + 1
    } else {
        int_end
    };
    let frac_end = skip_digits(s, frac_start);
    if int_end + (frac_end - frac_start) == 0 {
        return false;
    }
    if frac_end == s.len() {
        return true;
    }
    if s[frac_end] != 'e' && s[frac_end] != 'E' {
        return false;
    }
    let exp_sign = frac_end + 1;
    let exp_start = if exp_sign < s.len() && (s[exp_sign] == '+' || s[exp_sign] == '-') {
        exp_sign + 1
    } else {
        exp_sign
    };
    let exp_end = skip_digits(s, exp_start);
    exp_end > exp_start && exp_end == s.len()
}

/// Whether `s` is a floating-point literal.
pub fn check_float_literal(s: &[char]) -> (b: bool)
    ensures
        b == is_float_literal(s@),
{
    let start: usize = if s.len() > 0 && (s[0] == '+' || s[0] == '-') {
        1
    } else {
        0
    };
    let body = slice_subrange(s, start, s.len());
    proof {
        assert(body@ == s@.skip(start as int));
        assert(s@.skip(0) == s@);
    }
    check_number_literal(body) || is_word_ignore_case(body, "inf") || is_word_ignore_case(
        body,
        "infinity",
    ) || is_word_ignore_case(body, "nan")
}

} // verus!
