//! Decimal formatting and parsing of integers, as `to_string` and `str::parse` do.
use vstd::prelude::*;
use crate::text::{digit_value, is_digit, string_from_chars, chars_of};

verus! {

/// The ASCII digit for `d < 10`.
pub open spec fn digit_char(d: nat) -> char {
    (('0' as u32) + d) as char
}

/// Decimal digits of `n`, most significant first, without leading zeros.
pub open spec fn dec(n: nat) -> Seq<char>
    decreases n,
{
    if n < 10 {
        seq![digit_char(n)]
    } else {
        dec(n / 10).push(digit_char(n % 10))
    }
}

/// Decimal text of a signed integer, with a leading `-` when negative.
pub open spec fn int_dec(i: int) -> Seq<char> {
    if i < 0 {
        seq!['-'] + dec((-i) as nat)
    } else {
        dec(i as nat)
    }
}

/// A character of a decimal numeral: a digit or the minus sign.
pub open spec fn is_numeral_char(c: char) -> bool {
    c == '-' || (48 <= (c as u32) && (c as u32) <= 57)
}

/// Every character of `dec(n)` is a digit.
pub proof fn lemma_dec_digits(n: nat)
    ensures
        forall|i: int| 0 <= i < dec(n).len() ==> 48 <= (#[trigger] dec(n)[i] as u32) <= 57,
    decreases n,
{
    assert(48 <= (digit_char(n % 10) as u32) <= 57);
    if n >= 10 {
        lemma_dec_digits(n / 10);
        let h = dec(n / 10);
        assert forall|i: int| 0 <= i < dec(n).len() implies 48 <= (#[trigger] dec(n)[i] as u32) <= 57 by {
            if i < h.len() {
                assert(dec(n)[i] == h[i]);
            } else {
                assert(dec(n)[i] == digit_char(n % 10));
            }
        }
    } else {
        assert(dec(n)[0] == digit_char(n));
    }
}

/// The decimal text of an integer holds only digits and the minus sign.
pub proof fn lemma_int_dec_numeral(i: int)
    ensures
        forall|k: int| 0 <= k < int_dec(i).len() ==> is_numeral_char(#[trigger] int_dec(i)[k]),
{
    if i < 0 {
        lemma_dec_digits((-i) as nat);
        let d = dec((-i) as nat);
        assert forall|k: int| 0 <= k < int_dec(i).len() implies is_numeral_char(#[trigger] int_dec(i)[k]) by {
            if k > 0 {
                assert(int_dec(i)[k] == d[k - 1]);
            }
        }
    } else {
        lemma_dec_digits(i as nat);
    }
}

/// The ASCII digit character for `d`.
fn digit_to_char(d: u64) -> (c: char)
    requires
        d < 10,
    ensures
        c == digit_char(d as nat),
{
    let u: u8 = 48u8 + (d as u8);
    u as char
}

/// Decimal digits of `n`.
pub fn u64_to_chars(n: u64) -> (v: Vec<char>)
    ensures
        v@ == dec(n as nat),
    decreases n,
{
    if n < 10 {
        let mut v: Vec<char> = Vec::new();
        v.push(digit_to_char(n));
        assert(v@ =~= dec(n as nat));
        v
    } else {
        let mut v = u64_to_chars(n / 10);
        v.push(digit_to_char(n % 10));
        v
    }
}

/// `u64::to_string`.
pub fn u64_to_string(n: u64) -> (s: String)
    ensures
        s@ == dec(n as nat),
{
    let v = u64_to_chars(n);
    string_from_chars(&v)
}

/// Decimal text of a signed integer.
pub fn i64_to_chars(n: i64) -> (v: Vec<char>)
    ensures
        v@ == int_dec(n as int),
{
    if n < 0 {
        let m: u64 = (0i128 - (n as i128)) as u64;
        let mut v: Vec<char> = Vec::new();
        v.push('-');
        let d = u64_to_chars(m);
        crate::text::push_all(&mut v, &d);
        assert(v@ =~= int_dec(n as int));
        v
    } else {
        u64_to_chars(n as u64)
    }
}

/// `i64::to_string`.
pub fn i64_to_string(n: i64) -> (s: String)
    ensures
        s@ == int_dec(n as int),
{
    let v = i64_to_chars(n);
    string_from_chars(&v)
}

// ---------------------------------------------------------------------------
// Parsing
// ---------------------------------------------------------------------------

/// Why `str::parse` of an integer failed (`core::num::IntErrorKind`).
#[derive(Debug, Clone, Copy, PartialEq, Eq)]
pub enum IntErr {
    /// The text was empty.
    Empty,
    /// A character other than a digit (or a lone sign).
    InvalidDigit,
    /// The value is above the type's largest value.
    PosOverflow,
    /// The value is below the type's smallest value.
    NegOverflow,
}

/// Every character is an ASCII digit.
pub open spec fn all_digits(d: Seq<char>) -> bool {
    forall|i: int| 0 <= i < d.len() ==> is_digit(#[trigger] d[i])
}

/// The value of a run of decimal digits.
pub open spec fn digits_value(d: Seq<char>) -> nat
    decreases d.len(),
{
    if d.len() == 0 {
        0
    } else {
        digits_value(d.drop_last()) * 10 + digit_value(d.last())
    }
}

/// Reads digits left to right as `from_str_radix` does: the first character
/// that is not a digit, or the first digit that takes the value above `max`,
/// stops the scan with that error.
pub open spec fn scan_digits(d: Seq<char>, max: nat, overflow: IntErr) -> Result<nat, IntErr>
    decreases d.len(),
{
    if d.len() == 0 {
        Ok(0)
    } else {
        match scan_digits(d.drop_last(), max, overflow) {
            Err(e) => Err(e),
            Ok(v) => if !is_digit(d.last()) {
                Err(IntErr::InvalidDigit)
            } else if v * 10 + digit_value(d.last()) > max {
                Err(overflow)
            } else {
                Ok(v * 10 + digit_value(d.last()))
            },
        }
    }
}

/// `str::parse` of an unsigned integer type whose largest value is `max`.
pub open spec fn parse_uint(s: Seq<char>, max: nat) -> Result<nat, IntErr> {
    if s.len() == 0 {
        Err(IntErr::Empty)
    } else if (s[0] == '+' || s[0] == '-') && s.len() == 1 {
        Err(IntErr::InvalidDigit)
    } else if s[0] == '+' {
        scan_digits(s.skip(1), max, IntErr::PosOverflow)
    } else {
        scan_digits(s, max, IntErr::PosOverflow)
    }
}

/// `str::parse::<i64>`.
pub open spec fn parse_i64_spec(s: Seq<char>) -> Result<int, IntErr> {
    if s.len() > 1 && s[0] == '-' {
        match scan_digits(s.skip(1), 0x8000_0000_0000_0000, IntErr::NegOverflow) {
            Ok(v) => Ok(-(v as int)),
            Err(e) => Err(e),
        }
    } else {
        match parse_uint(s, i64::MAX as nat) {
            Ok(v) => Ok(v as int),
            Err(e) => Err(e),
        }
    }
}

/// A successful scan reads a run of digits worth its digit value.
pub proof fn lemma_scan_ok(d: Seq<char>, max: nat, overflow: IntErr)
    ensures
        scan_digits(d, max, overflow) is Ok ==> all_digits(d) && scan_digits(d, max, overflow)
            == Ok::<nat, IntErr>(digits_value(d)) && digits_value(d) <= max,
    decreases d.len(),
{
    if d.len() > 0 {
        lemma_scan_ok(d.drop_last(), max, overflow);
        if scan_digits(d, max, overflow) is Ok {
            assert forall|i: int| 0 <= i < d.len() implies is_digit(#[trigger] d[i]) by {
                if i < d.len() - 1 {
                    assert(d.drop_last()[i] == d[i]);
                }
            }
        }
    }
}

/// Scans `d[start..]` for digits worth at most `max`.
fn scan_digit_run(d: &Vec<char>, start: usize, max: u64, overflow: IntErr) -> (r: Result<u64, IntErr>)
    requires
        start <= d.len(),
    ensures
        r == (match scan_digits(d@.skip(start as int), max as nat, overflow) {
            Ok(v) => Ok::<u64, IntErr>(v as u64),
            Err(e) => Err(e),
        }),
{
    let ghost body = d@.skip(start as int);
    let mut acc: u64 = 0;
    let mut i: usize = start;
    assert(body.take(0) =~= Seq::<char>::empty());
    while i < d.len()
        invariant
            start <= i <= d.len(),
            body == d@.skip(start as int),
            scan_digits(body.take(i - start), max as nat, overflow) == Ok::<nat, IntErr>(acc as nat),
            acc <= max,
        decreases d.len() - i,
    {
        let c = d[i];
        assert(body.take(i - start + 1).drop_last() =~= body.take(i - start));
        assert(body.take(i - start + 1).last() == c);
        if !('0' <= c && c <= '9') {
            proof {
                lemma_scan_prefix_err(body, i - start + 1, max as nat, overflow);
            }
            return Err(IntErr::InvalidDigit);
        }
        let dv: u64 = ((c as u32) - 48) as u64;
        let next: u128 = (acc as u128) * 10 + (dv as u128);
        if next > max as u128 {
            proof {
                lemma_scan_prefix_err(body, i - start + 1, max as nat, overflow);
            }
            return Err(overflow);
        }
        acc = next as u64;
        i = i + 1;
    }
    assert(body.take(i - start) =~= body);
    Ok(acc)
}

/// Once a prefix of the digits fails to scan, the whole run fails the same way.
pub proof fn lemma_scan_prefix_err(d: Seq<char>, k: int, max: nat, overflow: IntErr)
    requires
        0 <= k <= d.len(),
        scan_digits(d.take(k), max, overflow) is Err,
    ensures
        scan_digits(d, max, overflow) == scan_digits(d.take(k), max, overflow),
    decreases d.len(),
{
    if k < d.len() {
        assert(d.drop_last().take(k) =~= d.take(k));
        lemma_scan_prefix_err(d.drop_last(), k, max, overflow);
    } else {
        assert(d.take(k) =~= d);
    }
}

/// `str::parse` of an unsigned integer no larger than `max`.
pub fn parse_unsigned(s: &Vec<char>, max: u64) -> (r: Result<u64, IntErr>)
    ensures
        r == (match parse_uint(s@, max as nat) {
            Ok(v) => Ok::<u64, IntErr>(v as u64),
            Err(e) => Err(e),
        }),
{
    if s.len() == 0 {
        return Err(IntErr::Empty);
    }
    if (s[0] == '+' || s[0] == '-') && s.len() == 1 {
        return Err(IntErr::InvalidDigit);
    }
    let start: usize = if s[0] == '+' {
        1
    } else {
        0
    };
    assert(s@.skip(0) =~= s@);
    scan_digit_run(s, start, max, IntErr::PosOverflow)
}

/// `str::parse::<u64>`.
pub fn parse_u64(s: &Vec<char>) -> (r: Result<u64, IntErr>)
    ensures
        r == (match parse_uint(s@, u64::MAX as nat) {
            Ok(v) => Ok::<u64, IntErr>(v as u64),
            Err(e) => Err(e),
        }),
{
    parse_unsigned(s, u64::MAX)
}

/// `str::parse::<i64>`.
pub fn parse_i64(s: &Vec<char>) -> (r: Result<i64, IntErr>)
    ensures
        r == (match parse_i64_spec(s@) {
            Ok(v) => Ok::<i64, IntErr>(v as i64),
            Err(e) => Err(e),
        }),
{
    if s.len() > 1 && s[0] == '-' {
        match scan_digit_run(s, 1, 0x8000_0000_0000_0000u64, IntErr::NegOverflow) {
            Ok(v) => Ok((0i128 - (v as i128)) as i64),
            Err(e) => Err(e),
        }
    } else {
        match parse_unsigned(s, 0x7fff_ffff_ffff_ffffu64) {
            Ok(v) => Ok(v as i64),
            Err(e) => Err(e),
        }
    }
}

/// The text of an integer parse error (`ParseIntError`'s `Display`).
pub open spec fn int_err_text(e: IntErr) -> Seq<char> {
    match e {
        IntErr::Empty => "cannot parse integer from empty string"@,
        IntErr::InvalidDigit => "invalid digit found in string"@,
        IntErr::PosOverflow => "number too large to fit in target type"@,
        IntErr::NegOverflow => "number too small to fit in target type"@,
    }
}

/// The message that `ParseIntError` displays for `e`.
pub fn int_err_message(e: IntErr) -> (s: String)
    ensures
        s@ == int_err_text(e),
{
    match e {
        IntErr::Empty => crate::text::owned("cannot parse integer from empty string"),
        IntErr::InvalidDigit => crate::text::owned("invalid digit found in string"),
        IntErr::PosOverflow => crate::text::owned("number too large to fit in target type"),
        IntErr::NegOverflow => crate::text::owned("number too small to fit in target type"),
    }
}

} // verus!
