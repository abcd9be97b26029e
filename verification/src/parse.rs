//! Lexical primitives shared by the date, time and date-time
//! grammars: fixed-width digit runs, the sign marker and the
//! fractional suffix.
//!
//! Every parser recognises a prefix of its byte-slice input and
//! returns the unconsumed remainder next to the parsed value.  Two
//! failures are distinguished: [`ParseErr::Error`], the input does
//! not match the grammar, and [`ParseErr::Incomplete`], the input
//! ended where more bytes could still complete a match.  Each parser
//! is specified against a specification-level function of the input
//! sequence that defines the grammar.

use vstd::prelude::*;
use vstd::slice::slice_index_get;
use vstd::slice::slice_subrange;

pub mod date;
pub mod datetime;
pub mod time;

verus! {

/// A parse failure: either the input cannot match the grammar, or it
/// ended too early to decide.
#[derive(Eq, PartialEq, Clone, Copy, Debug)]
pub enum ParseErr {
    Error,
    Incomplete,
}

/// A parsed value next to the unconsumed remainder of the input.
pub type ParseResult<'a, T> = Result<(&'a [u8], T), ParseErr>;

/// The specification-level counterpart of [`ParseResult`]: the
/// remainder as a sequence.
pub type SpecParseResult<T> = Result<(Seq<u8>, T), ParseErr>;

/// Lift an executable parse result to its specification-level view.
pub open spec fn parsed<T>(r: Result<(&[u8], T), ParseErr>) -> SpecParseResult<T> {
    match r {
        Ok((rest, v)) => Ok((rest@, v)),
        Err(e) => Err(e),
    }
}

/// Whether the byte is an ASCII digit.
pub open spec fn is_digit_byte(b: u8) -> bool {
    48 <= b <= 57
}

/// Whether every byte of the sequence is an ASCII digit.
pub open spec fn all_digits(s: Seq<u8>) -> bool {
    forall|k: int| 0 <= k < s.len() ==> is_digit_byte(#[trigger] s[k])
}

/// The number denoted by a sequence of ASCII digits, most significant
/// first.
pub open spec fn spec_digits_val(s: Seq<u8>) -> int
    decreases s.len(),
{
    if s.len() == 0 {
        0
    } else {
        spec_digits_val(s.drop_last()) * 10 + (s.last() - 48)
    }
}

/// The n-th power of ten.
pub open spec fn spec_pow10(n: nat) -> int
    decreases n,
{
    if n == 0 {
        1
    } else {
        10 * spec_pow10((n - 1) as nat)
    }
}

/// A digit run of length n denotes a number below the n-th power of
/// ten.
pub proof fn lemma_digits_val_bound(s: Seq<u8>)
    requires
        all_digits(s),
    ensures
        0 <= spec_digits_val(s) < spec_pow10(s.len()),
    decreases s.len(),
{
    if s.len() > 0 {
        assert(all_digits(s.drop_last()));
        lemma_digits_val_bound(s.drop_last());
    }
}

/// Fold a buffer of ASCII digits into the number it denotes, most
/// significant digit first.
pub fn buf_to_int(buf: &[u8]) -> (r: u32)
    requires
        buf@.len() <= 9,
        all_digits(buf@),
    ensures
        r == spec_digits_val(buf@),
        r < spec_pow10(buf@.len()),
{
    let mut sum: u32 = 0;
    let mut k: usize = 0;
    proof {
        assert(buf@.take(0) =~= Seq::<u8>::empty());
    }
    while k < buf.len()
        invariant
            0 <= k <= buf@.len() <= 9,
            all_digits(buf@),
            sum == spec_digits_val(buf@.take(k as int)),
            sum < spec_pow10(k as nat),
        decreases buf@.len() - k,
    {
        proof {
            reveal_with_fuel(spec_pow10, 10);
            lemma_pow10_monotonic(k as nat, 8);
            assert(buf@.take(k + 1).drop_last() =~= buf@.take(k as int));
            assert(buf@.take(k + 1).last() == buf@[k as int]);
        }
        let digit = *slice_index_get(buf, k) - 48;
        sum = sum * 10 + digit as u32;
        k = k + 1;
    }
    proof {
        assert(buf@.take(buf@.len() as int) =~= buf@);
    }
    sum
}

/// Powers of ten grow with the exponent.
proof fn lemma_pow10_monotonic(a: nat, b: nat)
    requires
        a <= b,
    ensures
        1 <= spec_pow10(a) <= spec_pow10(b),
    decreases b,
{
    if b > 0 {
        if a == b {
            lemma_pow10_monotonic((a - 1) as nat, (b - 1) as nat);
        } else {
            lemma_pow10_monotonic(a, (b - 1) as nat);
        }
    }
}

/// A run of exactly n ASCII digits, folded into the number it
/// denotes; fewer than n digits before a non-digit or the end of the
/// input is a format error.  The fixed width is what lets the
/// separator-free basic format be parsed unambiguously.
pub open spec fn spec_take_digits(i: Seq<u8>, n: nat) -> SpecParseResult<u16> {
    if i.len() >= n && all_digits(i.take(n as int)) {
        Ok((i.skip(n as int), spec_digits_val(i.take(n as int)) as u16))
    } else {
        Err(ParseErr::Error)
    }
}

/// Consume exactly n digits and fold them into a number.
pub fn take_digits(i: &[u8], n: usize) -> (r: ParseResult<u16>)
    requires
        1 <= n <= 4,
    ensures
        parsed(r) == spec_take_digits(i@, n as nat),
        r matches Ok((rest, v)) ==> v < spec_pow10(n as nat) && rest@ == i@.skip(n as int),
{
    if i.len() < n {
        return Err(ParseErr::Error);
    }
    let mut k: usize = 0;
    while k < n
        invariant
            0 <= k <= n <= i@.len(),
            forall|j: int| 0 <= j < k ==> is_digit_byte(#[trigger] i@[j]),
        decreases n - k,
    {
        let b = *slice_index_get(i, k);
        if b < 48 || b > 57 {
            proof {
                assert(!is_digit_byte(i@.take(n as int)[k as int]));
            }
            return Err(ParseErr::Error);
        }
        k = k + 1;
    }
    let digits = slice_subrange(i, 0, n);
    proof {
        reveal_with_fuel(spec_pow10, 5);
        assert(digits@ =~= i@.take(n as int));
        lemma_digits_val_bound(digits@);
        lemma_pow10_monotonic(n as nat, 4);
    }
    let v = buf_to_int(digits);
    Ok((slice_subrange(i, n, i.len()), v as u16))
}

/// A single expected byte, such as a separator: anything else,
/// including the end of the input, is a format error.
pub open spec fn spec_char(i: Seq<u8>, c: u8) -> SpecParseResult<()> {
    if i.len() >= 1 && i[0] == c {
        Ok((i.skip(1), ()))
    } else {
        Err(ParseErr::Error)
    }
}

/// Consume one expected byte.
pub fn char_byte(i: &[u8], c: u8) -> (r: ParseResult<()>)
    ensures
        parsed(r) == spec_char(i@, c),
{
    if i.len() >= 1 && *slice_index_get(i, 0) == c {
        Ok((slice_subrange(i, 1, i.len()), ()))
    } else {
        Err(ParseErr::Error)
    }
}

/// An expected byte behind `cond`: consumed only in the extended
/// format, where separators are present.
pub open spec fn spec_cond_char(cond: bool, i: Seq<u8>, c: u8) -> SpecParseResult<()> {
    if cond {
        spec_char(i, c)
    } else {
        Ok((i, ()))
    }
}

/// A run of exactly one digit, as a number.
pub open spec fn spec_one_digit(i: Seq<u8>) -> SpecParseResult<u8> {
    match spec_take_digits(i, 1) {
        Ok((r, v)) => Ok((r, v as u8)),
        Err(e) => Err(e),
    }
}

/// Consume exactly one digit.
pub fn one_digit(i: &[u8]) -> (r: ParseResult<u8>)
    ensures
        parsed(r) == spec_one_digit(i@),
        r matches Ok((_, v)) ==> v < 10,
{
    proof {
        reveal_with_fuel(spec_pow10, 2);
    }
    match take_digits(i, 1) {
        Ok((rest, v)) => Ok((rest, v as u8)),
        Err(e) => Err(e),
    }
}

/// A run of exactly two digits, as a number.
pub open spec fn spec_two_digits(i: Seq<u8>) -> SpecParseResult<u8> {
    match spec_take_digits(i, 2) {
        Ok((r, v)) => Ok((r, v as u8)),
        Err(e) => Err(e),
    }
}

/// Consume exactly two digits.
pub fn two_digits(i: &[u8]) -> (r: ParseResult<u8>)
    ensures
        parsed(r) == spec_two_digits(i@),
        r matches Ok((_, v)) ==> v < 100,
{
    proof {
        reveal_with_fuel(spec_pow10, 3);
    }
    match take_digits(i, 2) {
        Ok((rest, v)) => Ok((rest, v as u8)),
        Err(e) => Err(e),
    }
}

/// A run of exactly three digits, as a number.
pub open spec fn spec_three_digits(i: Seq<u8>) -> SpecParseResult<u16> {
    spec_take_digits(i, 3)
}

/// Consume exactly three digits.
pub fn three_digits(i: &[u8]) -> (r: ParseResult<u16>)
    ensures
        parsed(r) == spec_three_digits(i@),
        r matches Ok((_, v)) ==> v < 1000,
{
    proof {
        reveal_with_fuel(spec_pow10, 4);
    }
    take_digits(i, 3)
}

/// A run of exactly four digits, as a number.
pub open spec fn spec_four_digits(i: Seq<u8>) -> SpecParseResult<u16> {
    spec_take_digits(i, 4)
}

/// Consume exactly four digits.
pub fn four_digits(i: &[u8]) -> (r: ParseResult<u16>)
    ensures
        parsed(r) == spec_four_digits(i@),
        r matches Ok((_, v)) ==> v < 10000,
{
    proof {
        reveal_with_fuel(spec_pow10, 5);
    }
    take_digits(i, 4)
}

/// The sign marker before a year or century: `+` is positive; `-`,
/// U+2212 (minus sign) and U+2010 (hyphen) are negative.  An input
/// that ends inside a possible marker is incomplete rather than
/// mismatched.
pub open spec fn spec_sign(i: Seq<u8>) -> SpecParseResult<i8> {
    if i.len() == 0 {
        Err(ParseErr::Incomplete)
    } else if i[0] == 43 {
        Ok((i.skip(1), 1i8))
    } else if i[0] == 45 {
        Ok((i.skip(1), -1i8))
    } else if i[0] == 0xe2 {
        if i.len() >= 3 && ((i[1] == 0x88 && i[2] == 0x92) || (i[1] == 0x80 && i[2] == 0x90)) {
            Ok((i.skip(3), -1i8))
        } else if i.len() == 1 || (i.len() == 2 && (i[1] == 0x88 || i[1] == 0x80)) {
            Err(ParseErr::Incomplete)
        } else {
            Err(ParseErr::Error)
        }
    } else {
        Err(ParseErr::Error)
    }
}

/// Consume a sign marker.
pub fn sign(i: &[u8]) -> (r: ParseResult<i8>)
    ensures
        parsed(r) == spec_sign(i@),
{
    if i.len() == 0 {
        return Err(ParseErr::Incomplete);
    }
    let b0 = *slice_index_get(i, 0);
    if b0 == 43 {
        Ok((slice_subrange(i, 1, i.len()), 1))
    } else if b0 == 45 {
        Ok((slice_subrange(i, 1, i.len()), -1))
    } else if b0 == 0xe2 {
        if i.len() >= 3 {
            let b1 = *slice_index_get(i, 1);
            let b2 = *slice_index_get(i, 2);
            if (b1 == 0x88 && b2 == 0x92) || (b1 == 0x80 && b2 == 0x90) {
                return Ok((slice_subrange(i, 3, i.len()), -1));
            }
        }
        if i.len() == 1 {
            return Err(ParseErr::Incomplete);
        }
        let b1 = *slice_index_get(i, 1);
        if i.len() == 2 && (b1 == 0x88 || b1 == 0x80) {
            Err(ParseErr::Incomplete)
        } else {
            Err(ParseErr::Error)
        }
    } else {
        Err(ParseErr::Error)
    }
}

/// The length of the run of ASCII digits at the front of the
/// sequence.
pub open spec fn spec_digit_run_len(s: Seq<u8>) -> nat
    decreases s.len(),
{
    if s.len() == 0 || !is_digit_byte(s[0]) {
        0
    } else {
        1 + spec_digit_run_len(s.skip(1))
    }
}

/// The value of a run of fraction digits read as nanoseconds, where
/// `scale` is the nanosecond count of the whole unit: each digit is
/// worth a tenth of the scale of the digit before it, rounding toward
/// zero.
pub open spec fn spec_frac_val(digits: Seq<u8>, scale: int) -> int
    decreases digits.len(),
{
    if digits.len() == 0 {
        0
    } else {
        (digits[0] - 48) * (scale / 10) + spec_frac_val(digits.skip(1), scale / 10)
    }
}

/// The fraction digits denote less than one whole unit.
pub proof fn lemma_frac_val_bound(digits: Seq<u8>, scale: int)
    requires
        scale >= 0,
        all_digits(digits),
    ensures
        0 <= spec_frac_val(digits, scale) <= if scale >= 1 {
            scale - 1
        } else {
            0
        },
    decreases digits.len(),
{
    if digits.len() > 0 {
        assert(is_digit_byte(digits[0]));
        assert(all_digits(digits.skip(1)));
        lemma_frac_val_bound(digits.skip(1), scale / 10);
        let d0 = digits[0] - 48;
        let q = scale / 10;
        assert(d0 * q <= 9 * q) by (nonlinear_arith)
            requires
                0 <= d0 <= 9,
                q >= 0,
        ;
        assert(10 * q <= scale);
    }
}

/// The digit run at the front of a sequence consists of digits and is
/// no longer than the sequence.
pub proof fn lemma_digit_run(s: Seq<u8>)
    ensures
        spec_digit_run_len(s) <= s.len(),
        all_digits(s.take(spec_digit_run_len(s) as int)),
    decreases s.len(),
{
    if s.len() > 0 && is_digit_byte(s[0]) {
        lemma_digit_run(s.skip(1));
        let run = spec_digit_run_len(s);
        assert(s.take(run as int).skip(1) =~= s.skip(1).take(spec_digit_run_len(s.skip(1)) as int));
        assert forall|k: int| 0 <= k < run implies is_digit_byte(#[trigger] s.take(run as int)[k]) by {
            if k > 0 {
                assert(s.take(run as int)[k] == s.take(run as int).skip(1)[k - 1]);
            }
        }
    }
}

/// The fractional suffix: a `.` followed by at least one digit,
/// consumed to the end of the digit run and read as nanoseconds of
/// the unit whose length is `subunit`.  A missing `.` is a format
/// error (the caller treats it as "no fraction"); an empty input is
/// incomplete.
pub open spec fn spec_fraction(i: Seq<u8>, subunit: u64) -> SpecParseResult<u64> {
    if i.len() == 0 {
        Err(ParseErr::Incomplete)
    } else if i[0] != 46 {
        Err(ParseErr::Error)
    } else {
        let k = spec_digit_run_len(i.skip(1));
        if k == 0 {
            Err(ParseErr::Error)
        } else {
            Ok((i.skip(1 + k as int), spec_frac_val(i.skip(1).take(k as int), subunit as int) as u64))
        }
    }
}

/// Read the digit run at the front of the input as nanoseconds of a
/// unit `scale` nanoseconds long, and count the digits consumed.
fn frac_digits(i: &[u8], scale: u64) -> (r: (u64, usize))
    ensures
        r.0 == spec_frac_val(i@.take(spec_digit_run_len(i@) as int), scale as int),
        r.1 == spec_digit_run_len(i@),
        r.1 <= i@.len(),
        scale >= 1 ==> r.0 < scale,
    decreases i@.len(),
{
    proof {
        lemma_digit_run(i@);
        lemma_frac_val_bound(i@.take(spec_digit_run_len(i@) as int), scale as int);
    }
    if i.len() == 0 {
        return (0, 0);
    }
    let b = *slice_index_get(i, 0);
    if b < 48 || b > 57 {
        return (0, 0);
    }
    let rest = slice_subrange(i, 1, i.len());
    let (rest_val, rest_cnt) = frac_digits(rest, scale / 10);
    proof {
        let run = spec_digit_run_len(i@);
        assert(run == 1 + spec_digit_run_len(i@.skip(1)));
        assert(i@.take(run as int).skip(1) =~= i@.skip(1).take(spec_digit_run_len(i@.skip(1)) as int));
        assert(i@.take(run as int)[0] == i@[0]);
    }
    ((b - 48) as u64 * (scale / 10) + rest_val, rest_cnt + 1)
}

/// Consume a fractional suffix and read it as nanoseconds of a unit
/// `subunit` nanoseconds long.
pub fn fraction(i: &[u8], subunit: u64) -> (r: ParseResult<u64>)
    requires
        10 <= subunit,
    ensures
        parsed(r) == spec_fraction(i@, subunit),
        r matches Ok((rest, v)) ==> v < subunit,
{
    if i.len() == 0 {
        return Err(ParseErr::Incomplete);
    }
    if *slice_index_get(i, 0) != 46 {
        return Err(ParseErr::Error);
    }
    let after_dot = slice_subrange(i, 1, i.len());
    let (val, cnt) = frac_digits(after_dot, subunit);
    if cnt == 0 {
        return Err(ParseErr::Error);
    }
    proof {
        let k = spec_digit_run_len(i@.skip(1));
        assert(i@.skip(1).skip(k as int) =~= i@.skip(1 + k as int));
        lemma_digit_run(i@.skip(1));
        lemma_frac_val_bound(i@.skip(1).take(k as int), subunit as int);
    }
    Ok((slice_subrange(after_dot, cnt, after_dot.len()), val))
}

} // verus!
