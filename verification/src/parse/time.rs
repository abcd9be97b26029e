//! The time grammar: naive times at three precisions in basic and
//! extended (colon-separated) form, optionally led by a literal `T`,
//! optionally followed by a fractional suffix and/or a timezone
//! suffix (`Z`, or a signed offset with an optional minute part).

use vstd::prelude::*;

use crate::parse::char_byte;
use crate::parse::fraction;
use crate::parse::parsed;
use crate::parse::sign;
use crate::parse::spec_char;
use crate::parse::spec_cond_char;
use crate::parse::spec_fraction;
use crate::parse::spec_sign;
use crate::parse::spec_two_digits;
use crate::parse::two_digits;
use crate::parse::ParseErr;
use crate::parse::ParseResult;
use crate::parse::SpecParseResult;
use crate::time::AnyTime;
use crate::time::ApproxAnyTime;
use crate::time::ApproxGlobalTime;
use crate::time::ApproxLocalTime;
use crate::time::ApproxNaiveTime;
use crate::time::GlobalTime;
use crate::time::HTime;
use crate::time::HmTime;
use crate::time::HmsTime;
use crate::time::LocalTime;
use crate::time::NANOS_PER_HOUR;
use crate::time::NANOS_PER_MINUTE;
use crate::time::NANOS_PER_SECOND;

verus! {

/// A two-digit hour.
pub fn hour(i: &[u8]) -> (r: ParseResult<u8>)
    ensures
        parsed(r) == spec_two_digits(i@),
        r matches Ok((_, v)) ==> v < 100,
{
    two_digits(i)
}

/// A two-digit minute.
pub fn minute(i: &[u8]) -> (r: ParseResult<u8>)
    ensures
        parsed(r) == spec_two_digits(i@),
        r matches Ok((_, v)) ==> v < 100,
{
    two_digits(i)
}

/// A two-digit second.
pub fn second(i: &[u8]) -> (r: ParseResult<u8>)
    ensures
        parsed(r) == spec_two_digits(i@),
        r matches Ok((_, v)) ==> v < 100,
{
    two_digits(i)
}

/// An hour-minute-second time: `hh:mm:ss` extended, `hhmmss` basic.
pub open spec fn spec_time_hms_format(i: Seq<u8>, extended: bool) -> SpecParseResult<HmsTime> {
    match spec_two_digits(i) {
        Err(e) => Err(e),
        Ok((i1, h)) => match spec_cond_char(extended, i1, 58) {
            Err(e) => Err(e),
            Ok((i2, _)) => match spec_two_digits(i2) {
                Err(e) => Err(e),
                Ok((i3, m)) => match spec_cond_char(extended, i3, 58) {
                    Err(e) => Err(e),
                    Ok((i4, _)) => match spec_two_digits(i4) {
                        Err(e) => Err(e),
                        Ok((i5, s)) => Ok((i5, HmsTime { hour: h, minute: m, second: s })),
                    },
                },
            },
        },
    }
}

fn time_hms_format(i: &[u8], extended: bool) -> (r: ParseResult<HmsTime>)
    ensures
        parsed(r) == spec_time_hms_format(i@, extended),
{
    let (i1, h) = match hour(i) {
        Ok(x) => x,
        Err(e) => {
            return Err(e);
        },
    };
    let i2 = if extended {
        match char_byte(i1, 58) {
            Ok((r, _)) => r,
            Err(e) => {
                return Err(e);
            },
        }
    } else {
        i1
    };
    let (i3, m) = match minute(i2) {
        Ok(x) => x,
        Err(e) => {
            return Err(e);
        },
    };
    let i4 = if extended {
        match char_byte(i3, 58) {
            Ok((r, _)) => r,
            Err(e) => {
                return Err(e);
            },
        }
    } else {
        i3
    };
    match second(i4) {
        Ok((i5, s)) => Ok((i5, HmsTime { hour: h, minute: m, second: s })),
        Err(e) => Err(e),
    }
}

/// An hour-minute-second time in either form, extended tried first.
pub open spec fn spec_time_hms(i: Seq<u8>) -> SpecParseResult<HmsTime> {
    match spec_time_hms_format(i, true) {
        Ok(x) => Ok(x),
        Err(ParseErr::Incomplete) => Err(ParseErr::Incomplete),
        Err(ParseErr::Error) => spec_time_hms_format(i, false),
    }
}

/// Consume an hour-minute-second time, extended form first.
pub fn time_hms(i: &[u8]) -> (r: ParseResult<HmsTime>)
    ensures
        parsed(r) == spec_time_hms(i@),
{
    match time_hms_format(i, true) {
        Ok(x) => Ok(x),
        Err(ParseErr::Incomplete) => Err(ParseErr::Incomplete),
        Err(ParseErr::Error) => time_hms_format(i, false),
    }
}

/// An hour-minute time: `hh:mm` extended, `hhmm` basic.
pub open spec fn spec_time_hm_format(i: Seq<u8>, extended: bool) -> SpecParseResult<HmTime> {
    match spec_two_digits(i) {
        Err(e) => Err(e),
        Ok((i1, h)) => match spec_cond_char(extended, i1, 58) {
            Err(e) => Err(e),
            Ok((i2, _)) => match spec_two_digits(i2) {
                Err(e) => Err(e),
                Ok((i3, m)) => Ok((i3, HmTime { hour: h, minute: m })),
            },
        },
    }
}

fn time_hm_format(i: &[u8], extended: bool) -> (r: ParseResult<HmTime>)
    ensures
        parsed(r) == spec_time_hm_format(i@, extended),
{
    let (i1, h) = match hour(i) {
        Ok(x) => x,
        Err(e) => {
            return Err(e);
        },
    };
    let i2 = if extended {
        match char_byte(i1, 58) {
            Ok((r, _)) => r,
            Err(e) => {
                return Err(e);
            },
        }
    } else {
        i1
    };
    match minute(i2) {
        Ok((i3, m)) => Ok((i3, HmTime { hour: h, minute: m })),
        Err(e) => Err(e),
    }
}

/// An hour-minute time in either form, extended tried first.
pub open spec fn spec_time_hm(i: Seq<u8>) -> SpecParseResult<HmTime> {
    match spec_time_hm_format(i, true) {
        Ok(x) => Ok(x),
        Err(ParseErr::Incomplete) => Err(ParseErr::Incomplete),
        Err(ParseErr::Error) => spec_time_hm_format(i, false),
    }
}

/// Consume an hour-minute time, extended form first.
pub fn time_hm(i: &[u8]) -> (r: ParseResult<HmTime>)
    ensures
        parsed(r) == spec_time_hm(i@),
{
    match time_hm_format(i, true) {
        Ok(x) => Ok(x),
        Err(ParseErr::Incomplete) => Err(ParseErr::Incomplete),
        Err(ParseErr::Error) => time_hm_format(i, false),
    }
}

/// An hour-only time.
pub open spec fn spec_time_h(i: Seq<u8>) -> SpecParseResult<HTime> {
    match spec_two_digits(i) {
        Ok((r, h)) => Ok((r, HTime { hour: h })),
        Err(e) => Err(e),
    }
}

/// Consume an hour-only time.
pub fn time_h(i: &[u8]) -> (r: ParseResult<HTime>)
    ensures
        parsed(r) == spec_time_h(i@),
{
    match hour(i) {
        Ok((rest, h)) => Ok((rest, HTime { hour: h })),
        Err(e) => Err(e),
    }
}

/// The UTC designator `Z`: offset zero.
pub open spec fn spec_timezone_utc(i: Seq<u8>) -> SpecParseResult<i16> {
    match spec_char(i, 90) {
        Ok((r, _)) => Ok((r, 0i16)),
        Err(e) => Err(e),
    }
}

/// Consume the UTC designator.
pub fn timezone_utc(i: &[u8]) -> (r: ParseResult<i16>)
    ensures
        parsed(r) == spec_timezone_utc(i@),
{
    match char_byte(i, 90) {
        Ok((rest, _)) => Ok((rest, 0)),
        Err(e) => Err(e),
    }
}

/// A fixed offset: a sign, a two-digit hour and an optional two-digit
/// minute behind an optional colon, read as signed minutes from UTC.
/// An input that ends right after the sign is incomplete.
pub open spec fn spec_timezone_fixed(i: Seq<u8>) -> SpecParseResult<i16> {
    match spec_sign(i) {
        Err(e) => Err(e),
        Ok((i1, sg)) => match spec_two_digits(i1) {
            Err(e) => Err(e),
            Ok((i2, h)) => {
                let after_colon = match spec_char(i2, 58) {
                    Ok((r, _)) => r,
                    Err(_) => i2,
                };
                match spec_two_digits(after_colon) {
                    Ok((i3, m)) => Ok((i3, (sg as int * (h as int * 60 + m as int)) as i16)),
                    Err(_) => Ok((i2, (sg as int * (h as int * 60)) as i16)),
                }
            },
        },
    }
}

/// Consume a fixed offset.
pub fn timezone_fixed(i: &[u8]) -> (r: ParseResult<i16>)
    ensures
        parsed(r) == spec_timezone_fixed(i@),
{
    let (i1, sg) = match sign(i) {
        Ok(x) => x,
        Err(e) => {
            return Err(e);
        },
    };
    proof {
        assert(sg == 1 || sg == -1);
    }
    let (i2, h) = match hour(i1) {
        Ok(x) => x,
        Err(e) => {
            return Err(e);
        },
    };
    let after_colon = match char_byte(i2, 58) {
        Ok((r, _)) => r,
        Err(_) => i2,
    };
    match minute(after_colon) {
        Ok((i3, m)) => {
            let mag: i16 = h as i16 * 60 + m as i16;
            proof {
                if sg == -1 {
                    assert(sg as int * (mag as int) == -(mag as int)) by (nonlinear_arith)
                        requires
                            sg == -1,
                    ;
                } else {
                    assert(sg as int * (mag as int) == mag as int) by (nonlinear_arith)
                        requires
                            sg == 1,
                    ;
                }
            }
            Ok((i3, if sg < 0 { -mag } else { mag }))
        },
        Err(_) => {
            let mag: i16 = h as i16 * 60;
            proof {
                if sg == -1 {
                    assert(sg as int * (mag as int) == -(mag as int)) by (nonlinear_arith)
                        requires
                            sg == -1,
                    ;
                } else {
                    assert(sg as int * (mag as int) == mag as int) by (nonlinear_arith)
                        requires
                            sg == 1,
                    ;
                }
            }
            Ok((i2, if sg < 0 { -mag } else { mag }))
        },
    }
}

/// A timezone suffix: `Z` or a fixed offset.
pub open spec fn spec_timezone(i: Seq<u8>) -> SpecParseResult<i16> {
    match spec_timezone_utc(i) {
        Ok(x) => Ok(x),
        Err(_) => spec_timezone_fixed(i),
    }
}

/// Consume a timezone suffix.
pub fn timezone(i: &[u8]) -> (r: ParseResult<i16>)
    ensures
        parsed(r) == spec_timezone(i@),
{
    match timezone_utc(i) {
        Ok(x) => Ok(x),
        Err(_) => timezone_fixed(i),
    }
}

/// A local time at second precision: an optional `T`, the naive
/// fields, and an optional fractional suffix read as sub-second
/// nanoseconds.
pub open spec fn spec_time_local_hms(i: Seq<u8>) -> SpecParseResult<LocalTime<HmsTime>> {
    let i1 = match spec_char(i, 84) {
        Ok((r, _)) => r,
        Err(_) => i,
    };
    match spec_time_hms(i1) {
        Err(e) => Err(e),
        Ok((i2, naive)) => match spec_fraction(i2, NANOS_PER_SECOND) {
            Ok((i3, f)) => Ok((i3, LocalTime { naive, fraction: f })),
            Err(_) => Ok((i2, LocalTime { naive, fraction: 0u64 })),
        },
    }
}

/// Consume a local time at second precision.
pub fn time_local_hms(i: &[u8]) -> (r: ParseResult<LocalTime<HmsTime>>)
    ensures
        parsed(r) == spec_time_local_hms(i@),
        r matches Ok((_, t)) ==> t.frac_in_range(),
{
    let i1 = match char_byte(i, 84) {
        Ok((r, _)) => r,
        Err(_) => i,
    };
    let (i2, naive) = match time_hms(i1) {
        Ok(x) => x,
        Err(e) => {
            return Err(e);
        },
    };
    match fraction(i2, NANOS_PER_SECOND) {
        Ok((i3, f)) => Ok((i3, LocalTime { naive, fraction: f })),
        Err(_) => Ok((i2, LocalTime { naive, fraction: 0 })),
    }
}

/// A local time at minute precision: an optional `T`, the naive
/// fields, and an optional fractional suffix read as sub-minute
/// nanoseconds.
pub open spec fn spec_time_local_hm(i: Seq<u8>) -> SpecParseResult<LocalTime<HmTime>> {
    let i1 = match spec_char(i, 84) {
        Ok((r, _)) => r,
        Err(_) => i,
    };
    match spec_time_hm(i1) {
        Err(e) => Err(e),
        Ok((i2, naive)) => match spec_fraction(i2, NANOS_PER_MINUTE) {
            Ok((i3, f)) => Ok((i3, LocalTime { naive, fraction: f })),
            Err(_) => Ok((i2, LocalTime { naive, fraction: 0u64 })),
        },
    }
}

/// Consume a local time at minute precision.
pub fn time_local_hm(i: &[u8]) -> (r: ParseResult<LocalTime<HmTime>>)
    ensures
        parsed(r) == spec_time_local_hm(i@),
        r matches Ok((_, t)) ==> t.frac_in_range(),
{
    let i1 = match char_byte(i, 84) {
        Ok((r, _)) => r,
        Err(_) => i,
    };
    let (i2, naive) = match time_hm(i1) {
        Ok(x) => x,
        Err(e) => {
            return Err(e);
        },
    };
    match fraction(i2, NANOS_PER_MINUTE) {
        Ok((i3, f)) => Ok((i3, LocalTime { naive, fraction: f })),
        Err(_) => Ok((i2, LocalTime { naive, fraction: 0 })),
    }
}

/// A local time at hour precision: an optional `T`, the hour, and an
/// optional fractional suffix read as sub-hour nanoseconds.
pub open spec fn spec_time_local_h(i: Seq<u8>) -> SpecParseResult<LocalTime<HTime>> {
    let i1 = match spec_char(i, 84) {
        Ok((r, _)) => r,
        Err(_) => i,
    };
    match spec_time_h(i1) {
        Err(e) => Err(e),
        Ok((i2, naive)) => match spec_fraction(i2, NANOS_PER_HOUR) {
            Ok((i3, f)) => Ok((i3, LocalTime { naive, fraction: f })),
            Err(_) => Ok((i2, LocalTime { naive, fraction: 0u64 })),
        },
    }
}

/// Consume a local time at hour precision.
pub fn time_local_h(i: &[u8]) -> (r: ParseResult<LocalTime<HTime>>)
    ensures
        parsed(r) == spec_time_local_h(i@),
        r matches Ok((_, t)) ==> t.frac_in_range(),
{
    let i1 = match char_byte(i, 84) {
        Ok((r, _)) => r,
        Err(_) => i,
    };
    let (i2, naive) = match time_h(i1) {
        Ok(x) => x,
        Err(e) => {
            return Err(e);
        },
    };
    match fraction(i2, NANOS_PER_HOUR) {
        Ok((i3, f)) => Ok((i3, LocalTime { naive, fraction: f })),
        Err(_) => Ok((i2, LocalTime { naive, fraction: 0 })),
    }
}

/// A global time at second precision: a local time immediately
/// followed by a mandatory timezone suffix.
pub open spec fn spec_time_global_hms(i: Seq<u8>) -> SpecParseResult<GlobalTime<HmsTime>> {
    match spec_time_local_hms(i) {
        Err(e) => Err(e),
        Ok((i1, local)) => match spec_timezone(i1) {
            Ok((i2, tz)) => Ok((i2, GlobalTime { local, timezone: tz })),
            Err(_) => Err(ParseErr::Error),
        },
    }
}

/// Consume a global time at second precision.
pub fn time_global_hms(i: &[u8]) -> (r: ParseResult<GlobalTime<HmsTime>>)
    ensures
        parsed(r) == spec_time_global_hms(i@),
        r matches Ok((_, t)) ==> t.local.frac_in_range(),
{
    let (i1, local) = match time_local_hms(i) {
        Ok(x) => x,
        Err(e) => {
            return Err(e);
        },
    };
    match timezone(i1) {
        Ok((i2, tz)) => Ok((i2, GlobalTime { local, timezone: tz })),
        Err(_) => Err(ParseErr::Error),
    }
}

/// A global time at minute precision: a local time immediately
/// followed by a mandatory timezone suffix.
pub open spec fn spec_time_global_hm(i: Seq<u8>) -> SpecParseResult<GlobalTime<HmTime>> {
    match spec_time_local_hm(i) {
        Err(e) => Err(e),
        Ok((i1, local)) => match spec_timezone(i1) {
            Ok((i2, tz)) => Ok((i2, GlobalTime { local, timezone: tz })),
            Err(_) => Err(ParseErr::Error),
        },
    }
}

/// Consume a global time at minute precision.
pub fn time_global_hm(i: &[u8]) -> (r: ParseResult<GlobalTime<HmTime>>)
    ensures
        parsed(r) == spec_time_global_hm(i@),
        r matches Ok((_, t)) ==> t.local.frac_in_range(),
{
    let (i1, local) = match time_local_hm(i) {
        Ok(x) => x,
        Err(e) => {
            return Err(e);
        },
    };
    match timezone(i1) {
        Ok((i2, tz)) => Ok((i2, GlobalTime { local, timezone: tz })),
        Err(_) => Err(ParseErr::Error),
    }
}

/// A global time at hour precision: a local time immediately followed
/// by a mandatory timezone suffix.
pub open spec fn spec_time_global_h(i: Seq<u8>) -> SpecParseResult<GlobalTime<HTime>> {
    match spec_time_local_h(i) {
        Err(e) => Err(e),
        Ok((i1, local)) => match spec_timezone(i1) {
            Ok((i2, tz)) => Ok((i2, GlobalTime { local, timezone: tz })),
            Err(_) => Err(ParseErr::Error),
        },
    }
}

/// Consume a global time at hour precision.
pub fn time_global_h(i: &[u8]) -> (r: ParseResult<GlobalTime<HTime>>)
    ensures
        parsed(r) == spec_time_global_h(i@),
        r matches Ok((_, t)) ==> t.local.frac_in_range(),
{
    let (i1, local) = match time_local_h(i) {
        Ok(x) => x,
        Err(e) => {
            return Err(e);
        },
    };
    match timezone(i1) {
        Ok((i2, tz)) => Ok((i2, GlobalTime { local, timezone: tz })),
        Err(_) => Err(ParseErr::Error),
    }
}

/// A time at second precision that may carry an offset: global tried
/// first, so a trailing offset is never left unconsumed.
pub open spec fn spec_time_any_hms(i: Seq<u8>) -> SpecParseResult<AnyTime<HmsTime>> {
    match spec_time_global_hms(i) {
        Ok((r, v)) => Ok((r, AnyTime::Global(v))),
        Err(_) => match spec_time_local_hms(i) {
            Ok((r, v)) => Ok((r, AnyTime::Local(v))),
            Err(_) => Err(ParseErr::Error),
        },
    }
}

/// Consume a time at second precision with or without an offset.
pub fn time_any_hms(i: &[u8]) -> (r: ParseResult<AnyTime<HmsTime>>)
    ensures
        parsed(r) == spec_time_any_hms(i@),
        r matches Ok((_, t)) ==> match t {
            AnyTime::Global(g) => g.local.frac_in_range(),
            AnyTime::Local(l) => l.frac_in_range(),
        },
{
    match time_global_hms(i) {
        Ok((r, v)) => {
            return Ok((r, AnyTime::Global(v)));
        },
        Err(_) => {},
    }
    match time_local_hms(i) {
        Ok((r, v)) => Ok((r, AnyTime::Local(v))),
        Err(_) => Err(ParseErr::Error),
    }
}

/// A time at minute precision that may carry an offset.
pub open spec fn spec_time_any_hm(i: Seq<u8>) -> SpecParseResult<AnyTime<HmTime>> {
    match spec_time_global_hm(i) {
        Ok((r, v)) => Ok((r, AnyTime::Global(v))),
        Err(_) => match spec_time_local_hm(i) {
            Ok((r, v)) => Ok((r, AnyTime::Local(v))),
            Err(_) => Err(ParseErr::Error),
        },
    }
}

/// Consume a time at minute precision with or without an offset.
pub fn time_any_hm(i: &[u8]) -> (r: ParseResult<AnyTime<HmTime>>)
    ensures
        parsed(r) == spec_time_any_hm(i@),
        r matches Ok((_, t)) ==> match t {
            AnyTime::Global(g) => g.local.frac_in_range(),
            AnyTime::Local(l) => l.frac_in_range(),
        },
{
    match time_global_hm(i) {
        Ok((r, v)) => {
            return Ok((r, AnyTime::Global(v)));
        },
        Err(_) => {},
    }
    match time_local_hm(i) {
        Ok((r, v)) => Ok((r, AnyTime::Local(v))),
        Err(_) => Err(ParseErr::Error),
    }
}

/// A time at hour precision that may carry an offset.
pub open spec fn spec_time_any_h(i: Seq<u8>) -> SpecParseResult<AnyTime<HTime>> {
    match spec_time_global_h(i) {
        Ok((r, v)) => Ok((r, AnyTime::Global(v))),
        Err(_) => match spec_time_local_h(i) {
            Ok((r, v)) => Ok((r, AnyTime::Local(v))),
            Err(_) => Err(ParseErr::Error),
        },
    }
}

/// Consume a time at hour precision with or without an offset.
pub fn time_any_h(i: &[u8]) -> (r: ParseResult<AnyTime<HTime>>)
    ensures
        parsed(r) == spec_time_any_h(i@),
        r matches Ok((_, t)) ==> match t {
            AnyTime::Global(g) => g.local.frac_in_range(),
            AnyTime::Local(l) => l.frac_in_range(),
        },
{
    match time_global_h(i) {
        Ok((r, v)) => {
            return Ok((r, AnyTime::Global(v)));
        },
        Err(_) => {},
    }
    match time_local_h(i) {
        Ok((r, v)) => Ok((r, AnyTime::Local(v))),
        Err(_) => Err(ParseErr::Error),
    }
}

/// A naive time of unknown precision: second precision tried first,
/// then minute, then hour; an input that ends early counts as a
/// mismatch here.
pub open spec fn spec_time_naive_approx(i: Seq<u8>) -> SpecParseResult<ApproxNaiveTime> {
    match spec_time_hms(i) {
        Ok((r, v)) => Ok((r, ApproxNaiveTime::HMS(v))),
        Err(_) => match spec_time_hm(i) {
            Ok((r, v)) => Ok((r, ApproxNaiveTime::HM(v))),
            Err(_) => match spec_time_h(i) {
                Ok((r, v)) => Ok((r, ApproxNaiveTime::H(v))),
                Err(_) => Err(ParseErr::Error),
            },
        },
    }
}

fn time_naive_approx(i: &[u8]) -> (r: ParseResult<ApproxNaiveTime>)
    ensures
        parsed(r) == spec_time_naive_approx(i@),
{
    match time_hms(i) {
        Ok((r, v)) => {
            return Ok((r, ApproxNaiveTime::HMS(v)));
        },
        Err(_) => {},
    }
    match time_hm(i) {
        Ok((r, v)) => {
            return Ok((r, ApproxNaiveTime::HM(v)));
        },
        Err(_) => {},
    }
    match time_h(i) {
        Ok((r, v)) => Ok((r, ApproxNaiveTime::H(v))),
        Err(_) => Err(ParseErr::Error),
    }
}

/// A local time of unknown precision: the naive fields decide the
/// precision, and an optional fractional suffix is read in the
/// matching sub-unit.
pub open spec fn spec_time_local_approx(i: Seq<u8>) -> SpecParseResult<ApproxLocalTime> {
    match spec_time_naive_approx(i) {
        Err(e) => Err(e),
        Ok((i1, naive)) => match naive {
            ApproxNaiveTime::HMS(n) => match spec_fraction(i1, NANOS_PER_SECOND) {
                Ok((i2, f)) => Ok((i2, ApproxLocalTime::HMS(LocalTime { naive: n, fraction: f }))),
                Err(_) => Ok((i1, ApproxLocalTime::HMS(LocalTime { naive: n, fraction: 0u64 }))),
            },
            ApproxNaiveTime::HM(n) => match spec_fraction(i1, NANOS_PER_MINUTE) {
                Ok((i2, f)) => Ok((i2, ApproxLocalTime::HM(LocalTime { naive: n, fraction: f }))),
                Err(_) => Ok((i1, ApproxLocalTime::HM(LocalTime { naive: n, fraction: 0u64 }))),
            },
            ApproxNaiveTime::H(n) => match spec_fraction(i1, NANOS_PER_HOUR) {
                Ok((i2, f)) => Ok((i2, ApproxLocalTime::H(LocalTime { naive: n, fraction: f }))),
                Err(_) => Ok((i1, ApproxLocalTime::H(LocalTime { naive: n, fraction: 0u64 }))),
            },
        },
    }
}

/// Consume a local time of unknown precision.
pub fn time_local_approx(i: &[u8]) -> (r: ParseResult<ApproxLocalTime>)
    ensures
        parsed(r) == spec_time_local_approx(i@),
        r matches Ok((_, t)) ==> t.frac_in_range(),
{
    let (i1, naive) = match time_naive_approx(i) {
        Ok(x) => x,
        Err(e) => {
            return Err(e);
        },
    };
    match naive {
        ApproxNaiveTime::HMS(n) => match fraction(i1, NANOS_PER_SECOND) {
            Ok((i2, f)) => Ok((i2, ApproxLocalTime::HMS(LocalTime { naive: n, fraction: f }))),
            Err(_) => Ok((i1, ApproxLocalTime::HMS(LocalTime { naive: n, fraction: 0 }))),
        },
        ApproxNaiveTime::HM(n) => match fraction(i1, NANOS_PER_MINUTE) {
            Ok((i2, f)) => Ok((i2, ApproxLocalTime::HM(LocalTime { naive: n, fraction: f }))),
            Err(_) => Ok((i1, ApproxLocalTime::HM(LocalTime { naive: n, fraction: 0 }))),
        },
        ApproxNaiveTime::H(n) => match fraction(i1, NANOS_PER_HOUR) {
            Ok((i2, f)) => Ok((i2, ApproxLocalTime::H(LocalTime { naive: n, fraction: f }))),
            Err(_) => Ok((i1, ApproxLocalTime::H(LocalTime { naive: n, fraction: 0 }))),
        },
    }
}

/// A global time of unknown precision: a local time of unknown
/// precision followed by a mandatory timezone suffix.  An input that
/// ends before the suffix is incomplete: more bytes could still
/// supply the offset.
pub open spec fn spec_time_global_approx(i: Seq<u8>) -> SpecParseResult<ApproxGlobalTime> {
    match spec_time_local_approx(i) {
        Err(e) => Err(e),
        Ok((i1, local)) => match spec_timezone(i1) {
            Err(e) => Err(e),
            Ok((i2, tz)) => Ok(
                (
                    i2,
                    match local {
                        ApproxLocalTime::HMS(l) => ApproxGlobalTime::HMS(
                            GlobalTime { local: l, timezone: tz },
                        ),
                        ApproxLocalTime::HM(l) => ApproxGlobalTime::HM(
                            GlobalTime { local: l, timezone: tz },
                        ),
                        ApproxLocalTime::H(l) => ApproxGlobalTime::H(
                            GlobalTime { local: l, timezone: tz },
                        ),
                    },
                ),
            ),
        },
    }
}

/// Consume a global time of unknown precision.
pub fn time_global_approx(i: &[u8]) -> (r: ParseResult<ApproxGlobalTime>)
    ensures
        parsed(r) == spec_time_global_approx(i@),
        r matches Ok((_, t)) ==> t.frac_in_range(),
{
    let (i1, local) = match time_local_approx(i) {
        Ok(x) => x,
        Err(e) => {
            return Err(e);
        },
    };
    match timezone(i1) {
        Err(e) => Err(e),
        Ok((i2, tz)) => Ok(
            (
                i2,
                match local {
                    ApproxLocalTime::HMS(l) => ApproxGlobalTime::HMS(
                        GlobalTime { local: l, timezone: tz },
                    ),
                    ApproxLocalTime::HM(l) => ApproxGlobalTime::HM(
                        GlobalTime { local: l, timezone: tz },
                    ),
                    ApproxLocalTime::H(l) => ApproxGlobalTime::H(
                        GlobalTime { local: l, timezone: tz },
                    ),
                },
            ),
        ),
    }
}

/// A time of unknown precision that may carry an offset: second
/// precision tried first, then minute, then hour, each with the
/// offset-bearing form before the bare one.
pub open spec fn spec_time_any_approx(i: Seq<u8>) -> SpecParseResult<ApproxAnyTime> {
    match spec_time_any_hms(i) {
        Ok((r, v)) => Ok((r, ApproxAnyTime::HMS(v))),
        Err(_) => match spec_time_any_hm(i) {
            Ok((r, v)) => Ok((r, ApproxAnyTime::HM(v))),
            Err(_) => match spec_time_any_h(i) {
                Ok((r, v)) => Ok((r, ApproxAnyTime::H(v))),
                Err(_) => Err(ParseErr::Error),
            },
        },
    }
}

/// Consume a time of unknown precision with or without an offset.
pub fn time_any_approx(i: &[u8]) -> (r: ParseResult<ApproxAnyTime>)
    ensures
        parsed(r) == spec_time_any_approx(i@),
        r matches Ok((_, t)) ==> match t {
            ApproxAnyTime::HMS(AnyTime::Global(g)) => g.local.frac_in_range(),
            ApproxAnyTime::HMS(AnyTime::Local(l)) => l.frac_in_range(),
            ApproxAnyTime::HM(AnyTime::Global(g)) => g.local.frac_in_range(),
            ApproxAnyTime::HM(AnyTime::Local(l)) => l.frac_in_range(),
            ApproxAnyTime::H(AnyTime::Global(g)) => g.local.frac_in_range(),
            ApproxAnyTime::H(AnyTime::Local(l)) => l.frac_in_range(),
        },
{
    match time_any_hms(i) {
        Ok((r, v)) => {
            return Ok((r, ApproxAnyTime::HMS(v)));
        },
        Err(_) => {},
    }
    match time_any_hm(i) {
        Ok((r, v)) => {
            return Ok((r, ApproxAnyTime::HM(v)));
        },
        Err(_) => {},
    }
    match time_any_h(i) {
        Ok((r, v)) => Ok((r, ApproxAnyTime::H(v))),
        Err(_) => Err(ParseErr::Error),
    }
}

} // verus!
