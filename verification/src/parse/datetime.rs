//! The composition grammar: a date, a mandatory literal `T` that
//! must not be doubled, and a time, over every pairing of the date
//! grammars with the time grammars; and the partial parser for input
//! that may hold a date only, a time only, or both.

use vstd::prelude::*;
use vstd::slice::slice_index_get;
use vstd::slice::slice_subrange;

use crate::date::ApproxDate;
use crate::date::Date;
use crate::datetime::DateTime;
use crate::datetime::PartialDateTime;
use crate::parse::char_byte;
use crate::parse::parsed;
use crate::parse::spec_char;
use crate::parse::ParseErr;
use crate::parse::ParseResult;
use crate::parse::SpecParseResult;
use crate::parse::date::date;
use crate::parse::date::date_approx;
use crate::parse::date::spec_date;
use crate::parse::date::spec_date_approx;
use crate::parse::time::spec_time_any_approx;
use crate::parse::time::spec_time_any_h;
use crate::parse::time::spec_time_any_hm;
use crate::parse::time::spec_time_any_hms;
use crate::parse::time::spec_time_global_approx;
use crate::parse::time::spec_time_global_h;
use crate::parse::time::spec_time_global_hm;
use crate::parse::time::spec_time_global_hms;
use crate::parse::time::spec_time_local_approx;
use crate::parse::time::spec_time_local_h;
use crate::parse::time::spec_time_local_hm;
use crate::parse::time::spec_time_local_hms;
use crate::parse::time::time_any_approx;
use crate::parse::time::time_any_h;
use crate::parse::time::time_any_hm;
use crate::parse::time::time_any_hms;
use crate::parse::time::time_global_approx;
use crate::parse::time::time_global_h;
use crate::parse::time::time_global_hm;
use crate::parse::time::time_global_hms;
use crate::parse::time::time_local_approx;
use crate::parse::time::time_local_h;
use crate::parse::time::time_local_hm;
use crate::parse::time::time_local_hms;
use crate::time::AnyTime;
use crate::time::ApproxAnyTime;
use crate::time::ApproxGlobalTime;
use crate::time::ApproxLocalTime;
use crate::time::GlobalTime;
use crate::time::HTime;
use crate::time::HmTime;
use crate::time::HmsTime;
use crate::time::LocalTime;

verus! {

/// A an exact date, one `T` (not two), then an offset-bearing time at second precision.
pub open spec fn spec_datetime_global_hms(i: Seq<u8>) -> SpecParseResult<DateTime<Date, GlobalTime<HmsTime>>> {
    match spec_date(i) {
        Err(e) => Err(e),
        Ok((i1, d)) => match spec_char(i1, 84) {
            Err(e) => Err(e),
            Ok((i2, _)) => if i2.len() >= 1 && i2[0] == 84 {
                Err(ParseErr::Error)
            } else {
                match spec_time_global_hms(i2) {
                    Err(e) => Err(e),
                    Ok((i3, t)) => Ok((i3, DateTime { date: d, time: t })),
                }
            },
        },
    }
}

/// Consume a combined date-time: an exact date, `T`, an offset-bearing time at second precision.
pub fn datetime_global_hms(i: &[u8]) -> (r: ParseResult<DateTime<Date, GlobalTime<HmsTime>>>)
    ensures
        parsed(r) == spec_datetime_global_hms(i@),
{
    let (i1, d) = match date(i) {
        Ok(x) => x,
        Err(e) => {
            return Err(e);
        },
    };
    let i2 = match char_byte(i1, 84) {
        Ok((r2, _)) => r2,
        Err(e) => {
            return Err(e);
        },
    };
    if i2.len() >= 1 && *slice_index_get(i2, 0) == 84 {
        return Err(ParseErr::Error);
    }
    match time_global_hms(i2) {
        Ok((i3, t)) => Ok((i3, DateTime { date: d, time: t })),
        Err(e) => Err(e),
    }
}

/// A an exact date, one `T` (not two), then an offset-bearing time at minute precision.
pub open spec fn spec_datetime_global_hm(i: Seq<u8>) -> SpecParseResult<DateTime<Date, GlobalTime<HmTime>>> {
    match spec_date(i) {
        Err(e) => Err(e),
        Ok((i1, d)) => match spec_char(i1, 84) {
            Err(e) => Err(e),
            Ok((i2, _)) => if i2.len() >= 1 && i2[0] == 84 {
                Err(ParseErr::Error)
            } else {
                match spec_time_global_hm(i2) {
                    Err(e) => Err(e),
                    Ok((i3, t)) => Ok((i3, DateTime { date: d, time: t })),
                }
            },
        },
    }
}

/// Consume a combined date-time: an exact date, `T`, an offset-bearing time at minute precision.
pub fn datetime_global_hm(i: &[u8]) -> (r: ParseResult<DateTime<Date, GlobalTime<HmTime>>>)
    ensures
        parsed(r) == spec_datetime_global_hm(i@),
{
    let (i1, d) = match date(i) {
        Ok(x) => x,
        Err(e) => {
            return Err(e);
        },
    };
    let i2 = match char_byte(i1, 84) {
        Ok((r2, _)) => r2,
        Err(e) => {
            return Err(e);
        },
    };
    if i2.len() >= 1 && *slice_index_get(i2, 0) == 84 {
        return Err(ParseErr::Error);
    }
    match time_global_hm(i2) {
        Ok((i3, t)) => Ok((i3, DateTime { date: d, time: t })),
        Err(e) => Err(e),
    }
}

/// A an exact date, one `T` (not two), then an offset-bearing time at hour precision.
pub open spec fn spec_datetime_global_h(i: Seq<u8>) -> SpecParseResult<DateTime<Date, GlobalTime<HTime>>> {
    match spec_date(i) {
        Err(e) => Err(e),
        Ok((i1, d)) => match spec_char(i1, 84) {
            Err(e) => Err(e),
            Ok((i2, _)) => if i2.len() >= 1 && i2[0] == 84 {
                Err(ParseErr::Error)
            } else {
                match spec_time_global_h(i2) {
                    Err(e) => Err(e),
                    Ok((i3, t)) => Ok((i3, DateTime { date: d, time: t })),
                }
            },
        },
    }
}

/// Consume a combined date-time: an exact date, `T`, an offset-bearing time at hour precision.
pub fn datetime_global_h(i: &[u8]) -> (r: ParseResult<DateTime<Date, GlobalTime<HTime>>>)
    ensures
        parsed(r) == spec_datetime_global_h(i@),
{
    let (i1, d) = match date(i) {
        Ok(x) => x,
        Err(e) => {
            return Err(e);
        },
    };
    let i2 = match char_byte(i1, 84) {
        Ok((r2, _)) => r2,
        Err(e) => {
            return Err(e);
        },
    };
    if i2.len() >= 1 && *slice_index_get(i2, 0) == 84 {
        return Err(ParseErr::Error);
    }
    match time_global_h(i2) {
        Ok((i3, t)) => Ok((i3, DateTime { date: d, time: t })),
        Err(e) => Err(e),
    }
}

/// A an exact date, one `T` (not two), then a local time at second precision.
pub open spec fn spec_datetime_local_hms(i: Seq<u8>) -> SpecParseResult<DateTime<Date, LocalTime<HmsTime>>> {
    match spec_date(i) {
        Err(e) => Err(e),
        Ok((i1, d)) => match spec_char(i1, 84) {
            Err(e) => Err(e),
            Ok((i2, _)) => if i2.len() >= 1 && i2[0] == 84 {
                Err(ParseErr::Error)
            } else {
                match spec_time_local_hms(i2) {
                    Err(e) => Err(e),
                    Ok((i3, t)) => Ok((i3, DateTime { date: d, time: t })),
                }
            },
        },
    }
}

/// Consume a combined date-time: an exact date, `T`, a local time at second precision.
pub fn datetime_local_hms(i: &[u8]) -> (r: ParseResult<DateTime<Date, LocalTime<HmsTime>>>)
    ensures
        parsed(r) == spec_datetime_local_hms(i@),
{
    let (i1, d) = match date(i) {
        Ok(x) => x,
        Err(e) => {
            return Err(e);
        },
    };
    let i2 = match char_byte(i1, 84) {
        Ok((r2, _)) => r2,
        Err(e) => {
            return Err(e);
        },
    };
    if i2.len() >= 1 && *slice_index_get(i2, 0) == 84 {
        return Err(ParseErr::Error);
    }
    match time_local_hms(i2) {
        Ok((i3, t)) => Ok((i3, DateTime { date: d, time: t })),
        Err(e) => Err(e),
    }
}

/// A an exact date, one `T` (not two), then a local time at minute precision.
pub open spec fn spec_datetime_local_hm(i: Seq<u8>) -> SpecParseResult<DateTime<Date, LocalTime<HmTime>>> {
    match spec_date(i) {
        Err(e) => Err(e),
        Ok((i1, d)) => match spec_char(i1, 84) {
            Err(e) => Err(e),
            Ok((i2, _)) => if i2.len() >= 1 && i2[0] == 84 {
                Err(ParseErr::Error)
            } else {
                match spec_time_local_hm(i2) {
                    Err(e) => Err(e),
                    Ok((i3, t)) => Ok((i3, DateTime { date: d, time: t })),
                }
            },
        },
    }
}

/// Consume a combined date-time: an exact date, `T`, a local time at minute precision.
pub fn datetime_local_hm(i: &[u8]) -> (r: ParseResult<DateTime<Date, LocalTime<HmTime>>>)
    ensures
        parsed(r) == spec_datetime_local_hm(i@),
{
    let (i1, d) = match date(i) {
        Ok(x) => x,
        Err(e) => {
            return Err(e);
        },
    };
    let i2 = match char_byte(i1, 84) {
        Ok((r2, _)) => r2,
        Err(e) => {
            return Err(e);
        },
    };
    if i2.len() >= 1 && *slice_index_get(i2, 0) == 84 {
        return Err(ParseErr::Error);
    }
    match time_local_hm(i2) {
        Ok((i3, t)) => Ok((i3, DateTime { date: d, time: t })),
        Err(e) => Err(e),
    }
}

/// A an exact date, one `T` (not two), then a local time at hour precision.
pub open spec fn spec_datetime_local_h(i: Seq<u8>) -> SpecParseResult<DateTime<Date, LocalTime<HTime>>> {
    match spec_date(i) {
        Err(e) => Err(e),
        Ok((i1, d)) => match spec_char(i1, 84) {
            Err(e) => Err(e),
            Ok((i2, _)) => if i2.len() >= 1 && i2[0] == 84 {
                Err(ParseErr::Error)
            } else {
                match spec_time_local_h(i2) {
                    Err(e) => Err(e),
                    Ok((i3, t)) => Ok((i3, DateTime { date: d, time: t })),
                }
            },
        },
    }
}

/// Consume a combined date-time: an exact date, `T`, a local time at hour precision.
pub fn datetime_local_h(i: &[u8]) -> (r: ParseResult<DateTime<Date, LocalTime<HTime>>>)
    ensures
        parsed(r) == spec_datetime_local_h(i@),
{
    let (i1, d) = match date(i) {
        Ok(x) => x,
        Err(e) => {
            return Err(e);
        },
    };
    let i2 = match char_byte(i1, 84) {
        Ok((r2, _)) => r2,
        Err(e) => {
            return Err(e);
        },
    };
    if i2.len() >= 1 && *slice_index_get(i2, 0) == 84 {
        return Err(ParseErr::Error);
    }
    match time_local_h(i2) {
        Ok((i3, t)) => Ok((i3, DateTime { date: d, time: t })),
        Err(e) => Err(e),
    }
}

/// A an exact date, one `T` (not two), then a time at second precision with or without an offset.
pub open spec fn spec_datetime_any_hms(i: Seq<u8>) -> SpecParseResult<DateTime<Date, AnyTime<HmsTime>>> {
    match spec_date(i) {
        Err(e) => Err(e),
        Ok((i1, d)) => match spec_char(i1, 84) {
            Err(e) => Err(e),
            Ok((i2, _)) => if i2.len() >= 1 && i2[0] == 84 {
                Err(ParseErr::Error)
            } else {
                match spec_time_any_hms(i2) {
                    Err(e) => Err(e),
                    Ok((i3, t)) => Ok((i3, DateTime { date: d, time: t })),
                }
            },
        },
    }
}

/// Consume a combined date-time: an exact date, `T`, a time at second precision with or without an offset.
pub fn datetime_any_hms(i: &[u8]) -> (r: ParseResult<DateTime<Date, AnyTime<HmsTime>>>)
    ensures
        parsed(r) == spec_datetime_any_hms(i@),
{
    let (i1, d) = match date(i) {
        Ok(x) => x,
        Err(e) => {
            return Err(e);
        },
    };
    let i2 = match char_byte(i1, 84) {
        Ok((r2, _)) => r2,
        Err(e) => {
            return Err(e);
        },
    };
    if i2.len() >= 1 && *slice_index_get(i2, 0) == 84 {
        return Err(ParseErr::Error);
    }
    match time_any_hms(i2) {
        Ok((i3, t)) => Ok((i3, DateTime { date: d, time: t })),
        Err(e) => Err(e),
    }
}

/// A an exact date, one `T` (not two), then a time at minute precision with or without an offset.
pub open spec fn spec_datetime_any_hm(i: Seq<u8>) -> SpecParseResult<DateTime<Date, AnyTime<HmTime>>> {
    match spec_date(i) {
        Err(e) => Err(e),
        Ok((i1, d)) => match spec_char(i1, 84) {
            Err(e) => Err(e),
            Ok((i2, _)) => if i2.len() >= 1 && i2[0] == 84 {
                Err(ParseErr::Error)
            } else {
                match spec_time_any_hm(i2) {
                    Err(e) => Err(e),
                    Ok((i3, t)) => Ok((i3, DateTime { date: d, time: t })),
                }
            },
        },
    }
}

/// Consume a combined date-time: an exact date, `T`, a time at minute precision with or without an offset.
pub fn datetime_any_hm(i: &[u8]) -> (r: ParseResult<DateTime<Date, AnyTime<HmTime>>>)
    ensures
        parsed(r) == spec_datetime_any_hm(i@),
{
    let (i1, d) = match date(i) {
        Ok(x) => x,
        Err(e) => {
            return Err(e);
        },
    };
    let i2 = match char_byte(i1, 84) {
        Ok((r2, _)) => r2,
        Err(e) => {
            return Err(e);
        },
    };
    if i2.len() >= 1 && *slice_index_get(i2, 0) == 84 {
        return Err(ParseErr::Error);
    }
    match time_any_hm(i2) {
        Ok((i3, t)) => Ok((i3, DateTime { date: d, time: t })),
        Err(e) => Err(e),
    }
}

/// A an exact date, one `T` (not two), then a time at hour precision with or without an offset.
pub open spec fn spec_datetime_any_h(i: Seq<u8>) -> SpecParseResult<DateTime<Date, AnyTime<HTime>>> {
    match spec_date(i) {
        Err(e) => Err(e),
        Ok((i1, d)) => match spec_char(i1, 84) {
            Err(e) => Err(e),
            Ok((i2, _)) => if i2.len() >= 1 && i2[0] == 84 {
                Err(ParseErr::Error)
            } else {
                match spec_time_any_h(i2) {
                    Err(e) => Err(e),
                    Ok((i3, t)) => Ok((i3, DateTime { date: d, time: t })),
                }
            },
        },
    }
}

/// Consume a combined date-time: an exact date, `T`, a time at hour precision with or without an offset.
pub fn datetime_any_h(i: &[u8]) -> (r: ParseResult<DateTime<Date, AnyTime<HTime>>>)
    ensures
        parsed(r) == spec_datetime_any_h(i@),
{
    let (i1, d) = match date(i) {
        Ok(x) => x,
        Err(e) => {
            return Err(e);
        },
    };
    let i2 = match char_byte(i1, 84) {
        Ok((r2, _)) => r2,
        Err(e) => {
            return Err(e);
        },
    };
    if i2.len() >= 1 && *slice_index_get(i2, 0) == 84 {
        return Err(ParseErr::Error);
    }
    match time_any_h(i2) {
        Ok((i3, t)) => Ok((i3, DateTime { date: d, time: t })),
        Err(e) => Err(e),
    }
}

/// A an exact date, one `T` (not two), then an offset-bearing time of unknown precision.
pub open spec fn spec_datetime_global_approx(i: Seq<u8>) -> SpecParseResult<DateTime<Date, ApproxGlobalTime>> {
    match spec_date(i) {
        Err(e) => Err(e),
        Ok((i1, d)) => match spec_char(i1, 84) {
            Err(e) => Err(e),
            Ok((i2, _)) => if i2.len() >= 1 && i2[0] == 84 {
                Err(ParseErr::Error)
            } else {
                match spec_time_global_approx(i2) {
                    Err(e) => Err(e),
                    Ok((i3, t)) => Ok((i3, DateTime { date: d, time: t })),
                }
            },
        },
    }
}

/// Consume a combined date-time: an exact date, `T`, an offset-bearing time of unknown precision.
pub fn datetime_global_approx(i: &[u8]) -> (r: ParseResult<DateTime<Date, ApproxGlobalTime>>)
    ensures
        parsed(r) == spec_datetime_global_approx(i@),
{
    let (i1, d) = match date(i) {
        Ok(x) => x,
        Err(e) => {
            return Err(e);
        },
    };
    let i2 = match char_byte(i1, 84) {
        Ok((r2, _)) => r2,
        Err(e) => {
            return Err(e);
        },
    };
    if i2.len() >= 1 && *slice_index_get(i2, 0) == 84 {
        return Err(ParseErr::Error);
    }
    match time_global_approx(i2) {
        Ok((i3, t)) => Ok((i3, DateTime { date: d, time: t })),
        Err(e) => Err(e),
    }
}

/// A an exact date, one `T` (not two), then a local time of unknown precision.
pub open spec fn spec_datetime_local_approx(i: Seq<u8>) -> SpecParseResult<DateTime<Date, ApproxLocalTime>> {
    match spec_date(i) {
        Err(e) => Err(e),
        Ok((i1, d)) => match spec_char(i1, 84) {
            Err(e) => Err(e),
            Ok((i2, _)) => if i2.len() >= 1 && i2[0] == 84 {
                Err(ParseErr::Error)
            } else {
                match spec_time_local_approx(i2) {
                    Err(e) => Err(e),
                    Ok((i3, t)) => Ok((i3, DateTime { date: d, time: t })),
                }
            },
        },
    }
}

/// Consume a combined date-time: an exact date, `T`, a local time of unknown precision.
pub fn datetime_local_approx(i: &[u8]) -> (r: ParseResult<DateTime<Date, ApproxLocalTime>>)
    ensures
        parsed(r) == spec_datetime_local_approx(i@),
{
    let (i1, d) = match date(i) {
        Ok(x) => x,
        Err(e) => {
            return Err(e);
        },
    };
    let i2 = match char_byte(i1, 84) {
        Ok((r2, _)) => r2,
        Err(e) => {
            return Err(e);
        },
    };
    if i2.len() >= 1 && *slice_index_get(i2, 0) == 84 {
        return Err(ParseErr::Error);
    }
    match time_local_approx(i2) {
        Ok((i3, t)) => Ok((i3, DateTime { date: d, time: t })),
        Err(e) => Err(e),
    }
}

/// A an exact date, one `T` (not two), then a time of unknown precision with or without an offset.
pub open spec fn spec_datetime_any_approx(i: Seq<u8>) -> SpecParseResult<DateTime<Date, ApproxAnyTime>> {
    match spec_date(i) {
        Err(e) => Err(e),
        Ok((i1, d)) => match spec_char(i1, 84) {
            Err(e) => Err(e),
            Ok((i2, _)) => if i2.len() >= 1 && i2[0] == 84 {
                Err(ParseErr::Error)
            } else {
                match spec_time_any_approx(i2) {
                    Err(e) => Err(e),
                    Ok((i3, t)) => Ok((i3, DateTime { date: d, time: t })),
                }
            },
        },
    }
}

/// Consume a combined date-time: an exact date, `T`, a time of unknown precision with or without an offset.
pub fn datetime_any_approx(i: &[u8]) -> (r: ParseResult<DateTime<Date, ApproxAnyTime>>)
    ensures
        parsed(r) == spec_datetime_any_approx(i@),
{
    let (i1, d) = match date(i) {
        Ok(x) => x,
        Err(e) => {
            return Err(e);
        },
    };
    let i2 = match char_byte(i1, 84) {
        Ok((r2, _)) => r2,
        Err(e) => {
            return Err(e);
        },
    };
    if i2.len() >= 1 && *slice_index_get(i2, 0) == 84 {
        return Err(ParseErr::Error);
    }
    match time_any_approx(i2) {
        Ok((i3, t)) => Ok((i3, DateTime { date: d, time: t })),
        Err(e) => Err(e),
    }
}

/// A an any-precision date, one `T` (not two), then an offset-bearing time at second precision.
pub open spec fn spec_datetime_approx_global_hms(i: Seq<u8>) -> SpecParseResult<DateTime<ApproxDate, GlobalTime<HmsTime>>> {
    match spec_date_approx(i) {
        Err(e) => Err(e),
        Ok((i1, d)) => match spec_char(i1, 84) {
            Err(e) => Err(e),
            Ok((i2, _)) => if i2.len() >= 1 && i2[0] == 84 {
                Err(ParseErr::Error)
            } else {
                match spec_time_global_hms(i2) {
                    Err(e) => Err(e),
                    Ok((i3, t)) => Ok((i3, DateTime { date: d, time: t })),
                }
            },
        },
    }
}

/// Consume a combined date-time: an any-precision date, `T`, an offset-bearing time at second precision.
pub fn datetime_approx_global_hms(i: &[u8]) -> (r: ParseResult<DateTime<ApproxDate, GlobalTime<HmsTime>>>)
    ensures
        parsed(r) == spec_datetime_approx_global_hms(i@),
{
    let (i1, d) = match date_approx(i) {
        Ok(x) => x,
        Err(e) => {
            return Err(e);
        },
    };
    let i2 = match char_byte(i1, 84) {
        Ok((r2, _)) => r2,
        Err(e) => {
            return Err(e);
        },
    };
    if i2.len() >= 1 && *slice_index_get(i2, 0) == 84 {
        return Err(ParseErr::Error);
    }
    match time_global_hms(i2) {
        Ok((i3, t)) => Ok((i3, DateTime { date: d, time: t })),
        Err(e) => Err(e),
    }
}

/// A an any-precision date, one `T` (not two), then an offset-bearing time at minute precision.
pub open spec fn spec_datetime_approx_global_hm(i: Seq<u8>) -> SpecParseResult<DateTime<ApproxDate, GlobalTime<HmTime>>> {
    match spec_date_approx(i) {
        Err(e) => Err(e),
        Ok((i1, d)) => match spec_char(i1, 84) {
            Err(e) => Err(e),
            Ok((i2, _)) => if i2.len() >= 1 && i2[0] == 84 {
                Err(ParseErr::Error)
            } else {
                match spec_time_global_hm(i2) {
                    Err(e) => Err(e),
                    Ok((i3, t)) => Ok((i3, DateTime { date: d, time: t })),
                }
            },
        },
    }
}

/// Consume a combined date-time: an any-precision date, `T`, an offset-bearing time at minute precision.
pub fn datetime_approx_global_hm(i: &[u8]) -> (r: ParseResult<DateTime<ApproxDate, GlobalTime<HmTime>>>)
    ensures
        parsed(r) == spec_datetime_approx_global_hm(i@),
{
    let (i1, d) = match date_approx(i) {
        Ok(x) => x,
        Err(e) => {
            return Err(e);
        },
    };
    let i2 = match char_byte(i1, 84) {
        Ok((r2, _)) => r2,
        Err(e) => {
            return Err(e);
        },
    };
    if i2.len() >= 1 && *slice_index_get(i2, 0) == 84 {
        return Err(ParseErr::Error);
    }
    match time_global_hm(i2) {
        Ok((i3, t)) => Ok((i3, DateTime { date: d, time: t })),
        Err(e) => Err(e),
    }
}

/// A an any-precision date, one `T` (not two), then an offset-bearing time at hour precision.
pub open spec fn spec_datetime_approx_global_h(i: Seq<u8>) -> SpecParseResult<DateTime<ApproxDate, GlobalTime<HTime>>> {
    match spec_date_approx(i) {
        Err(e) => Err(e),
        Ok((i1, d)) => match spec_char(i1, 84) {
            Err(e) => Err(e),
            Ok((i2, _)) => if i2.len() >= 1 && i2[0] == 84 {
                Err(ParseErr::Error)
            } else {
                match spec_time_global_h(i2) {
                    Err(e) => Err(e),
                    Ok((i3, t)) => Ok((i3, DateTime { date: d, time: t })),
                }
            },
        },
    }
}

/// Consume a combined date-time: an any-precision date, `T`, an offset-bearing time at hour precision.
pub fn datetime_approx_global_h(i: &[u8]) -> (r: ParseResult<DateTime<ApproxDate, GlobalTime<HTime>>>)
    ensures
        parsed(r) == spec_datetime_approx_global_h(i@),
{
    let (i1, d) = match date_approx(i) {
        Ok(x) => x,
        Err(e) => {
            return Err(e);
        },
    };
    let i2 = match char_byte(i1, 84) {
        Ok((r2, _)) => r2,
        Err(e) => {
            return Err(e);
        },
    };
    if i2.len() >= 1 && *slice_index_get(i2, 0) == 84 {
        return Err(ParseErr::Error);
    }
    match time_global_h(i2) {
        Ok((i3, t)) => Ok((i3, DateTime { date: d, time: t })),
        Err(e) => Err(e),
    }
}

/// A an any-precision date, one `T` (not two), then a local time at second precision.
pub open spec fn spec_datetime_approx_local_hms(i: Seq<u8>) -> SpecParseResult<DateTime<ApproxDate, LocalTime<HmsTime>>> {
    match spec_date_approx(i) {
        Err(e) => Err(e),
        Ok((i1, d)) => match spec_char(i1, 84) {
            Err(e) => Err(e),
            Ok((i2, _)) => if i2.len() >= 1 && i2[0] == 84 {
                Err(ParseErr::Error)
            } else {
                match spec_time_local_hms(i2) {
                    Err(e) => Err(e),
                    Ok((i3, t)) => Ok((i3, DateTime { date: d, time: t })),
                }
            },
        },
    }
}

/// Consume a combined date-time: an any-precision date, `T`, a local time at second precision.
pub fn datetime_approx_local_hms(i: &[u8]) -> (r: ParseResult<DateTime<ApproxDate, LocalTime<HmsTime>>>)
    ensures
        parsed(r) == spec_datetime_approx_local_hms(i@),
{
    let (i1, d) = match date_approx(i) {
        Ok(x) => x,
        Err(e) => {
            return Err(e);
        },
    };
    let i2 = match char_byte(i1, 84) {
        Ok((r2, _)) => r2,
        Err(e) => {
            return Err(e);
        },
    };
    if i2.len() >= 1 && *slice_index_get(i2, 0) == 84 {
        return Err(ParseErr::Error);
    }
    match time_local_hms(i2) {
        Ok((i3, t)) => Ok((i3, DateTime { date: d, time: t })),
        Err(e) => Err(e),
    }
}

/// A an any-precision date, one `T` (not two), then a local time at minute precision.
pub open spec fn spec_datetime_approx_local_hm(i: Seq<u8>) -> SpecParseResult<DateTime<ApproxDate, LocalTime<HmTime>>> {
    match spec_date_approx(i) {
        Err(e) => Err(e),
        Ok((i1, d)) => match spec_char(i1, 84) {
            Err(e) => Err(e),
            Ok((i2, _)) => if i2.len() >= 1 && i2[0] == 84 {
                Err(ParseErr::Error)
            } else {
                match spec_time_local_hm(i2) {
                    Err(e) => Err(e),
                    Ok((i3, t)) => Ok((i3, DateTime { date: d, time: t })),
                }
            },
        },
    }
}

/// Consume a combined date-time: an any-precision date, `T`, a local time at minute precision.
pub fn datetime_approx_local_hm(i: &[u8]) -> (r: ParseResult<DateTime<ApproxDate, LocalTime<HmTime>>>)
    ensures
        parsed(r) == spec_datetime_approx_local_hm(i@),
{
    let (i1, d) = match date_approx(i) {
        Ok(x) => x,
        Err(e) => {
            return Err(e);
        },
    };
    let i2 = match char_byte(i1, 84) {
        Ok((r2, _)) => r2,
        Err(e) => {
            return Err(e);
        },
    };
    if i2.len() >= 1 && *slice_index_get(i2, 0) == 84 {
        return Err(ParseErr::Error);
    }
    match time_local_hm(i2) {
        Ok((i3, t)) => Ok((i3, DateTime { date: d, time: t })),
        Err(e) => Err(e),
    }
}

/// A an any-precision date, one `T` (not two), then a local time at hour precision.
pub open spec fn spec_datetime_approx_local_h(i: Seq<u8>) -> SpecParseResult<DateTime<ApproxDate, LocalTime<HTime>>> {
    match spec_date_approx(i) {
        Err(e) => Err(e),
        Ok((i1, d)) => match spec_char(i1, 84) {
            Err(e) => Err(e),
            Ok((i2, _)) => if i2.len() >= 1 && i2[0] == 84 {
                Err(ParseErr::Error)
            } else {
                match spec_time_local_h(i2) {
                    Err(e) => Err(e),
                    Ok((i3, t)) => Ok((i3, DateTime { date: d, time: t })),
                }
            },
        },
    }
}

/// Consume a combined date-time: an any-precision date, `T`, a local time at hour precision.
pub fn datetime_approx_local_h(i: &[u8]) -> (r: ParseResult<DateTime<ApproxDate, LocalTime<HTime>>>)
    ensures
        parsed(r) == spec_datetime_approx_local_h(i@),
{
    let (i1, d) = match date_approx(i) {
        Ok(x) => x,
        Err(e) => {
            return Err(e);
        },
    };
    let i2 = match char_byte(i1, 84) {
        Ok((r2, _)) => r2,
        Err(e) => {
            return Err(e);
        },
    };
    if i2.len() >= 1 && *slice_index_get(i2, 0) == 84 {
        return Err(ParseErr::Error);
    }
    match time_local_h(i2) {
        Ok((i3, t)) => Ok((i3, DateTime { date: d, time: t })),
        Err(e) => Err(e),
    }
}

/// A an any-precision date, one `T` (not two), then a time at second precision with or without an offset.
pub open spec fn spec_datetime_approx_any_hms(i: Seq<u8>) -> SpecParseResult<DateTime<ApproxDate, AnyTime<HmsTime>>> {
    match spec_date_approx(i) {
        Err(e) => Err(e),
        Ok((i1, d)) => match spec_char(i1, 84) {
            Err(e) => Err(e),
            Ok((i2, _)) => if i2.len() >= 1 && i2[0] == 84 {
                Err(ParseErr::Error)
            } else {
                match spec_time_any_hms(i2) {
                    Err(e) => Err(e),
                    Ok((i3, t)) => Ok((i3, DateTime { date: d, time: t })),
                }
            },
        },
    }
}

/// Consume a combined date-time: an any-precision date, `T`, a time at second precision with or without an offset.
pub fn datetime_approx_any_hms(i: &[u8]) -> (r: ParseResult<DateTime<ApproxDate, AnyTime<HmsTime>>>)
    ensures
        parsed(r) == spec_datetime_approx_any_hms(i@),
{
    let (i1, d) = match date_approx(i) {
        Ok(x) => x,
        Err(e) => {
            return Err(e);
        },
    };
    let i2 = match char_byte(i1, 84) {
        Ok((r2, _)) => r2,
        Err(e) => {
            return Err(e);
        },
    };
    if i2.len() >= 1 && *slice_index_get(i2, 0) == 84 {
        return Err(ParseErr::Error);
    }
    match time_any_hms(i2) {
        Ok((i3, t)) => Ok((i3, DateTime { date: d, time: t })),
        Err(e) => Err(e),
    }
}

/// A an any-precision date, one `T` (not two), then a time at minute precision with or without an offset.
pub open spec fn spec_datetime_approx_any_hm(i: Seq<u8>) -> SpecParseResult<DateTime<ApproxDate, AnyTime<HmTime>>> {
    match spec_date_approx(i) {
        Err(e) => Err(e),
        Ok((i1, d)) => match spec_char(i1, 84) {
            Err(e) => Err(e),
            Ok((i2, _)) => if i2.len() >= 1 && i2[0] == 84 {
                Err(ParseErr::Error)
            } else {
                match spec_time_any_hm(i2) {
                    Err(e) => Err(e),
                    Ok((i3, t)) => Ok((i3, DateTime { date: d, time: t })),
                }
            },
        },
    }
}

/// Consume a combined date-time: an any-precision date, `T`, a time at minute precision with or without an offset.
pub fn datetime_approx_any_hm(i: &[u8]) -> (r: ParseResult<DateTime<ApproxDate, AnyTime<HmTime>>>)
    ensures
        parsed(r) == spec_datetime_approx_any_hm(i@),
{
    let (i1, d) = match date_approx(i) {
        Ok(x) => x,
        Err(e) => {
            return Err(e);
        },
    };
    let i2 = match char_byte(i1, 84) {
        Ok((r2, _)) => r2,
        Err(e) => {
            return Err(e);
        },
    };
    if i2.len() >= 1 && *slice_index_get(i2, 0) == 84 {
        return Err(ParseErr::Error);
    }
    match time_any_hm(i2) {
        Ok((i3, t)) => Ok((i3, DateTime { date: d, time: t })),
        Err(e) => Err(e),
    }
}

/// A an any-precision date, one `T` (not two), then a time at hour precision with or without an offset.
pub open spec fn spec_datetime_approx_any_h(i: Seq<u8>) -> SpecParseResult<DateTime<ApproxDate, AnyTime<HTime>>> {
    match spec_date_approx(i) {
        Err(e) => Err(e),
        Ok((i1, d)) => match spec_char(i1, 84) {
            Err(e) => Err(e),
            Ok((i2, _)) => if i2.len() >= 1 && i2[0] == 84 {
                Err(ParseErr::Error)
            } else {
                match spec_time_any_h(i2) {
                    Err(e) => Err(e),
                    Ok((i3, t)) => Ok((i3, DateTime { date: d, time: t })),
                }
            },
        },
    }
}

/// Consume a combined date-time: an any-precision date, `T`, a time at hour precision with or without an offset.
pub fn datetime_approx_any_h(i: &[u8]) -> (r: ParseResult<DateTime<ApproxDate, AnyTime<HTime>>>)
    ensures
        parsed(r) == spec_datetime_approx_any_h(i@),
{
    let (i1, d) = match date_approx(i) {
        Ok(x) => x,
        Err(e) => {
            return Err(e);
        },
    };
    let i2 = match char_byte(i1, 84) {
        Ok((r2, _)) => r2,
        Err(e) => {
            return Err(e);
        },
    };
    if i2.len() >= 1 && *slice_index_get(i2, 0) == 84 {
        return Err(ParseErr::Error);
    }
    match time_any_h(i2) {
        Ok((i3, t)) => Ok((i3, DateTime { date: d, time: t })),
        Err(e) => Err(e),
    }
}

/// A an any-precision date, one `T` (not two), then an offset-bearing time of unknown precision.
pub open spec fn spec_datetime_approx_global_approx(i: Seq<u8>) -> SpecParseResult<DateTime<ApproxDate, ApproxGlobalTime>> {
    match spec_date_approx(i) {
        Err(e) => Err(e),
        Ok((i1, d)) => match spec_char(i1, 84) {
            Err(e) => Err(e),
            Ok((i2, _)) => if i2.len() >= 1 && i2[0] == 84 {
                Err(ParseErr::Error)
            } else {
                match spec_time_global_approx(i2) {
                    Err(e) => Err(e),
                    Ok((i3, t)) => Ok((i3, DateTime { date: d, time: t })),
                }
            },
        },
    }
}

/// Consume a combined date-time: an any-precision date, `T`, an offset-bearing time of unknown precision.
pub fn datetime_approx_global_approx(i: &[u8]) -> (r: ParseResult<DateTime<ApproxDate, ApproxGlobalTime>>)
    ensures
        parsed(r) == spec_datetime_approx_global_approx(i@),
{
    let (i1, d) = match date_approx(i) {
        Ok(x) => x,
        Err(e) => {
            return Err(e);
        },
    };
    let i2 = match char_byte(i1, 84) {
        Ok((r2, _)) => r2,
        Err(e) => {
            return Err(e);
        },
    };
    if i2.len() >= 1 && *slice_index_get(i2, 0) == 84 {
        return Err(ParseErr::Error);
    }
    match time_global_approx(i2) {
        Ok((i3, t)) => Ok((i3, DateTime { date: d, time: t })),
        Err(e) => Err(e),
    }
}

/// A an any-precision date, one `T` (not two), then a local time of unknown precision.
pub open spec fn spec_datetime_approx_local_approx(i: Seq<u8>) -> SpecParseResult<DateTime<ApproxDate, ApproxLocalTime>> {
    match spec_date_approx(i) {
        Err(e) => Err(e),
        Ok((i1, d)) => match spec_char(i1, 84) {
            Err(e) => Err(e),
            Ok((i2, _)) => if i2.len() >= 1 && i2[0] == 84 {
                Err(ParseErr::Error)
            } else {
                match spec_time_local_approx(i2) {
                    Err(e) => Err(e),
                    Ok((i3, t)) => Ok((i3, DateTime { date: d, time: t })),
                }
            },
        },
    }
}

/// Consume a combined date-time: an any-precision date, `T`, a local time of unknown precision.
pub fn datetime_approx_local_approx(i: &[u8]) -> (r: ParseResult<DateTime<ApproxDate, ApproxLocalTime>>)
    ensures
        parsed(r) == spec_datetime_approx_local_approx(i@),
{
    let (i1, d) = match date_approx(i) {
        Ok(x) => x,
        Err(e) => {
            return Err(e);
        },
    };
    let i2 = match char_byte(i1, 84) {
        Ok((r2, _)) => r2,
        Err(e) => {
            return Err(e);
        },
    };
    if i2.len() >= 1 && *slice_index_get(i2, 0) == 84 {
        return Err(ParseErr::Error);
    }
    match time_local_approx(i2) {
        Ok((i3, t)) => Ok((i3, DateTime { date: d, time: t })),
        Err(e) => Err(e),
    }
}

/// A an any-precision date, one `T` (not two), then a time of unknown precision with or without an offset.
pub open spec fn spec_datetime_approx_any_approx(i: Seq<u8>) -> SpecParseResult<DateTime<ApproxDate, ApproxAnyTime>> {
    match spec_date_approx(i) {
        Err(e) => Err(e),
        Ok((i1, d)) => match spec_char(i1, 84) {
            Err(e) => Err(e),
            Ok((i2, _)) => if i2.len() >= 1 && i2[0] == 84 {
                Err(ParseErr::Error)
            } else {
                match spec_time_any_approx(i2) {
                    Err(e) => Err(e),
                    Ok((i3, t)) => Ok((i3, DateTime { date: d, time: t })),
                }
            },
        },
    }
}

/// Consume a combined date-time: an any-precision date, `T`, a time of unknown precision with or without an offset.
pub fn datetime_approx_any_approx(i: &[u8]) -> (r: ParseResult<DateTime<ApproxDate, ApproxAnyTime>>)
    ensures
        parsed(r) == spec_datetime_approx_any_approx(i@),
{
    let (i1, d) = match date_approx(i) {
        Ok(x) => x,
        Err(e) => {
            return Err(e);
        },
    };
    let i2 = match char_byte(i1, 84) {
        Ok((r2, _)) => r2,
        Err(e) => {
            return Err(e);
        },
    };
    if i2.len() >= 1 && *slice_index_get(i2, 0) == 84 {
        return Err(ParseErr::Error);
    }
    match time_any_approx(i2) {
        Ok((i3, t)) => Ok((i3, DateTime { date: d, time: t })),
        Err(e) => Err(e),
    }
}

/// Whether the byte occurs anywhere in the sequence.
pub open spec fn spec_contains_byte(s: Seq<u8>, c: u8) -> bool {
    exists|k: int| 0 <= k < s.len() && s[k] == c
}

/// The lookahead rule that decides whether the partial parser
/// attempts a date at all: either a `T` separator occurs after the
/// first byte, or the input does not begin with `T` and holds no
/// colon (a colon with no leading `T` signals a bare time).
pub open spec fn spec_partial_wants_date(i: Seq<u8>) -> bool {
    (i.len() > 0 && spec_contains_byte(i.skip(1), 84)) || ((i.len() == 0 || i[0] != 84)
        && !spec_contains_byte(i, 58))
}

/// Input that may hold a date only, a time only, or both.  The date
/// grammar is attempted only under the lookahead rule, and a failed
/// date attempt means "no date" rather than a failure; then one
/// optional `T` is consumed; then, unless a second `T` follows, a
/// time is attempted the same way.  Neither part present is the
/// needs-more-input signal, not a hard failure.
pub open spec fn spec_partial_datetime_approx_any_approx(i: Seq<u8>) -> SpecParseResult<
    PartialDateTime<ApproxDate, ApproxAnyTime>,
> {
    let date_part: SpecParseResult<Option<ApproxDate>> = if spec_partial_wants_date(i) {
        match spec_date_approx(i) {
            Ok((r, d)) => Ok((r, Some(d))),
            Err(ParseErr::Incomplete) => Err(ParseErr::Incomplete),
            Err(ParseErr::Error) => Ok((i, None)),
        }
    } else {
        Ok((i, None))
    };
    match date_part {
        Err(e) => Err(e),
        Ok((i1, d)) => {
            let i2 = match spec_char(i1, 84) {
                Ok((r, _)) => r,
                Err(_) => i1,
            };
            let time_part: (Seq<u8>, Option<ApproxAnyTime>) = if i2.len() >= 1 && i2[0] == 84 {
                (i2, None)
            } else {
                match spec_time_any_approx(i2) {
                    Ok((r, t)) => (r, Some(t)),
                    Err(_) => (i2, None),
                }
            };
            match (d, time_part.1) {
                (None, None) => Err(ParseErr::Incomplete),
                (Some(d), None) => Ok((time_part.0, PartialDateTime::Date(d))),
                (None, Some(t)) => Ok((time_part.0, PartialDateTime::Time(t))),
                (Some(d), Some(t)) => Ok(
                    (time_part.0, PartialDateTime::DateTime(DateTime { date: d, time: t })),
                ),
            }
        },
    }
}

/// Whether the byte occurs in the slice.
fn contains_byte(s: &[u8], c: u8) -> (r: bool)
    ensures
        r == spec_contains_byte(s@, c),
{
    let mut k: usize = 0;
    while k < s.len()
        invariant
            0 <= k <= s@.len(),
            forall|j: int| 0 <= j < k ==> s@[j] != c,
        decreases s@.len() - k,
    {
        if *slice_index_get(s, k) == c {
            return true;
        }
        k = k + 1;
    }
    false
}

/// Consume a date, a time, or both, deciding which is present by
/// lookahead.
pub fn partial_datetime_approx_any_approx(i: &[u8]) -> (r: ParseResult<
    PartialDateTime<ApproxDate, ApproxAnyTime>,
>)
    ensures
        parsed(r) == spec_partial_datetime_approx_any_approx(i@),
{
    let wants_date: bool = {
        let t_after_first = if i.len() > 0 {
            contains_byte(slice_subrange(i, 1, i.len()), 84)
        } else {
            false
        };
        let starts_t = i.len() > 0 && *slice_index_get(i, 0) == 84;
        t_after_first || (!starts_t && !contains_byte(i, 58))
    };
    let (i1, d): (&[u8], Option<ApproxDate>) = if wants_date {
        match date_approx(i) {
            Ok((r, dd)) => (r, Some(dd)),
            Err(ParseErr::Incomplete) => {
                return Err(ParseErr::Incomplete);
            },
            Err(ParseErr::Error) => (i, None),
        }
    } else {
        (i, None)
    };
    let i2 = match char_byte(i1, 84) {
        Ok((r, _)) => r,
        Err(_) => i1,
    };
    let (i3, t): (&[u8], Option<ApproxAnyTime>) = if i2.len() >= 1 && *slice_index_get(i2, 0)
        == 84 {
        (i2, None)
    } else {
        match time_any_approx(i2) {
            Ok((r, tt)) => (r, Some(tt)),
            Err(_) => (i2, None),
        }
    };
    match (d, t) {
        (None, None) => Err(ParseErr::Incomplete),
        (Some(dd), None) => Ok((i3, PartialDateTime::Date(dd))),
        (None, Some(tt)) => Ok((i3, PartialDateTime::Time(tt))),
        (Some(dd), Some(tt)) => Ok((i3, PartialDateTime::DateTime(DateTime { date: dd, time: tt }))),
    }
}

} // verus!
