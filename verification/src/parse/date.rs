//! The date grammar: seven precisions, each in basic (no separators)
//! and extended (`-` between fields, `W` before weeks) form.  Every
//! public parser tries the extended form first, then the basic form,
//! and recognises a prefix of its input.

use vstd::prelude::*;

use crate::date::ApproxDate;
use crate::date::CDate;
use crate::date::Date;
use crate::date::ODate;
use crate::date::WDate;
use crate::date::WdDate;
use crate::date::YDate;
use crate::date::YmDate;
use crate::date::YmdDate;
use crate::Valid;
use crate::parse::all_digits;
use crate::parse::char_byte;
use crate::parse::is_digit_byte;
use crate::parse::spec_digits_val;
use crate::parse::four_digits;
use crate::parse::one_digit;
use crate::parse::parsed;
use crate::parse::sign;
use crate::parse::spec_char;
use crate::parse::spec_cond_char;
use crate::parse::spec_four_digits;
use crate::parse::spec_one_digit;
use crate::parse::spec_sign;
use crate::parse::spec_three_digits;
use crate::parse::spec_two_digits;
use crate::parse::three_digits;
use crate::parse::two_digits;
use crate::parse::ParseErr;
use crate::parse::ParseResult;
use crate::parse::SpecParseResult;

verus! {

/// An unsigned two-digit century.
pub fn positive_century(i: &[u8]) -> (r: ParseResult<u8>)
    ensures
        parsed(r) == spec_two_digits(i@),
        r matches Ok((_, v)) ==> v < 100,
{
    two_digits(i)
}

/// A two-digit century with an optional sign.
pub open spec fn spec_century(i: Seq<u8>) -> SpecParseResult<i8> {
    match spec_sign(i) {
        Ok((r1, sg)) => match spec_two_digits(r1) {
            Ok((r2, v)) => Ok((r2, (sg as int * v as int) as i8)),
            Err(e) => Err(e),
        },
        Err(ParseErr::Incomplete) => Err(ParseErr::Incomplete),
        Err(ParseErr::Error) => match spec_two_digits(i) {
            Ok((r2, v)) => Ok((r2, v as i8)),
            Err(e) => Err(e),
        },
    }
}

/// Consume a century, optionally signed.
pub fn century(i: &[u8]) -> (r: ParseResult<i8>)
    ensures
        parsed(r) == spec_century(i@),
{
    let (rest, sg): (&[u8], i8) = match sign(i) {
        Ok(x) => x,
        Err(ParseErr::Incomplete) => {
            return Err(ParseErr::Incomplete);
        },
        Err(ParseErr::Error) => (i, 1),
    };
    proof {
        assert(sg == 1 || sg == -1);
    }
    match positive_century(rest) {
        Ok((r2, v)) => {
            let vi: i8 = v as i8;
            proof {
                if sg == -1 {
                    assert(sg as int * (vi as int) == -(vi as int)) by (nonlinear_arith)
                        requires
                            sg == -1,
                    ;
                } else {
                    assert(sg as int * (vi as int) == vi as int) by (nonlinear_arith)
                        requires
                            sg == 1,
                    ;
                }
            }
            Ok((r2, if sg < 0 { -vi } else { vi }))
        },
        Err(e) => Err(e),
    }
}

/// An unsigned four-digit year.
pub fn positive_year(i: &[u8]) -> (r: ParseResult<u16>)
    ensures
        parsed(r) == spec_four_digits(i@),
        r matches Ok((_, v)) ==> v < 10000,
{
    four_digits(i)
}

/// A four-digit year with an optional sign; the sign flips the whole
/// numeral.
pub open spec fn spec_year(i: Seq<u8>) -> SpecParseResult<i16> {
    match spec_sign(i) {
        Ok((r1, sg)) => match spec_four_digits(r1) {
            Ok((r2, v)) => Ok((r2, (sg as int * v as int) as i16)),
            Err(e) => Err(e),
        },
        Err(ParseErr::Incomplete) => Err(ParseErr::Incomplete),
        Err(ParseErr::Error) => match spec_four_digits(i) {
            Ok((r2, v)) => Ok((r2, v as i16)),
            Err(e) => Err(e),
        },
    }
}

/// Consume a year, optionally signed.
pub fn year(i: &[u8]) -> (r: ParseResult<i16>)
    ensures
        parsed(r) == spec_year(i@),
        r matches Ok((_, v)) ==> -9999 <= v <= 9999,
{
    let (rest, sg): (&[u8], i8) = match sign(i) {
        Ok(x) => x,
        Err(ParseErr::Incomplete) => {
            return Err(ParseErr::Incomplete);
        },
        Err(ParseErr::Error) => (i, 1),
    };
    proof {
        assert(sg == 1 || sg == -1);
    }
    match positive_year(rest) {
        Ok((r2, v)) => {
            let vi: i16 = v as i16;
            proof {
                if sg == -1 {
                    assert(sg as int * (vi as int) == -(vi as int)) by (nonlinear_arith)
                        requires
                            sg == -1,
                    ;
                } else {
                    assert(sg as int * (vi as int) == vi as int) by (nonlinear_arith)
                        requires
                            sg == 1,
                    ;
                }
            }
            Ok((r2, if sg < 0 { -vi } else { vi }))
        },
        Err(e) => Err(e),
    }
}

/// A two-digit calendar month.
pub fn month(i: &[u8]) -> (r: ParseResult<u8>)
    ensures
        parsed(r) == spec_two_digits(i@),
{
    two_digits(i)
}

/// A two-digit day of the month.
pub fn day(i: &[u8]) -> (r: ParseResult<u8>)
    ensures
        parsed(r) == spec_two_digits(i@),
{
    two_digits(i)
}

/// A two-digit ISO week number.
pub fn year_week(i: &[u8]) -> (r: ParseResult<u8>)
    ensures
        parsed(r) == spec_two_digits(i@),
{
    two_digits(i)
}

/// A three-digit ordinal day of the year.
pub fn year_day(i: &[u8]) -> (r: ParseResult<u16>)
    ensures
        parsed(r) == spec_three_digits(i@),
{
    three_digits(i)
}

/// A one-digit ISO weekday.
pub fn week_day(i: &[u8]) -> (r: ParseResult<u8>)
    ensures
        parsed(r) == spec_one_digit(i@),
{
    one_digit(i)
}

/// A year-month-day date: `YYYY-MM-DD` extended, `YYYYMMDD` basic.
pub open spec fn spec_date_ymd_format(i: Seq<u8>, extended: bool) -> SpecParseResult<YmdDate> {
    match spec_year(i) {
        Err(e) => Err(e),
        Ok((i1, y)) => match spec_cond_char(extended, i1, 45) {
            Err(e) => Err(e),
            Ok((i2, _)) => match spec_two_digits(i2) {
                Err(e) => Err(e),
                Ok((i3, m)) => match spec_cond_char(extended, i3, 45) {
                    Err(e) => Err(e),
                    Ok((i4, _)) => match spec_two_digits(i4) {
                        Err(e) => Err(e),
                        Ok((i5, d)) => Ok((i5, YmdDate { year: y, month: m, day: d })),
                    },
                },
            },
        },
    }
}

fn date_ymd_format(i: &[u8], extended: bool) -> (r: ParseResult<YmdDate>)
    ensures
        parsed(r) == spec_date_ymd_format(i@, extended),
{
    let (i1, y) = match year(i) {
        Ok(x) => x,
        Err(e) => {
            return Err(e);
        },
    };
    let i2 = if extended {
        match char_byte(i1, 45) {
            Ok((r, _)) => r,
            Err(e) => {
                return Err(e);
            },
        }
    } else {
        i1
    };
    let (i3, m) = match month(i2) {
        Ok(x) => x,
        Err(e) => {
            return Err(e);
        },
    };
    let i4 = if extended {
        match char_byte(i3, 45) {
            Ok((r, _)) => r,
            Err(e) => {
                return Err(e);
            },
        }
    } else {
        i3
    };
    match day(i4) {
        Ok((i5, d)) => Ok((i5, YmdDate { year: y, month: m, day: d })),
        Err(e) => Err(e),
    }
}

/// A year-month-day date in either form, extended tried first.
pub open spec fn spec_date_ymd(i: Seq<u8>) -> SpecParseResult<YmdDate> {
    match spec_date_ymd_format(i, true) {
        Ok(x) => Ok(x),
        Err(ParseErr::Incomplete) => Err(ParseErr::Incomplete),
        Err(ParseErr::Error) => spec_date_ymd_format(i, false),
    }
}

/// Consume a year-month-day date, extended form first.
pub fn date_ymd(i: &[u8]) -> (r: ParseResult<YmdDate>)
    ensures
        parsed(r) == spec_date_ymd(i@),
{
    match date_ymd_format(i, true) {
        Ok(x) => Ok(x),
        Err(ParseErr::Incomplete) => Err(ParseErr::Incomplete),
        Err(ParseErr::Error) => date_ymd_format(i, false),
    }
}

/// A week date: `YYYY-Www-D` extended, `YYYYWwwD` basic.
pub open spec fn spec_date_wd_format(i: Seq<u8>, extended: bool) -> SpecParseResult<WdDate> {
    match spec_year(i) {
        Err(e) => Err(e),
        Ok((i1, y)) => match spec_cond_char(extended, i1, 45) {
            Err(e) => Err(e),
            Ok((i2, _)) => match spec_char(i2, 87) {
                Err(e) => Err(e),
                Ok((i3, _)) => match spec_two_digits(i3) {
                    Err(e) => Err(e),
                    Ok((i4, w)) => match spec_cond_char(extended, i4, 45) {
                        Err(e) => Err(e),
                        Ok((i5, _)) => match spec_one_digit(i5) {
                            Err(e) => Err(e),
                            Ok((i6, d)) => Ok((i6, WdDate { year: y, week: w, day: d })),
                        },
                    },
                },
            },
        },
    }
}

fn date_wd_format(i: &[u8], extended: bool) -> (r: ParseResult<WdDate>)
    ensures
        parsed(r) == spec_date_wd_format(i@, extended),
{
    let (i1, y) = match year(i) {
        Ok(x) => x,
        Err(e) => {
            return Err(e);
        },
    };
    let i2 = if extended {
        match char_byte(i1, 45) {
            Ok((r, _)) => r,
            Err(e) => {
                return Err(e);
            },
        }
    } else {
        i1
    };
    let i3 = match char_byte(i2, 87) {
        Ok((r, _)) => r,
        Err(e) => {
            return Err(e);
        },
    };
    let (i4, w) = match year_week(i3) {
        Ok(x) => x,
        Err(e) => {
            return Err(e);
        },
    };
    let i5 = if extended {
        match char_byte(i4, 45) {
            Ok((r, _)) => r,
            Err(e) => {
                return Err(e);
            },
        }
    } else {
        i4
    };
    match week_day(i5) {
        Ok((i6, d)) => Ok((i6, WdDate { year: y, week: w, day: d })),
        Err(e) => Err(e),
    }
}

/// A week date in either form, extended tried first.
pub open spec fn spec_date_wd(i: Seq<u8>) -> SpecParseResult<WdDate> {
    match spec_date_wd_format(i, true) {
        Ok(x) => Ok(x),
        Err(ParseErr::Incomplete) => Err(ParseErr::Incomplete),
        Err(ParseErr::Error) => spec_date_wd_format(i, false),
    }
}

/// Consume a week date, extended form first.
pub fn date_wd(i: &[u8]) -> (r: ParseResult<WdDate>)
    ensures
        parsed(r) == spec_date_wd(i@),
{
    match date_wd_format(i, true) {
        Ok(x) => Ok(x),
        Err(ParseErr::Incomplete) => Err(ParseErr::Incomplete),
        Err(ParseErr::Error) => date_wd_format(i, false),
    }
}

/// An ordinal date: `YYYY-DDD` extended, `YYYYDDD` basic.
pub open spec fn spec_date_o_format(i: Seq<u8>, extended: bool) -> SpecParseResult<ODate> {
    match spec_year(i) {
        Err(e) => Err(e),
        Ok((i1, y)) => match spec_cond_char(extended, i1, 45) {
            Err(e) => Err(e),
            Ok((i2, _)) => match spec_three_digits(i2) {
                Err(e) => Err(e),
                Ok((i3, d)) => Ok((i3, ODate { year: y, day: d })),
            },
        },
    }
}

fn date_o_format(i: &[u8], extended: bool) -> (r: ParseResult<ODate>)
    ensures
        parsed(r) == spec_date_o_format(i@, extended),
{
    let (i1, y) = match year(i) {
        Ok(x) => x,
        Err(e) => {
            return Err(e);
        },
    };
    let i2 = if extended {
        match char_byte(i1, 45) {
            Ok((r, _)) => r,
            Err(e) => {
                return Err(e);
            },
        }
    } else {
        i1
    };
    match year_day(i2) {
        Ok((i3, d)) => Ok((i3, ODate { year: y, day: d })),
        Err(e) => Err(e),
    }
}

/// An ordinal date in either form, extended tried first.
pub open spec fn spec_date_o(i: Seq<u8>) -> SpecParseResult<ODate> {
    match spec_date_o_format(i, true) {
        Ok(x) => Ok(x),
        Err(ParseErr::Incomplete) => Err(ParseErr::Incomplete),
        Err(ParseErr::Error) => spec_date_o_format(i, false),
    }
}

/// Consume an ordinal date, extended form first.
pub fn date_o(i: &[u8]) -> (r: ParseResult<ODate>)
    ensures
        parsed(r) == spec_date_o(i@),
{
    match date_o_format(i, true) {
        Ok(x) => Ok(x),
        Err(ParseErr::Incomplete) => Err(ParseErr::Incomplete),
        Err(ParseErr::Error) => date_o_format(i, false),
    }
}

/// An exact date: week date, year-month-day or ordinal, tried in that
/// order; an input that ends early counts as a mismatch here.
pub open spec fn spec_date(i: Seq<u8>) -> SpecParseResult<Date> {
    match spec_date_wd(i) {
        Ok((r, v)) => Ok((r, Date::WD(v))),
        Err(_) => match spec_date_ymd(i) {
            Ok((r, v)) => Ok((r, Date::YMD(v))),
            Err(_) => match spec_date_o(i) {
                Ok((r, v)) => Ok((r, Date::O(v))),
                Err(_) => Err(ParseErr::Error),
            },
        },
    }
}

/// Consume an exact date in any of the three calendar systems.
pub fn date(i: &[u8]) -> (r: ParseResult<Date>)
    ensures
        parsed(r) == spec_date(i@),
{
    match date_wd(i) {
        Ok((r, v)) => {
            return Ok((r, Date::WD(v)));
        },
        Err(_) => {},
    }
    match date_ymd(i) {
        Ok((r, v)) => {
            return Ok((r, Date::YMD(v)));
        },
        Err(_) => {},
    }
    match date_o(i) {
        Ok((r, v)) => Ok((r, Date::O(v))),
        Err(_) => Err(ParseErr::Error),
    }
}

/// A year-week date: `YYYY-Www` extended, `YYYYWww` basic.
pub open spec fn spec_date_w_format(i: Seq<u8>, extended: bool) -> SpecParseResult<WDate> {
    match spec_year(i) {
        Err(e) => Err(e),
        Ok((i1, y)) => match spec_cond_char(extended, i1, 45) {
            Err(e) => Err(e),
            Ok((i2, _)) => match spec_char(i2, 87) {
                Err(e) => Err(e),
                Ok((i3, _)) => match spec_two_digits(i3) {
                    Err(e) => Err(e),
                    Ok((i4, w)) => Ok((i4, WDate { year: y, week: w })),
                },
            },
        },
    }
}

fn date_w_format(i: &[u8], extended: bool) -> (r: ParseResult<WDate>)
    ensures
        parsed(r) == spec_date_w_format(i@, extended),
{
    let (i1, y) = match year(i) {
        Ok(x) => x,
        Err(e) => {
            return Err(e);
        },
    };
    let i2 = if extended {
        match char_byte(i1, 45) {
            Ok((r, _)) => r,
            Err(e) => {
                return Err(e);
            },
        }
    } else {
        i1
    };
    let i3 = match char_byte(i2, 87) {
        Ok((r, _)) => r,
        Err(e) => {
            return Err(e);
        },
    };
    match year_week(i3) {
        Ok((i4, w)) => Ok((i4, WDate { year: y, week: w })),
        Err(e) => Err(e),
    }
}

/// A year-week date in either form, extended tried first.
pub open spec fn spec_date_w(i: Seq<u8>) -> SpecParseResult<WDate> {
    match spec_date_w_format(i, true) {
        Ok(x) => Ok(x),
        Err(ParseErr::Incomplete) => Err(ParseErr::Incomplete),
        Err(ParseErr::Error) => spec_date_w_format(i, false),
    }
}

/// Consume a year-week date, extended form first.
pub fn date_w(i: &[u8]) -> (r: ParseResult<WDate>)
    ensures
        parsed(r) == spec_date_w(i@),
{
    match date_w_format(i, true) {
        Ok(x) => Ok(x),
        Err(ParseErr::Incomplete) => Err(ParseErr::Incomplete),
        Err(ParseErr::Error) => date_w_format(i, false),
    }
}

/// A year-month date: `YYYY-MM` extended, `YYYYMM` basic.
pub open spec fn spec_date_ym_format(i: Seq<u8>, extended: bool) -> SpecParseResult<YmDate> {
    match spec_year(i) {
        Err(e) => Err(e),
        Ok((i1, y)) => match spec_cond_char(extended, i1, 45) {
            Err(e) => Err(e),
            Ok((i2, _)) => match spec_two_digits(i2) {
                Err(e) => Err(e),
                Ok((i3, m)) => Ok((i3, YmDate { year: y, month: m })),
            },
        },
    }
}

fn date_ym_format(i: &[u8], extended: bool) -> (r: ParseResult<YmDate>)
    ensures
        parsed(r) == spec_date_ym_format(i@, extended),
{
    let (i1, y) = match year(i) {
        Ok(x) => x,
        Err(e) => {
            return Err(e);
        },
    };
    let i2 = if extended {
        match char_byte(i1, 45) {
            Ok((r, _)) => r,
            Err(e) => {
                return Err(e);
            },
        }
    } else {
        i1
    };
    match month(i2) {
        Ok((i3, m)) => Ok((i3, YmDate { year: y, month: m })),
        Err(e) => Err(e),
    }
}

/// A year-month date in either form, extended tried first.
pub open spec fn spec_date_ym(i: Seq<u8>) -> SpecParseResult<YmDate> {
    match spec_date_ym_format(i, true) {
        Ok(x) => Ok(x),
        Err(ParseErr::Incomplete) => Err(ParseErr::Incomplete),
        Err(ParseErr::Error) => spec_date_ym_format(i, false),
    }
}

/// Consume a year-month date, extended form first.
pub fn date_ym(i: &[u8]) -> (r: ParseResult<YmDate>)
    ensures
        parsed(r) == spec_date_ym(i@),
{
    match date_ym_format(i, true) {
        Ok(x) => Ok(x),
        Err(ParseErr::Incomplete) => Err(ParseErr::Incomplete),
        Err(ParseErr::Error) => date_ym_format(i, false),
    }
}

/// A year-precision date.
pub open spec fn spec_date_y(i: Seq<u8>) -> SpecParseResult<YDate> {
    match spec_year(i) {
        Ok((r, y)) => Ok((r, YDate { year: y })),
        Err(e) => Err(e),
    }
}

/// Consume a year-precision date.
pub fn date_y(i: &[u8]) -> (r: ParseResult<YDate>)
    ensures
        parsed(r) == spec_date_y(i@),
{
    match year(i) {
        Ok((rest, y)) => Ok((rest, YDate { year: y })),
        Err(e) => Err(e),
    }
}

/// A century-precision date.
pub open spec fn spec_date_c(i: Seq<u8>) -> SpecParseResult<CDate> {
    match spec_century(i) {
        Ok((r, c)) => Ok((r, CDate { century: c })),
        Err(e) => Err(e),
    }
}

/// Consume a century-precision date.
pub fn date_c(i: &[u8]) -> (r: ParseResult<CDate>)
    ensures
        parsed(r) == spec_date_c(i@),
{
    match century(i) {
        Ok((rest, c)) => Ok((rest, CDate { century: c })),
        Err(e) => Err(e),
    }
}

/// A date of any precision: the exact forms first, then year-week,
/// year-month, year and century, in decreasing precision.  An input
/// that ends inside a later alternative is incomplete.
pub open spec fn spec_date_approx(i: Seq<u8>) -> SpecParseResult<ApproxDate> {
    match spec_date(i) {
        Ok((r, v)) => Ok(
            (
                r,
                match v {
                    Date::YMD(d) => ApproxDate::YMD(d),
                    Date::WD(d) => ApproxDate::WD(d),
                    Date::O(d) => ApproxDate::O(d),
                },
            ),
        ),
        Err(ParseErr::Incomplete) => Err(ParseErr::Incomplete),
        Err(ParseErr::Error) => match spec_date_w(i) {
            Ok((r, v)) => Ok((r, ApproxDate::W(v))),
            Err(ParseErr::Incomplete) => Err(ParseErr::Incomplete),
            Err(ParseErr::Error) => match spec_date_ym(i) {
                Ok((r, v)) => Ok((r, ApproxDate::YM(v))),
                Err(ParseErr::Incomplete) => Err(ParseErr::Incomplete),
                Err(ParseErr::Error) => match spec_date_y(i) {
                    Ok((r, v)) => Ok((r, ApproxDate::Y(v))),
                    Err(ParseErr::Incomplete) => Err(ParseErr::Incomplete),
                    Err(ParseErr::Error) => match spec_date_c(i) {
                        Ok((r, v)) => Ok((r, ApproxDate::C(v))),
                        Err(e) => Err(e),
                    },
                },
            },
        },
    }
}

/// Consume a date of any precision.
pub fn date_approx(i: &[u8]) -> (r: ParseResult<ApproxDate>)
    ensures
        parsed(r) == spec_date_approx(i@),
{
    match date(i) {
        Ok((r, v)) => {
            return Ok((r, v.to_approx()));
        },
        Err(_) => {},
    }
    match date_w(i) {
        Ok((r, v)) => {
            return Ok((r, ApproxDate::W(v)));
        },
        Err(ParseErr::Incomplete) => {
            return Err(ParseErr::Incomplete);
        },
        Err(ParseErr::Error) => {},
    }
    match date_ym(i) {
        Ok((r, v)) => {
            return Ok((r, ApproxDate::YM(v)));
        },
        Err(ParseErr::Incomplete) => {
            return Err(ParseErr::Incomplete);
        },
        Err(ParseErr::Error) => {},
    }
    match date_y(i) {
        Ok((r, v)) => {
            return Ok((r, ApproxDate::Y(v)));
        },
        Err(ParseErr::Incomplete) => {
            return Err(ParseErr::Incomplete);
        },
        Err(ParseErr::Error) => {},
    }
    match date_c(i) {
        Ok((r, v)) => Ok((r, ApproxDate::C(v))),
        Err(e) => Err(e),
    }
}


/// The two-character writing of a number below one hundred.
pub open spec fn render_digits2(n: int) -> Seq<u8> {
    seq![(48 + n / 10 % 10) as u8, (48 + n % 10) as u8]
}

/// The four-character writing of a number below ten thousand.
pub open spec fn render_digits4(n: int) -> Seq<u8> {
    seq![
        (48 + n / 1000 % 10) as u8,
        (48 + n / 100 % 10) as u8,
        (48 + n / 10 % 10) as u8,
        (48 + n % 10) as u8,
    ]
}

/// The writing of a four-digit year: a leading `-` when negative.
pub open spec fn render_year(y: int) -> Seq<u8> {
    if y < 0 {
        seq![45u8] + render_digits4(-y)
    } else {
        render_digits4(y)
    }
}

/// The basic (separator-free) writing of a calendar date.
pub open spec fn render_ymd_basic(y: int, m: int, d: int) -> Seq<u8> {
    render_year(y) + render_digits2(m) + render_digits2(d)
}

/// The extended (separated) writing of a calendar date.
pub open spec fn render_ymd_extended(y: int, m: int, d: int) -> Seq<u8> {
    render_year(y) + seq![45u8] + render_digits2(m) + seq![45u8] + render_digits2(d)
}

proof fn lemma_render_digits2(n: int)
    requires
        0 <= n < 100,
    ensures
        render_digits2(n).len() == 2,
        all_digits(render_digits2(n)),
        spec_digits_val(render_digits2(n)) == n,
{
    let s = render_digits2(n);
    assert(s[0] == (48 + n / 10 % 10) as u8);
    assert(s[1] == (48 + n % 10) as u8);
    assert(s.drop_last() =~= seq![(48 + n / 10 % 10) as u8]);
    assert(s.drop_last().drop_last() =~= Seq::<u8>::empty());
    assert(n / 10 % 10 == n / 10);
    assert(s.drop_last().len() == 1);
    assert(s.drop_last().last() == s[0]);
    assert(s.last() == s[1]);
    assert(spec_digits_val(s.drop_last().drop_last()) == 0);
    assert(spec_digits_val(s.drop_last()) == n / 10);
    assert(spec_digits_val(s) == n / 10 * 10 + n % 10);
}

proof fn lemma_render_digits4(n: int)
    requires
        0 <= n < 10000,
    ensures
        render_digits4(n).len() == 4,
        all_digits(render_digits4(n)),
        spec_digits_val(render_digits4(n)) == n,
{
    let s = render_digits4(n);
    assert(s[0] == (48 + n / 1000 % 10) as u8);
    assert(s[1] == (48 + n / 100 % 10) as u8);
    assert(s[2] == (48 + n / 10 % 10) as u8);
    assert(s[3] == (48 + n % 10) as u8);
    let s3 = s.drop_last();
    let s2 = s3.drop_last();
    let s1 = s2.drop_last();
    assert(s3 =~= seq![s[0], s[1], s[2]]);
    assert(s2 =~= seq![s[0], s[1]]);
    assert(s1 =~= seq![s[0]]);
    assert(s1.drop_last() =~= Seq::<u8>::empty());
    assert(s.last() == s[3]);
    assert(s3.last() == s[2]);
    assert(s2.last() == s[1]);
    assert(s1.last() == s[0]);
    assert(spec_digits_val(s1.drop_last()) == 0);
    vstd::arithmetic::div_mod::lemma_div_denominator(n, 10, 10);
    vstd::arithmetic::div_mod::lemma_div_denominator(n, 100, 10);
    assert(n / 1000 % 10 == n / 1000);
    assert(spec_digits_val(s1) == n / 1000);
    assert(n / 100 / 10 == n / 1000);
    assert(n / 100 == n / 100 / 10 * 10 + n / 100 % 10);
    assert(spec_digits_val(s2) == n / 1000 * 10 + n / 100 % 10);
    assert(spec_digits_val(s2) == n / 100);
    assert(n / 10 / 10 == n / 100);
    assert(n / 10 == n / 10 / 10 * 10 + n / 10 % 10);
    assert(spec_digits_val(s3) == n / 100 * 10 + n / 10 % 10);
    assert(spec_digits_val(s3) == n / 10);
    assert(spec_digits_val(s) == n / 10 * 10 + n % 10);
}

proof fn lemma_two_digits_prefix(s: Seq<u8>, n: int, rest: Seq<u8>)
    requires
        0 <= n < 100,
        s =~= render_digits2(n) + rest,
    ensures
        spec_two_digits(s) == Ok::<(Seq<u8>, u8), ParseErr>((rest, n as u8)),
{
    lemma_render_digits2(n);
    assert(s.take(2) =~= render_digits2(n));
    assert(s.skip(2) =~= rest);
    assert(all_digits(s.take(2)));
}

proof fn lemma_four_digits_prefix(s: Seq<u8>, n: int, rest: Seq<u8>)
    requires
        0 <= n < 10000,
        s =~= render_digits4(n) + rest,
    ensures
        spec_four_digits(s) == Ok::<(Seq<u8>, u16), ParseErr>((rest, n as u16)),
{
    lemma_render_digits4(n);
    assert(s.take(4) =~= render_digits4(n));
    assert(s.skip(4) =~= rest);
    assert(all_digits(s.take(4)));
}

proof fn lemma_year_prefix(s: Seq<u8>, y: int, rest: Seq<u8>)
    requires
        -9999 <= y <= 9999,
        s =~= render_year(y) + rest,
    ensures
        spec_year(s) == Ok::<(Seq<u8>, i16), ParseErr>((rest, y as i16)),
{
    if y < 0 {
        assert(s[0] == 45);
        assert(s.skip(1) =~= render_digits4(-y) + rest);
        lemma_four_digits_prefix(s.skip(1), -y, rest);
    } else {
        lemma_render_digits4(y);
        assert(s[0] == render_digits4(y)[0]);
        assert(is_digit_byte(s[0]));
        lemma_four_digits_prefix(s, y, rest);
    }
}

/// Both the basic (`YYYYMMDD`) and the extended (`YYYY-MM-DD`)
/// writing of any real Gregorian calendar date parse, through the
/// year-month-day grammar, to the identical value, and that value is
/// valid.
pub proof fn lemma_date_ymd_basic_extended_agree(y: int, m: int, d: int)
    requires
        -9999 <= y <= 9999,
        1 <= m <= 12,
        1 <= d <= crate::date::spec_days_in_month(y, m),
    ensures
        spec_date_ymd(render_ymd_basic(y, m, d)) == Ok::<(Seq<u8>, YmdDate), ParseErr>(
            (Seq::<u8>::empty(), YmdDate { year: y as i16, month: m as u8, day: d as u8 }),
        ),
        spec_date_ymd(render_ymd_extended(y, m, d)) == Ok::<(Seq<u8>, YmdDate), ParseErr>(
            (Seq::<u8>::empty(), YmdDate { year: y as i16, month: m as u8, day: d as u8 }),
        ),
        (YmdDate { year: y as i16, month: m as u8, day: d as u8 }).valid(),
{
    lemma_render_digits2(m);
    lemma_render_digits2(d);
    let value = YmdDate { year: y as i16, month: m as u8, day: d as u8 };

    // The extended writing parses in the extended sub-grammar.
    let ext = render_ymd_extended(y, m, d);
    let ext1 = seq![45u8] + render_digits2(m) + seq![45u8] + render_digits2(d);
    assert(ext =~= render_year(y) + ext1);
    lemma_year_prefix(ext, y, ext1);
    let ext2 = render_digits2(m) + seq![45u8] + render_digits2(d);
    assert(ext1[0] == 45);
    assert(ext1.skip(1) =~= ext2);
    let ext3 = seq![45u8] + render_digits2(d);
    assert(ext2 =~= render_digits2(m) + ext3);
    lemma_two_digits_prefix(ext2, m, ext3);
    assert(ext3[0] == 45);
    assert(ext3.skip(1) =~= render_digits2(d));
    assert(render_digits2(d) =~= render_digits2(d) + Seq::<u8>::empty());
    lemma_two_digits_prefix(render_digits2(d), d, Seq::<u8>::empty());
    assert(spec_date_ymd_format(ext, true) == Ok::<(Seq<u8>, YmdDate), ParseErr>(
        (Seq::<u8>::empty(), value),
    ));

    // The basic writing fails the extended sub-grammar at the first
    // separator, then parses in the basic one.
    let basic = render_ymd_basic(y, m, d);
    let md = render_digits2(m) + render_digits2(d);
    assert(basic =~= render_year(y) + md);
    lemma_year_prefix(basic, y, md);
    assert(md[0] == render_digits2(m)[0]);
    assert(is_digit_byte(md[0]));
    assert(md[0] != 45);
    assert(spec_date_ymd_format(basic, true) == Err::<(Seq<u8>, YmdDate), ParseErr>(
        ParseErr::Error,
    ));
    assert(md.skip(2) =~= render_digits2(d));
    lemma_two_digits_prefix(md, m, render_digits2(d));
    lemma_two_digits_prefix(render_digits2(d), d, Seq::<u8>::empty());
    assert(spec_date_ymd_format(basic, false) == Ok::<(Seq<u8>, YmdDate), ParseErr>(
        (Seq::<u8>::empty(), value),
    ));
}

} // verus!
