//! Calendar dates at seven precisions: century, year, year-month,
//! year-month-day, year-week, year-week-weekday and year-ordinalday,
//! together with the Gregorian and ISO week-numbering rules that
//! decide whether a structurally well-formed date denotes a real day.
//!
//! The sign of a date is carried by the year (or century) field only;
//! every other field is non-negative.

use vstd::prelude::*;

use crate::Valid;

verus! {

/// A two-digit century, signed (`20` stands for the years 2000-2099).
#[derive(Eq, PartialEq, Clone, Copy, Debug)]
pub struct CDate {
    pub century: i8,
}

/// A four-digit year, signed.
#[derive(Eq, PartialEq, Clone, Copy, Debug)]
pub struct YDate {
    pub year: i16,
}

/// A year and a calendar month.
#[derive(Eq, PartialEq, Clone, Copy, Debug)]
pub struct YmDate {
    pub year: i16,
    pub month: u8,
}

/// A full Gregorian calendar date.
#[derive(Eq, PartialEq, Clone, Copy, Debug)]
pub struct YmdDate {
    pub year: i16,
    pub month: u8,
    pub day: u8,
}

/// An ISO week-numbering year and a week.
#[derive(Eq, PartialEq, Clone, Copy, Debug)]
pub struct WDate {
    pub year: i16,
    pub week: u8,
}

/// An ISO week date: week-numbering year, week and weekday
/// (1 = Monday .. 7 = Sunday).
#[derive(Eq, PartialEq, Clone, Copy, Debug)]
pub struct WdDate {
    pub year: i16,
    pub week: u8,
    pub day: u8,
}

/// An ordinal date: year and day of year (1-365, or 1-366 in leap
/// years).
#[derive(Eq, PartialEq, Clone, Copy, Debug)]
pub struct ODate {
    pub year: i16,
    pub day: u16,
}

/// A date in one of the three exact calendar systems.
#[derive(Eq, PartialEq, Clone, Copy, Debug)]
pub enum Date {
    YMD(YmdDate),
    WD(WdDate),
    O(ODate),
}

/// A date of any of the seven precisions, used where the caller
/// accepts input of unknown granularity.
#[derive(Eq, PartialEq, Clone, Copy, Debug)]
pub enum ApproxDate {
    YMD(YmdDate),
    WD(WdDate),
    O(ODate),
    YM(YmDate),
    Y(YDate),
    C(CDate),
    W(WDate),
}

impl Date {
    /// Erase the knowledge that this is an exact date.
    pub fn to_approx(self) -> (r: ApproxDate)
        ensures
            r == match self {
                Date::YMD(d) => ApproxDate::YMD(d),
                Date::WD(d) => ApproxDate::WD(d),
                Date::O(d) => ApproxDate::O(d),
            },
    {
        match self {
            Date::YMD(d) => ApproxDate::YMD(d),
            Date::WD(d) => ApproxDate::WD(d),
            Date::O(d) => ApproxDate::O(d),
        }
    }
}

/// The Gregorian leap-year rule: divisible by 4, and not by 100
/// unless also by 400.  The sign of the year does not matter.
pub open spec fn spec_is_leap_year(year: int) -> bool {
    let y = if year < 0 {
        -year
    } else {
        year
    };
    y % 4 == 0 && (y % 100 != 0 || y % 400 == 0)
}

/// The number of days in the year: 366 in leap years, 365 otherwise.
pub open spec fn spec_days_in_year(year: int) -> int {
    if spec_is_leap_year(year) {
        366
    } else {
        365
    }
}

/// The number of days in a month of a year, honouring leap years;
/// zero for a month outside 1-12.
pub open spec fn spec_days_in_month(year: int, month: int) -> int {
    if month == 1 || month == 3 || month == 5 || month == 7 || month == 8 || month == 10 || month
        == 12 {
        31
    } else if month == 4 || month == 6 || month == 9 || month == 11 {
        30
    } else if month == 2 {
        if spec_is_leap_year(year) {
            29
        } else {
            28
        }
    } else {
        0
    }
}

/// The ISO weekday (1 = Monday .. 7 = Sunday) of 1 January of the
/// year.  The weekday pattern of the proleptic Gregorian calendar
/// repeats every 400 years (146097 days, a multiple of 7), so the
/// year is first shifted by 32800 = 82 * 400 into the positive range
/// and the days before its 1 January are counted from 1 January of
/// year 1, a Monday.
pub open spec fn spec_weekday_jan1(year: int) -> int {
    let y = year + 32800;
    (365 * (y - 1) + (y - 1) / 4 - (y - 1) / 100 + (y - 1) / 400) % 7 + 1
}

/// The number of ISO weeks in a week-numbering year: 53 if its
/// 1 January is a Thursday, or a Wednesday in a leap year; 52
/// otherwise.
pub open spec fn spec_weeks_in_year(year: int) -> int {
    if spec_weekday_jan1(year) == 4 || (spec_is_leap_year(year) && spec_weekday_jan1(year) == 3) {
        53
    } else {
        52
    }
}

/// Whether the year is a Gregorian leap year.
pub fn is_leap_year(year: i16) -> (r: bool)
    ensures
        r == spec_is_leap_year(year as int),
{
    let y: i32 = if year < 0 {
        -(year as i32)
    } else {
        year as i32
    };
    y % 4 == 0 && (y % 100 != 0 || y % 400 == 0)
}

/// The number of days in the year.
pub fn days_in_year(year: i16) -> (r: u16)
    ensures
        r == spec_days_in_year(year as int),
{
    if is_leap_year(year) {
        366
    } else {
        365
    }
}

/// The number of days in a month of a year; zero for a month outside
/// 1-12.
pub fn days_in_month(year: i16, month: u8) -> (r: u8)
    ensures
        r == spec_days_in_month(year as int, month as int),
{
    match month {
        1 | 3 | 5 | 7 | 8 | 10 | 12 => 31,
        4 | 6 | 9 | 11 => 30,
        2 => if is_leap_year(year) {
            29
        } else {
            28
        },
        _ => 0,
    }
}

/// The ISO weekday (1 = Monday .. 7 = Sunday) of 1 January of the
/// year.
pub fn weekday_jan1(year: i16) -> (r: u8)
    ensures
        r == spec_weekday_jan1(year as int),
        1 <= r <= 7,
{
    let y: i32 = year as i32 + 32800;
    let days: i32 = 365 * (y - 1) + (y - 1) / 4 - (y - 1) / 100 + (y - 1) / 400;
    (days % 7) as u8 + 1
}

/// The number of ISO weeks in a week-numbering year (52 or 53).
pub fn weeks_in_year(year: i16) -> (r: u8)
    ensures
        r == spec_weeks_in_year(year as int),
{
    let jan1 = weekday_jan1(year);
    if jan1 == 4 || (is_leap_year(year) && jan1 == 3) {
        53
    } else {
        52
    }
}

impl Valid for CDate {
    open spec fn valid(&self) -> bool {
        true
    }

    /// Every two-digit century denotes a real range of years.
    fn is_valid(&self) -> bool {
        true
    }
}

impl Valid for YDate {
    open spec fn valid(&self) -> bool {
        true
    }

    /// Every four-digit year denotes a real year.
    fn is_valid(&self) -> bool {
        true
    }
}

impl Valid for YmDate {
    open spec fn valid(&self) -> bool {
        1 <= self.month <= 12
    }

    fn is_valid(&self) -> bool {
        1 <= self.month && self.month <= 12
    }
}

impl Valid for YmdDate {
    open spec fn valid(&self) -> bool {
        1 <= self.month <= 12 && 1 <= self.day <= spec_days_in_month(
            self.year as int,
            self.month as int,
        )
    }

    fn is_valid(&self) -> bool {
        1 <= self.month && self.month <= 12 && 1 <= self.day && self.day <= days_in_month(
            self.year,
            self.month,
        )
    }
}

impl Valid for WDate {
    open spec fn valid(&self) -> bool {
        1 <= self.week <= spec_weeks_in_year(self.year as int)
    }

    fn is_valid(&self) -> bool {
        1 <= self.week && self.week <= weeks_in_year(self.year)
    }
}

impl Valid for WdDate {
    open spec fn valid(&self) -> bool {
        1 <= self.week <= spec_weeks_in_year(self.year as int) && 1 <= self.day <= 7
    }

    fn is_valid(&self) -> bool {
        1 <= self.week && self.week <= weeks_in_year(self.year) && 1 <= self.day && self.day <= 7
    }
}

impl Valid for ODate {
    open spec fn valid(&self) -> bool {
        1 <= self.day <= spec_days_in_year(self.year as int)
    }

    fn is_valid(&self) -> bool {
        1 <= self.day && self.day <= days_in_year(self.year)
    }
}

impl Valid for Date {
    open spec fn valid(&self) -> bool {
        match self {
            Date::YMD(d) => d.valid(),
            Date::WD(d) => d.valid(),
            Date::O(d) => d.valid(),
        }
    }

    fn is_valid(&self) -> bool {
        match self {
            Date::YMD(d) => d.is_valid(),
            Date::WD(d) => d.is_valid(),
            Date::O(d) => d.is_valid(),
        }
    }
}

impl Valid for ApproxDate {
    open spec fn valid(&self) -> bool {
        match self {
            ApproxDate::YMD(d) => d.valid(),
            ApproxDate::WD(d) => d.valid(),
            ApproxDate::O(d) => d.valid(),
            ApproxDate::YM(d) => d.valid(),
            ApproxDate::Y(d) => d.valid(),
            ApproxDate::C(d) => d.valid(),
            ApproxDate::W(d) => d.valid(),
        }
    }

    fn is_valid(&self) -> bool {
        match self {
            ApproxDate::YMD(d) => d.is_valid(),
            ApproxDate::WD(d) => d.is_valid(),
            ApproxDate::O(d) => d.is_valid(),
            ApproxDate::YM(d) => d.is_valid(),
            ApproxDate::Y(d) => d.is_valid(),
            ApproxDate::C(d) => d.is_valid(),
            ApproxDate::W(d) => d.is_valid(),
        }
    }
}

} // verus!
