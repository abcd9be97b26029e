//! Parsing, validation and conversion of ISO 8601 calendar dates,
//! times of day and combined date-times.
//!
//! Input is a byte slice; every parser recognises a prefix of its input
//! and hands back the unconsumed remainder.  Parsing is purely
//! structural: a separate validity layer (the [`Valid`] trait) decides
//! whether a structurally well-formed value denotes a real date or
//! time.  Conversion functions move time values between the three
//! supported precisions (hour, hour-minute, hour-minute-second)
//! without loss.

use vstd::prelude::*;

pub mod date;
pub mod datetime;
pub mod parse;
pub mod time;

pub use date::{ApproxDate, CDate, Date, ODate, WDate, WdDate, YDate, YmDate, YmdDate};
pub use datetime::{DateTime, PartialDateTime};
pub use time::{
    AnyTime, ApproxAnyTime, ApproxGlobalTime, ApproxLocalTime, ApproxNaiveTime, GlobalTime, HTime,
    HmTime, HmsTime, LocalTime, NaiveTime, Timelike,
};

verus! {

/// The two failure kinds of the whole-string entry points: the input
/// does not match the grammar, or it parses but denotes an impossible
/// date or time.
#[derive(Debug, Copy, Clone, PartialEq, Eq)]
pub enum Error {
    InvalidFormat,
    InvalidDate,
}

impl Error {
    /// A human-readable description of the error.
    pub fn message(&self) -> (m: &'static str)
        ensures
            m@ == match self {
                Error::InvalidFormat => "Invalid ISO-8601 format"@,
                Error::InvalidDate => "Invalid date or time"@,
            },
    {
        match self {
            Error::InvalidFormat => "Invalid ISO-8601 format",
            Error::InvalidDate => "Invalid date or time",
        }
    }
}

/// Read a combined date-time of unknown precision from text, as a
/// deserializer for string-typed timestamp fields would: the value is
/// the parsed model, and any grammar mismatch is a format error.
/// Validity is left to the caller, and trailing input after the
/// recognised prefix is ignored.
#[allow(non_snake_case)]
pub fn deserialize_DateTime(i: &[u8]) -> (r: Result<
    datetime::DateTime<date::ApproxDate, time::ApproxAnyTime>,
    Error,
>)
    ensures
        match r {
            Ok(v) => parse::datetime::spec_datetime_approx_any_approx(
                i@,
            ) matches Ok((rest, v2)) && v2 == v,
            Err(Error::InvalidFormat) => parse::datetime::spec_datetime_approx_any_approx(
                i@,
            ) is Err,
            Err(Error::InvalidDate) => false,
        },
{
    match parse::datetime::datetime_approx_any_approx(i) {
        Ok((_, v)) => Ok(v),
        Err(_) => Err(Error::InvalidFormat),
    }
}

/// Calendrical/temporal validity: a structurally well-formed value may
/// still denote an impossible date or time.  `valid` is the
/// mathematical predicate; `is_valid` computes it.
pub trait Valid {
    spec fn valid(&self) -> bool;

    fn is_valid(&self) -> (r: bool)
        ensures
            r == self.valid(),
    ;
}

} // verus!
