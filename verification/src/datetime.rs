//! Composition of a date and a time of day, and the "partial" result
//! of parsing input that may hold a date, a time, or both.

use vstd::prelude::*;

use crate::Valid;

verus! {

/// A date together with a time of day, generic over any date shape
/// and any time shape of the model.
#[derive(Eq, PartialEq, Clone, Copy, Debug)]
pub struct DateTime<D, T> {
    pub date: D,
    pub time: T,
}

/// The outcome of parsing input that may hold a date only, a time
/// only, or a combined date-time.
#[derive(Eq, PartialEq, Clone, Copy, Debug)]
pub enum PartialDateTime<D, T> {
    Date(D),
    Time(T),
    DateTime(DateTime<D, T>),
}

impl<D: Valid, T: Valid> Valid for DateTime<D, T> {
    open spec fn valid(&self) -> bool {
        self.date.valid() && self.time.valid()
    }

    fn is_valid(&self) -> bool {
        self.date.is_valid() && self.time.is_valid()
    }
}

impl<D: Valid, T: Valid> Valid for PartialDateTime<D, T> {
    open spec fn valid(&self) -> bool {
        match self {
            PartialDateTime::Date(d) => d.valid(),
            PartialDateTime::Time(t) => t.valid(),
            PartialDateTime::DateTime(dt) => dt.valid(),
        }
    }

    fn is_valid(&self) -> bool {
        match self {
            PartialDateTime::Date(d) => d.is_valid(),
            PartialDateTime::Time(t) => t.is_valid(),
            PartialDateTime::DateTime(dt) => dt.is_valid(),
        }
    }
}

} // verus!
