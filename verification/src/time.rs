//! Time-of-day values at three precisions (hour, hour-minute,
//! hour-minute-second), with or without a fractional remainder and a
//! UTC offset, and the lossless conversions between precisions.
//!
//! A fractional remainder is stored exactly, as nanoseconds of the
//! precision's smallest field: sub-second nanoseconds for
//! hour-minute-second, sub-minute nanoseconds for hour-minute and
//! sub-hour nanoseconds for hour-only values.  The valid range is
//! `0 ..` the field's nanosecond count, which corresponds to a
//! fraction in `[0, 1)`.

use vstd::prelude::*;

use vstd::string::StringSliceAdditionalSpecFns;

use crate::Valid;

verus! {

/// Nanoseconds in one second: the fraction denominator at
/// hour-minute-second precision.
pub const NANOS_PER_SECOND: u64 = 1_000_000_000;

/// Nanoseconds in one minute: the fraction denominator at hour-minute
/// precision.
pub const NANOS_PER_MINUTE: u64 = 60_000_000_000;

/// Nanoseconds in one hour: the fraction denominator at hour-only
/// precision.
pub const NANOS_PER_HOUR: u64 = 3_600_000_000_000;

/// A specific hour, minute and second.
#[derive(Eq, PartialEq, Clone, Copy, Debug)]
pub struct HmsTime {
    pub hour: u8,
    pub minute: u8,
    pub second: u8,
}

/// A specific hour and minute.
#[derive(Eq, PartialEq, Clone, Copy, Debug)]
pub struct HmTime {
    pub hour: u8,
    pub minute: u8,
}

/// A specific hour.
#[derive(Eq, PartialEq, Clone, Copy, Debug)]
pub struct HTime {
    pub hour: u8,
}

/// The three naive (offset-free, fraction-free) time shapes.  The
/// subunit is the smallest field's length in nanoseconds; it is the
/// denominator of the fractional remainder a [`LocalTime`] built over
/// the shape carries.
pub trait NaiveTime: Sized {
    spec fn subunit_nanos() -> u64;

    fn subunit() -> (s: u64)
        ensures
            s == Self::subunit_nanos(),
    ;
}

impl NaiveTime for HmsTime {
    open spec fn subunit_nanos() -> u64 {
        NANOS_PER_SECOND
    }

    fn subunit() -> u64 {
        NANOS_PER_SECOND
    }
}

impl NaiveTime for HmTime {
    open spec fn subunit_nanos() -> u64 {
        NANOS_PER_MINUTE
    }

    fn subunit() -> u64 {
        NANOS_PER_MINUTE
    }
}

impl NaiveTime for HTime {
    open spec fn subunit_nanos() -> u64 {
        NANOS_PER_HOUR
    }

    fn subunit() -> u64 {
        NANOS_PER_HOUR
    }
}

/// A naive time together with a fractional remainder of its smallest
/// field, stored as nanoseconds (see the module documentation).
#[derive(PartialEq, Clone, Copy, Debug)]
pub struct LocalTime<N = HmsTime>
where
    N: NaiveTime,
{
    pub naive: N,
    pub fraction: u64,
}

/// A local time together with a UTC offset.
#[derive(PartialEq, Clone, Copy, Debug)]
pub struct GlobalTime<N = HmsTime>
where
    N: NaiveTime,
{
    pub local: LocalTime<N>,
    /// Difference from UTC in minutes.
    pub timezone: i16,
}

/// A time that may or may not carry a UTC offset.
#[derive(PartialEq, Clone, Copy, Debug)]
pub enum AnyTime<N = HmsTime>
where
    N: NaiveTime,
{
    Global(GlobalTime<N>),
    Local(LocalTime<N>),
}

/// A naive time whose precision is only known at parse time.
#[derive(Eq, PartialEq, Clone, Copy, Debug)]
pub enum ApproxNaiveTime {
    HMS(HmsTime),
    HM(HmTime),
    H(HTime),
}

/// A local time whose precision is only known at parse time.
#[derive(PartialEq, Clone, Copy, Debug)]
pub enum ApproxLocalTime {
    HMS(LocalTime<HmsTime>),
    HM(LocalTime<HmTime>),
    H(LocalTime<HTime>),
}

/// A global time whose precision is only known at parse time.
#[derive(PartialEq, Clone, Copy, Debug)]
pub enum ApproxGlobalTime {
    HMS(GlobalTime<HmsTime>),
    HM(GlobalTime<HmTime>),
    H(GlobalTime<HTime>),
}

/// A time of unknown precision that may or may not carry an offset.
#[derive(PartialEq, Clone, Copy, Debug)]
pub enum ApproxAnyTime {
    HMS(AnyTime<HmsTime>),
    HM(AnyTime<HmTime>),
    H(AnyTime<HTime>),
}

/// Marker for every time-like shape of the model.
pub trait Timelike {}

impl<N: NaiveTime> Timelike for N {}

impl<N: NaiveTime> Timelike for LocalTime<N> {}

impl<N: NaiveTime> Timelike for GlobalTime<N> {}

impl<N: NaiveTime> Timelike for AnyTime<N> {}

impl Timelike for ApproxLocalTime {}

impl Timelike for ApproxGlobalTime {}

impl Timelike for ApproxAnyTime {}

/// The widening of an hour to hour-minute precision: the new minute
/// field is zero.
pub open spec fn spec_h_to_hm(t: HTime) -> HmTime {
    HmTime { hour: t.hour, minute: 0 }
}

/// The widening of an hour to hour-minute-second precision.
pub open spec fn spec_h_to_hms(t: HTime) -> HmsTime {
    HmsTime { hour: t.hour, minute: 0, second: 0 }
}

/// The widening of an hour-minute to hour-minute-second precision.
pub open spec fn spec_hm_to_hms(t: HmTime) -> HmsTime {
    HmsTime { hour: t.hour, minute: t.minute, second: 0 }
}

/// The narrowing of an hour-minute-second to hour-minute precision.
pub open spec fn spec_hms_to_hm(t: HmsTime) -> HmTime {
    HmTime { hour: t.hour, minute: t.minute }
}

/// The narrowing of an hour-minute-second to hour precision.
pub open spec fn spec_hms_to_h(t: HmsTime) -> HTime {
    HTime { hour: t.hour }
}

/// The narrowing of an hour-minute to hour precision.
pub open spec fn spec_hm_to_h(t: HmTime) -> HTime {
    HTime { hour: t.hour }
}

impl HTime {
    /// Widen to hour-minute precision; the new minute is zero.
    pub fn to_hm(self) -> (r: HmTime)
        ensures
            r == spec_h_to_hm(self),
    {
        HmTime { hour: self.hour, minute: 0 }
    }

    /// Widen to hour-minute-second precision; the new fields are zero.
    pub fn to_hms(self) -> (r: HmsTime)
        ensures
            r == spec_h_to_hms(self),
    {
        HmsTime { hour: self.hour, minute: 0, second: 0 }
    }
}

impl HmTime {
    /// Widen to hour-minute-second precision; the new second is zero.
    pub fn to_hms(self) -> (r: HmsTime)
        ensures
            r == spec_hm_to_hms(self),
    {
        HmsTime { hour: self.hour, minute: self.minute, second: 0 }
    }

    /// Narrow to hour precision, dropping the minute.
    pub fn to_h(self) -> (r: HTime)
        ensures
            r == spec_hm_to_h(self),
    {
        HTime { hour: self.hour }
    }
}

impl HmsTime {
    /// Narrow to hour-minute precision, dropping the second.
    pub fn to_hm(self) -> (r: HmTime)
        ensures
            r == spec_hms_to_hm(self),
    {
        HmTime { hour: self.hour, minute: self.minute }
    }

    /// Narrow to hour precision, dropping the minute and second.
    pub fn to_h(self) -> (r: HTime)
        ensures
            r == spec_hms_to_h(self),
    {
        HTime { hour: self.hour }
    }
}

impl Valid for HTime {
    open spec fn valid(&self) -> bool {
        self.hour <= 24
    }

    /// Hour 24 is accepted as an end-of-day boundary marker.
    fn is_valid(&self) -> bool {
        self.hour <= 24
    }
}

impl Valid for HmTime {
    open spec fn valid(&self) -> bool {
        self.hour <= 24 && self.minute <= 59
    }

    fn is_valid(&self) -> bool {
        self.to_h().is_valid() && self.minute <= 59
    }
}

impl Valid for HmsTime {
    open spec fn valid(&self) -> bool {
        self.hour <= 24 && self.minute <= 59 && self.second <= 60
    }

    /// Accepts leap seconds (second 60) on any day, since they are not
    /// predictable from the calendar alone.
    fn is_valid(&self) -> bool {
        self.to_hm().is_valid() && self.second <= 60
    }
}

impl<N: NaiveTime + Valid> Valid for LocalTime<N> {
    open spec fn valid(&self) -> bool {
        self.naive.valid() && self.fraction < N::subunit_nanos()
    }

    fn is_valid(&self) -> bool {
        self.naive.is_valid() && self.fraction < N::subunit()
    }
}

impl<N: NaiveTime + Valid> Valid for GlobalTime<N> {
    open spec fn valid(&self) -> bool {
        self.local.valid() && -1440 < self.timezone && self.timezone < 1440
    }

    fn is_valid(&self) -> bool {
        self.local.is_valid() && self.timezone > -24 * 60 && self.timezone < 24 * 60
    }
}

impl<N: NaiveTime + Valid> Valid for AnyTime<N> {
    open spec fn valid(&self) -> bool {
        match self {
            AnyTime::Global(time) => time.valid(),
            AnyTime::Local(time) => time.valid(),
        }
    }

    fn is_valid(&self) -> bool {
        match self {
            AnyTime::Global(time) => time.is_valid(),
            AnyTime::Local(time) => time.is_valid(),
        }
    }
}

impl Valid for ApproxLocalTime {
    open spec fn valid(&self) -> bool {
        match self {
            ApproxLocalTime::HMS(time) => time.valid(),
            ApproxLocalTime::HM(time) => time.valid(),
            ApproxLocalTime::H(time) => time.valid(),
        }
    }

    fn is_valid(&self) -> bool {
        match self {
            ApproxLocalTime::HMS(time) => time.is_valid(),
            ApproxLocalTime::HM(time) => time.is_valid(),
            ApproxLocalTime::H(time) => time.is_valid(),
        }
    }
}

impl Valid for ApproxGlobalTime {
    open spec fn valid(&self) -> bool {
        match self {
            ApproxGlobalTime::HMS(time) => time.valid(),
            ApproxGlobalTime::HM(time) => time.valid(),
            ApproxGlobalTime::H(time) => time.valid(),
        }
    }

    fn is_valid(&self) -> bool {
        match self {
            ApproxGlobalTime::HMS(time) => time.is_valid(),
            ApproxGlobalTime::HM(time) => time.is_valid(),
            ApproxGlobalTime::H(time) => time.is_valid(),
        }
    }
}

impl Valid for ApproxAnyTime {
    open spec fn valid(&self) -> bool {
        match self {
            ApproxAnyTime::HMS(time) => time.valid(),
            ApproxAnyTime::HM(time) => time.valid(),
            ApproxAnyTime::H(time) => time.valid(),
        }
    }

    fn is_valid(&self) -> bool {
        match self {
            ApproxAnyTime::HMS(time) => time.is_valid(),
            ApproxAnyTime::HM(time) => time.is_valid(),
            ApproxAnyTime::H(time) => time.is_valid(),
        }
    }
}

impl<N: NaiveTime> LocalTime<N> {
    /// The stored fraction lies below its denominator, i.e. it denotes
    /// a value in `[0, 1)` of the precision's smallest field.
    pub open spec fn frac_in_range(&self) -> bool {
        self.fraction < N::subunit_nanos()
    }
}

/// Narrowing second precision to minute precision folds the second
/// into the fractional remainder of the minute.
pub open spec fn spec_local_hms_to_hm(t: LocalTime<HmsTime>) -> LocalTime<HmTime> {
    LocalTime {
        naive: spec_hms_to_hm(t.naive),
        fraction: (t.naive.second * NANOS_PER_SECOND + t.fraction) as u64,
    }
}

/// Narrowing second precision to hour precision folds the minute and
/// the second into the fractional remainder of the hour.
pub open spec fn spec_local_hms_to_h(t: LocalTime<HmsTime>) -> LocalTime<HTime> {
    LocalTime {
        naive: spec_hms_to_h(t.naive),
        fraction: (t.naive.minute * NANOS_PER_MINUTE + t.naive.second * NANOS_PER_SECOND
            + t.fraction) as u64,
    }
}

/// Narrowing minute precision to hour precision folds the minute into
/// the fractional remainder of the hour.
pub open spec fn spec_local_hm_to_h(t: LocalTime<HmTime>) -> LocalTime<HTime> {
    LocalTime {
        naive: spec_hm_to_h(t.naive),
        fraction: (t.naive.minute * NANOS_PER_MINUTE + t.fraction) as u64,
    }
}

/// Widening minute precision to second precision distributes the
/// fractional remainder over a whole second count and a sub-second
/// remainder.
pub open spec fn spec_local_hm_to_hms(t: LocalTime<HmTime>) -> LocalTime<HmsTime> {
    LocalTime {
        naive: HmsTime {
            hour: t.naive.hour,
            minute: t.naive.minute,
            second: (t.fraction / NANOS_PER_SECOND) as u8,
        },
        fraction: t.fraction % NANOS_PER_SECOND,
    }
}

/// Widening hour precision to second precision distributes the
/// fractional remainder over whole minutes, whole seconds and a
/// sub-second remainder.
pub open spec fn spec_local_h_to_hms(t: LocalTime<HTime>) -> LocalTime<HmsTime> {
    LocalTime {
        naive: HmsTime {
            hour: t.naive.hour,
            minute: (t.fraction / NANOS_PER_MINUTE) as u8,
            second: ((t.fraction / NANOS_PER_SECOND) % 60) as u8,
        },
        fraction: t.fraction % NANOS_PER_SECOND,
    }
}

impl LocalTime<HmsTime> {
    /// The sub-second remainder in nanoseconds.
    pub fn nanosecond(&self) -> (r: u32)
        requires
            self.frac_in_range(),
        ensures
            r == self.fraction,
    {
        self.fraction as u32
    }

    /// Narrow to hour-minute precision; the second is folded into the
    /// fractional remainder, so no information is lost.
    pub fn to_hm(self) -> (r: LocalTime<HmTime>)
        requires
            self.frac_in_range(),
        ensures
            r == spec_local_hms_to_hm(self),
            self.valid() && self.naive.second <= 59 ==> r.valid(),
    {
        LocalTime {
            naive: self.naive.to_hm(),
            fraction: self.naive.second as u64 * NANOS_PER_SECOND + self.fraction,
        }
    }

    /// Narrow to hour precision; the minute and second are folded into
    /// the fractional remainder, so no information is lost.
    pub fn to_h(self) -> (r: LocalTime<HTime>)
        requires
            self.frac_in_range(),
        ensures
            r == spec_local_hms_to_h(self),
            self.valid() && self.naive.second <= 59 ==> r.valid(),
    {
        LocalTime {
            naive: self.naive.to_h(),
            fraction: self.naive.minute as u64 * NANOS_PER_MINUTE
                + self.naive.second as u64 * NANOS_PER_SECOND + self.fraction,
        }
    }
}

impl LocalTime<HmTime> {
    /// The whole seconds denoted by the fractional remainder.
    pub fn second(&self) -> (r: u8)
        requires
            self.frac_in_range(),
        ensures
            r == self.fraction / NANOS_PER_SECOND,
    {
        (self.fraction / NANOS_PER_SECOND) as u8
    }

    /// The sub-second remainder, in nanoseconds, left after the whole
    /// seconds of the fractional remainder.
    pub fn nanosecond(&self) -> (r: u32)
        requires
            self.frac_in_range(),
        ensures
            r == self.fraction % NANOS_PER_SECOND,
    {
        (self.fraction % NANOS_PER_SECOND) as u32
    }

    /// Widen to hour-minute-second precision: the fractional remainder
    /// is split into whole seconds and a sub-second remainder.
    pub fn to_hms(self) -> (r: LocalTime<HmsTime>)
        requires
            self.frac_in_range(),
        ensures
            r == spec_local_hm_to_hms(self),
            self.valid() ==> r.valid(),
    {
        LocalTime {
            naive: HmsTime {
                hour: self.naive.hour,
                minute: self.naive.minute,
                second: (self.fraction / NANOS_PER_SECOND) as u8,
            },
            fraction: self.fraction % NANOS_PER_SECOND,
        }
    }

    /// Narrow to hour precision; the minute is folded into the
    /// fractional remainder, so no information is lost.
    pub fn to_h(self) -> (r: LocalTime<HTime>)
        requires
            self.frac_in_range(),
        ensures
            r == spec_local_hm_to_h(self),
            self.valid() ==> r.valid(),
    {
        LocalTime {
            naive: self.naive.to_h(),
            fraction: self.naive.minute as u64 * NANOS_PER_MINUTE + self.fraction,
        }
    }
}

impl LocalTime<HTime> {
    /// The whole minutes denoted by the fractional remainder.
    pub fn minute(&self) -> (r: u8)
        requires
            self.frac_in_range(),
        ensures
            r == self.fraction / NANOS_PER_MINUTE,
    {
        (self.fraction / NANOS_PER_MINUTE) as u8
    }

    /// The whole seconds, within the current minute, denoted by the
    /// fractional remainder.
    pub fn second(&self) -> (r: u8)
        requires
            self.frac_in_range(),
        ensures
            r == (self.fraction / NANOS_PER_SECOND) % 60,
    {
        ((self.fraction / NANOS_PER_SECOND) % 60) as u8
    }

    /// The sub-second remainder, in nanoseconds, left after the whole
    /// minutes and seconds of the fractional remainder.
    pub fn nanosecond(&self) -> (r: u32)
        requires
            self.frac_in_range(),
        ensures
            r == self.fraction % NANOS_PER_SECOND,
    {
        (self.fraction % NANOS_PER_SECOND) as u32
    }

    /// Widen to hour-minute-second precision: the fractional remainder
    /// is split into whole minutes, whole seconds and a sub-second
    /// remainder.
    pub fn to_hms(self) -> (r: LocalTime<HmsTime>)
        requires
            self.frac_in_range(),
        ensures
            r == spec_local_h_to_hms(self),
            self.valid() ==> r.valid(),
    {
        LocalTime {
            naive: HmsTime {
                hour: self.naive.hour,
                minute: (self.fraction / NANOS_PER_MINUTE) as u8,
                second: ((self.fraction / NANOS_PER_SECOND) % 60) as u8,
            },
            fraction: self.fraction % NANOS_PER_SECOND,
        }
    }
}

impl GlobalTime<HmsTime> {
    /// Narrow the local part to hour-minute precision; the offset is
    /// unchanged.
    pub fn to_hm(self) -> (r: GlobalTime<HmTime>)
        requires
            self.local.frac_in_range(),
        ensures
            r.local == spec_local_hms_to_hm(self.local),
            r.timezone == self.timezone,
            self.valid() && self.local.naive.second <= 59 ==> r.valid(),
    {
        GlobalTime { local: self.local.to_hm(), timezone: self.timezone }
    }

    /// Narrow the local part to hour precision; the offset is
    /// unchanged.
    pub fn to_h(self) -> (r: GlobalTime<HTime>)
        requires
            self.local.frac_in_range(),
        ensures
            r.local == spec_local_hms_to_h(self.local),
            r.timezone == self.timezone,
            self.valid() && self.local.naive.second <= 59 ==> r.valid(),
    {
        GlobalTime { local: self.local.to_h(), timezone: self.timezone }
    }
}

impl GlobalTime<HmTime> {
    /// Widen the local part to hour-minute-second precision; the
    /// offset is unchanged.
    pub fn to_hms(self) -> (r: GlobalTime<HmsTime>)
        requires
            self.local.frac_in_range(),
        ensures
            r.local == spec_local_hm_to_hms(self.local),
            r.timezone == self.timezone,
            self.valid() ==> r.valid(),
    {
        GlobalTime { local: self.local.to_hms(), timezone: self.timezone }
    }

    /// Narrow the local part to hour precision; the offset is
    /// unchanged.
    pub fn to_h(self) -> (r: GlobalTime<HTime>)
        requires
            self.local.frac_in_range(),
        ensures
            r.local == spec_local_hm_to_h(self.local),
            r.timezone == self.timezone,
            self.valid() ==> r.valid(),
    {
        GlobalTime { local: self.local.to_h(), timezone: self.timezone }
    }
}

impl GlobalTime<HTime> {
    /// Widen the local part to hour-minute-second precision; the
    /// offset is unchanged.
    pub fn to_hms(self) -> (r: GlobalTime<HmsTime>)
        requires
            self.local.frac_in_range(),
        ensures
            r.local == spec_local_h_to_hms(self.local),
            r.timezone == self.timezone,
            self.valid() ==> r.valid(),
    {
        GlobalTime { local: self.local.to_hms(), timezone: self.timezone }
    }
}

impl AnyTime<HmsTime> {
    /// Narrow to hour-minute precision, keeping the offset if one is
    /// present.
    pub fn to_hm(self) -> (r: AnyTime<HmTime>)
        requires
            match self {
                AnyTime::Global(t) => t.local.frac_in_range(),
                AnyTime::Local(t) => t.frac_in_range(),
            },
        ensures
            match (self, r) {
                (AnyTime::Global(t), AnyTime::Global(u)) => u.local == spec_local_hms_to_hm(
                    t.local,
                ) && u.timezone == t.timezone,
                (AnyTime::Local(t), AnyTime::Local(u)) => u == spec_local_hms_to_hm(t),
                _ => false,
            },
            self.valid() && (match self {
                AnyTime::Global(t) => t.local.naive.second <= 59,
                AnyTime::Local(t) => t.naive.second <= 59,
            }) ==> r.valid(),
    {
        match self {
            AnyTime::Global(t) => AnyTime::Global(t.to_hm()),
            AnyTime::Local(t) => AnyTime::Local(t.to_hm()),
        }
    }

    /// Narrow to hour precision, keeping the offset if one is present.
    pub fn to_h(self) -> (r: AnyTime<HTime>)
        requires
            match self {
                AnyTime::Global(t) => t.local.frac_in_range(),
                AnyTime::Local(t) => t.frac_in_range(),
            },
        ensures
            match (self, r) {
                (AnyTime::Global(t), AnyTime::Global(u)) => u.local == spec_local_hms_to_h(t.local)
                    && u.timezone == t.timezone,
                (AnyTime::Local(t), AnyTime::Local(u)) => u == spec_local_hms_to_h(t),
                _ => false,
            },
            self.valid() && (match self {
                AnyTime::Global(t) => t.local.naive.second <= 59,
                AnyTime::Local(t) => t.naive.second <= 59,
            }) ==> r.valid(),
    {
        match self {
            AnyTime::Global(t) => AnyTime::Global(t.to_h()),
            AnyTime::Local(t) => AnyTime::Local(t.to_h()),
        }
    }
}

impl AnyTime<HmTime> {
    /// Narrow to hour precision, keeping the offset if one is present.
    pub fn to_h(self) -> (r: AnyTime<HTime>)
        requires
            match self {
                AnyTime::Global(t) => t.local.frac_in_range(),
                AnyTime::Local(t) => t.frac_in_range(),
            },
        ensures
            match (self, r) {
                (AnyTime::Global(t), AnyTime::Global(u)) => u.local == spec_local_hm_to_h(t.local)
                    && u.timezone == t.timezone,
                (AnyTime::Local(t), AnyTime::Local(u)) => u == spec_local_hm_to_h(t),
                _ => false,
            },
            self.valid() ==> r.valid(),
    {
        match self {
            AnyTime::Global(t) => AnyTime::Global(t.to_h()),
            AnyTime::Local(t) => AnyTime::Local(t.to_h()),
        }
    }
}

impl ApproxNaiveTime {
    /// The most precise concrete representative: widen whatever
    /// precision was parsed to hour-minute-second.
    pub fn to_hms(self) -> (r: HmsTime)
        ensures
            r == match self {
                ApproxNaiveTime::HMS(t) => t,
                ApproxNaiveTime::HM(t) => spec_hm_to_hms(t),
                ApproxNaiveTime::H(t) => spec_h_to_hms(t),
            },
    {
        match self {
            ApproxNaiveTime::HMS(t) => t,
            ApproxNaiveTime::HM(t) => t.to_hms(),
            ApproxNaiveTime::H(t) => t.to_hms(),
        }
    }
}

impl ApproxLocalTime {
    /// The stored fraction of every variant lies below its
    /// denominator.
    pub open spec fn frac_in_range(&self) -> bool {
        match self {
            ApproxLocalTime::HMS(t) => t.frac_in_range(),
            ApproxLocalTime::HM(t) => t.frac_in_range(),
            ApproxLocalTime::H(t) => t.frac_in_range(),
        }
    }

    /// The most precise concrete representative: widen whatever
    /// precision was parsed to hour-minute-second.
    pub fn to_hms(self) -> (r: LocalTime<HmsTime>)
        requires
            self.frac_in_range(),
        ensures
            r == match self {
                ApproxLocalTime::HMS(t) => t,
                ApproxLocalTime::HM(t) => spec_local_hm_to_hms(t),
                ApproxLocalTime::H(t) => spec_local_h_to_hms(t),
            },
            self.valid() ==> r.valid(),
    {
        match self {
            ApproxLocalTime::HMS(t) => t,
            ApproxLocalTime::HM(t) => t.to_hms(),
            ApproxLocalTime::H(t) => t.to_hms(),
        }
    }
}

impl ApproxGlobalTime {
    /// The stored fraction of every variant lies below its
    /// denominator.
    pub open spec fn frac_in_range(&self) -> bool {
        match self {
            ApproxGlobalTime::HMS(t) => t.local.frac_in_range(),
            ApproxGlobalTime::HM(t) => t.local.frac_in_range(),
            ApproxGlobalTime::H(t) => t.local.frac_in_range(),
        }
    }

    /// The most precise concrete representative: widen whatever
    /// precision was parsed to hour-minute-second.
    pub fn to_hms(self) -> (r: GlobalTime<HmsTime>)
        requires
            self.frac_in_range(),
        ensures
            r.local == match self {
                ApproxGlobalTime::HMS(t) => t.local,
                ApproxGlobalTime::HM(t) => spec_local_hm_to_hms(t.local),
                ApproxGlobalTime::H(t) => spec_local_h_to_hms(t.local),
            },
            r.timezone == match self {
                ApproxGlobalTime::HMS(t) => t.timezone,
                ApproxGlobalTime::HM(t) => t.timezone,
                ApproxGlobalTime::H(t) => t.timezone,
            },
            self.valid() ==> r.valid(),
    {
        match self {
            ApproxGlobalTime::HMS(t) => t,
            ApproxGlobalTime::HM(t) => t.to_hms(),
            ApproxGlobalTime::H(t) => t.to_hms(),
        }
    }
}

/// Narrow-then-widen round trip: a second-precision local time with a
/// zero fraction is reproduced exactly by narrowing to hour-minute
/// precision and widening back; the fold of the second into the
/// minute's fractional remainder loses nothing.
pub proof fn lemma_narrow_widen_round_trip(t: LocalTime<HmsTime>)
    requires
        t.fraction == 0,
    ensures
        spec_local_hm_to_hms(spec_local_hms_to_hm(t)) == t,
{
    let narrowed = spec_local_hms_to_hm(t);
    assert(narrowed.fraction == t.naive.second * NANOS_PER_SECOND);
    vstd::arithmetic::div_mod::lemma_fundamental_div_mod_converse(
        narrowed.fraction as int,
        NANOS_PER_SECOND as int,
        t.naive.second as int,
        0,
    );
}


impl GlobalTime<HmsTime> {
    /// Read an offset-bearing time at second precision from text: a grammar mismatch is a format error,
    /// and a structurally well-formed value that denotes no real time
    /// is a semantic error.  Trailing input after the recognised
    /// prefix is ignored.
    pub fn from_text(s: &str) -> (r: Result<Self, crate::Error>)
        ensures
            match r {
                Ok(v) => (crate::parse::time::spec_time_global_hms(
                    s.spec_bytes(),
                ) matches Ok((rest, v2)) && v2 == v) && v.valid(),
                Err(crate::Error::InvalidFormat) => crate::parse::time::spec_time_global_hms(
                    s.spec_bytes(),
                ) is Err,
                Err(crate::Error::InvalidDate) => crate::parse::time::spec_time_global_hms(
                    s.spec_bytes(),
                ) matches Ok((rest, v2)) && !v2.valid(),
            },
    {
        let v = match crate::parse::time::time_global_hms(s.as_bytes()) {
            Ok((_, v)) => v,
            Err(_) => {
                return Err(crate::Error::InvalidFormat);
            },
        };
        if v.is_valid() {
            Ok(v)
        } else {
            Err(crate::Error::InvalidDate)
        }
    }
}

impl GlobalTime<HmTime> {
    /// Read an offset-bearing time at minute precision from text: a grammar mismatch is a format error,
    /// and a structurally well-formed value that denotes no real time
    /// is a semantic error.  Trailing input after the recognised
    /// prefix is ignored.
    pub fn from_text(s: &str) -> (r: Result<Self, crate::Error>)
        ensures
            match r {
                Ok(v) => (crate::parse::time::spec_time_global_hm(
                    s.spec_bytes(),
                ) matches Ok((rest, v2)) && v2 == v) && v.valid(),
                Err(crate::Error::InvalidFormat) => crate::parse::time::spec_time_global_hm(
                    s.spec_bytes(),
                ) is Err,
                Err(crate::Error::InvalidDate) => crate::parse::time::spec_time_global_hm(
                    s.spec_bytes(),
                ) matches Ok((rest, v2)) && !v2.valid(),
            },
    {
        let v = match crate::parse::time::time_global_hm(s.as_bytes()) {
            Ok((_, v)) => v,
            Err(_) => {
                return Err(crate::Error::InvalidFormat);
            },
        };
        if v.is_valid() {
            Ok(v)
        } else {
            Err(crate::Error::InvalidDate)
        }
    }
}

impl GlobalTime<HTime> {
    /// Read an offset-bearing time at hour precision from text: a grammar mismatch is a format error,
    /// and a structurally well-formed value that denotes no real time
    /// is a semantic error.  Trailing input after the recognised
    /// prefix is ignored.
    pub fn from_text(s: &str) -> (r: Result<Self, crate::Error>)
        ensures
            match r {
                Ok(v) => (crate::parse::time::spec_time_global_h(
                    s.spec_bytes(),
                ) matches Ok((rest, v2)) && v2 == v) && v.valid(),
                Err(crate::Error::InvalidFormat) => crate::parse::time::spec_time_global_h(
                    s.spec_bytes(),
                ) is Err,
                Err(crate::Error::InvalidDate) => crate::parse::time::spec_time_global_h(
                    s.spec_bytes(),
                ) matches Ok((rest, v2)) && !v2.valid(),
            },
    {
        let v = match crate::parse::time::time_global_h(s.as_bytes()) {
            Ok((_, v)) => v,
            Err(_) => {
                return Err(crate::Error::InvalidFormat);
            },
        };
        if v.is_valid() {
            Ok(v)
        } else {
            Err(crate::Error::InvalidDate)
        }
    }
}

impl LocalTime<HmsTime> {
    /// Read a local time at second precision from text: a grammar mismatch is a format error,
    /// and a structurally well-formed value that denotes no real time
    /// is a semantic error.  Trailing input after the recognised
    /// prefix is ignored.
    pub fn from_text(s: &str) -> (r: Result<Self, crate::Error>)
        ensures
            match r {
                Ok(v) => (crate::parse::time::spec_time_local_hms(
                    s.spec_bytes(),
                ) matches Ok((rest, v2)) && v2 == v) && v.valid(),
                Err(crate::Error::InvalidFormat) => crate::parse::time::spec_time_local_hms(
                    s.spec_bytes(),
                ) is Err,
                Err(crate::Error::InvalidDate) => crate::parse::time::spec_time_local_hms(
                    s.spec_bytes(),
                ) matches Ok((rest, v2)) && !v2.valid(),
            },
    {
        let v = match crate::parse::time::time_local_hms(s.as_bytes()) {
            Ok((_, v)) => v,
            Err(_) => {
                return Err(crate::Error::InvalidFormat);
            },
        };
        if v.is_valid() {
            Ok(v)
        } else {
            Err(crate::Error::InvalidDate)
        }
    }
}

impl LocalTime<HmTime> {
    /// Read a local time at minute precision from text: a grammar mismatch is a format error,
    /// and a structurally well-formed value that denotes no real time
    /// is a semantic error.  Trailing input after the recognised
    /// prefix is ignored.
    pub fn from_text(s: &str) -> (r: Result<Self, crate::Error>)
        ensures
            match r {
                Ok(v) => (crate::parse::time::spec_time_local_hm(
                    s.spec_bytes(),
                ) matches Ok((rest, v2)) && v2 == v) && v.valid(),
                Err(crate::Error::InvalidFormat) => crate::parse::time::spec_time_local_hm(
                    s.spec_bytes(),
                ) is Err,
                Err(crate::Error::InvalidDate) => crate::parse::time::spec_time_local_hm(
                    s.spec_bytes(),
                ) matches Ok((rest, v2)) && !v2.valid(),
            },
    {
        let v = match crate::parse::time::time_local_hm(s.as_bytes()) {
            Ok((_, v)) => v,
            Err(_) => {
                return Err(crate::Error::InvalidFormat);
            },
        };
        if v.is_valid() {
            Ok(v)
        } else {
            Err(crate::Error::InvalidDate)
        }
    }
}

impl LocalTime<HTime> {
    /// Read a local time at hour precision from text: a grammar mismatch is a format error,
    /// and a structurally well-formed value that denotes no real time
    /// is a semantic error.  Trailing input after the recognised
    /// prefix is ignored.
    pub fn from_text(s: &str) -> (r: Result<Self, crate::Error>)
        ensures
            match r {
                Ok(v) => (crate::parse::time::spec_time_local_h(
                    s.spec_bytes(),
                ) matches Ok((rest, v2)) && v2 == v) && v.valid(),
                Err(crate::Error::InvalidFormat) => crate::parse::time::spec_time_local_h(
                    s.spec_bytes(),
                ) is Err,
                Err(crate::Error::InvalidDate) => crate::parse::time::spec_time_local_h(
                    s.spec_bytes(),
                ) matches Ok((rest, v2)) && !v2.valid(),
            },
    {
        let v = match crate::parse::time::time_local_h(s.as_bytes()) {
            Ok((_, v)) => v,
            Err(_) => {
                return Err(crate::Error::InvalidFormat);
            },
        };
        if v.is_valid() {
            Ok(v)
        } else {
            Err(crate::Error::InvalidDate)
        }
    }
}

impl AnyTime<HmsTime> {
    /// Read a time at second precision with or without an offset from text: a grammar mismatch is a format error,
    /// and a structurally well-formed value that denotes no real time
    /// is a semantic error.  Trailing input after the recognised
    /// prefix is ignored.
    pub fn from_text(s: &str) -> (r: Result<Self, crate::Error>)
        ensures
            match r {
                Ok(v) => (crate::parse::time::spec_time_any_hms(
                    s.spec_bytes(),
                ) matches Ok((rest, v2)) && v2 == v) && v.valid(),
                Err(crate::Error::InvalidFormat) => crate::parse::time::spec_time_any_hms(
                    s.spec_bytes(),
                ) is Err,
                Err(crate::Error::InvalidDate) => crate::parse::time::spec_time_any_hms(
                    s.spec_bytes(),
                ) matches Ok((rest, v2)) && !v2.valid(),
            },
    {
        let v = match crate::parse::time::time_any_hms(s.as_bytes()) {
            Ok((_, v)) => v,
            Err(_) => {
                return Err(crate::Error::InvalidFormat);
            },
        };
        if v.is_valid() {
            Ok(v)
        } else {
            Err(crate::Error::InvalidDate)
        }
    }
}

impl AnyTime<HmTime> {
    /// Read a time at minute precision with or without an offset from text: a grammar mismatch is a format error,
    /// and a structurally well-formed value that denotes no real time
    /// is a semantic error.  Trailing input after the recognised
    /// prefix is ignored.
    pub fn from_text(s: &str) -> (r: Result<Self, crate::Error>)
        ensures
            match r {
                Ok(v) => (crate::parse::time::spec_time_any_hm(
                    s.spec_bytes(),
                ) matches Ok((rest, v2)) && v2 == v) && v.valid(),
                Err(crate::Error::InvalidFormat) => crate::parse::time::spec_time_any_hm(
                    s.spec_bytes(),
                ) is Err,
                Err(crate::Error::InvalidDate) => crate::parse::time::spec_time_any_hm(
                    s.spec_bytes(),
                ) matches Ok((rest, v2)) && !v2.valid(),
            },
    {
        let v = match crate::parse::time::time_any_hm(s.as_bytes()) {
            Ok((_, v)) => v,
            Err(_) => {
                return Err(crate::Error::InvalidFormat);
            },
        };
        if v.is_valid() {
            Ok(v)
        } else {
            Err(crate::Error::InvalidDate)
        }
    }
}

impl AnyTime<HTime> {
    /// Read a time at hour precision with or without an offset from text: a grammar mismatch is a format error,
    /// and a structurally well-formed value that denotes no real time
    /// is a semantic error.  Trailing input after the recognised
    /// prefix is ignored.
    pub fn from_text(s: &str) -> (r: Result<Self, crate::Error>)
        ensures
            match r {
                Ok(v) => (crate::parse::time::spec_time_any_h(
                    s.spec_bytes(),
                ) matches Ok((rest, v2)) && v2 == v) && v.valid(),
                Err(crate::Error::InvalidFormat) => crate::parse::time::spec_time_any_h(
                    s.spec_bytes(),
                ) is Err,
                Err(crate::Error::InvalidDate) => crate::parse::time::spec_time_any_h(
                    s.spec_bytes(),
                ) matches Ok((rest, v2)) && !v2.valid(),
            },
    {
        let v = match crate::parse::time::time_any_h(s.as_bytes()) {
            Ok((_, v)) => v,
            Err(_) => {
                return Err(crate::Error::InvalidFormat);
            },
        };
        if v.is_valid() {
            Ok(v)
        } else {
            Err(crate::Error::InvalidDate)
        }
    }
}

impl ApproxGlobalTime {
    /// Read an offset-bearing time of unknown precision from text: a grammar mismatch is a format error,
    /// and a structurally well-formed value that denotes no real time
    /// is a semantic error.  Trailing input after the recognised
    /// prefix is ignored.
    pub fn from_text(s: &str) -> (r: Result<Self, crate::Error>)
        ensures
            match r {
                Ok(v) => (crate::parse::time::spec_time_global_approx(
                    s.spec_bytes(),
                ) matches Ok((rest, v2)) && v2 == v) && v.valid(),
                Err(crate::Error::InvalidFormat) => crate::parse::time::spec_time_global_approx(
                    s.spec_bytes(),
                ) is Err,
                Err(crate::Error::InvalidDate) => crate::parse::time::spec_time_global_approx(
                    s.spec_bytes(),
                ) matches Ok((rest, v2)) && !v2.valid(),
            },
    {
        let v = match crate::parse::time::time_global_approx(s.as_bytes()) {
            Ok((_, v)) => v,
            Err(_) => {
                return Err(crate::Error::InvalidFormat);
            },
        };
        if v.is_valid() {
            Ok(v)
        } else {
            Err(crate::Error::InvalidDate)
        }
    }
}

impl ApproxLocalTime {
    /// Read a local time of unknown precision from text: a grammar mismatch is a format error,
    /// and a structurally well-formed value that denotes no real time
    /// is a semantic error.  Trailing input after the recognised
    /// prefix is ignored.
    pub fn from_text(s: &str) -> (r: Result<Self, crate::Error>)
        ensures
            match r {
                Ok(v) => (crate::parse::time::spec_time_local_approx(
                    s.spec_bytes(),
                ) matches Ok((rest, v2)) && v2 == v) && v.valid(),
                Err(crate::Error::InvalidFormat) => crate::parse::time::spec_time_local_approx(
                    s.spec_bytes(),
                ) is Err,
                Err(crate::Error::InvalidDate) => crate::parse::time::spec_time_local_approx(
                    s.spec_bytes(),
                ) matches Ok((rest, v2)) && !v2.valid(),
            },
    {
        let v = match crate::parse::time::time_local_approx(s.as_bytes()) {
            Ok((_, v)) => v,
            Err(_) => {
                return Err(crate::Error::InvalidFormat);
            },
        };
        if v.is_valid() {
            Ok(v)
        } else {
            Err(crate::Error::InvalidDate)
        }
    }
}

impl ApproxAnyTime {
    /// Read a time of unknown precision with or without an offset from text: a grammar mismatch is a format error,
    /// and a structurally well-formed value that denotes no real time
    /// is a semantic error.  Trailing input after the recognised
    /// prefix is ignored.
    pub fn from_text(s: &str) -> (r: Result<Self, crate::Error>)
        ensures
            match r {
                Ok(v) => (crate::parse::time::spec_time_any_approx(
                    s.spec_bytes(),
                ) matches Ok((rest, v2)) && v2 == v) && v.valid(),
                Err(crate::Error::InvalidFormat) => crate::parse::time::spec_time_any_approx(
                    s.spec_bytes(),
                ) is Err,
                Err(crate::Error::InvalidDate) => crate::parse::time::spec_time_any_approx(
                    s.spec_bytes(),
                ) matches Ok((rest, v2)) && !v2.valid(),
            },
    {
        let v = match crate::parse::time::time_any_approx(s.as_bytes()) {
            Ok((_, v)) => v,
            Err(_) => {
                return Err(crate::Error::InvalidFormat);
            },
        };
        if v.is_valid() {
            Ok(v)
        } else {
            Err(crate::Error::InvalidDate)
        }
    }
}

} // verus!

