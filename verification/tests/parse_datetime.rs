use iso_8601::date::{ApproxDate, YDate, YmDate, YmdDate};
use iso_8601::datetime::{DateTime, PartialDateTime};
use iso_8601::parse::datetime::{datetime_approx_any_approx, partial_datetime_approx_any_approx};
use iso_8601::time::{AnyTime, ApproxAnyTime, HTime, HmTime, HmsTime, LocalTime};

#[test]
fn partial_needs_more_input() {
    // Empty input is a valid prefix of something parseable: the
    // outcome is the needs-more-input signal, not a hard failure.
    assert_eq!(
        partial_datetime_approx_any_approx(b""),
        Err(iso_8601::parse::ParseErr::Incomplete)
    );
}

#[test]
fn partial_double_t_leaves_time_unread() {
    // After the date and one `T`, a second `T` forbids the time
    // sub-parse: the outcome is date-only with the rest unconsumed.
    assert_eq!(
        partial_datetime_approx_any_approx(b"2018-08-02TT22:01:39Z"),
        Ok((
            &b"T22:01:39Z"[..],
            PartialDateTime::Date(ApproxDate::YMD(YmdDate {
                year: 2018,
                month: 8,
                day: 2,
            }))
        ))
    );
}

#[test]
#[should_panic]
fn tt() {
    datetime_approx_any_approx(b"2018-08-02TT22:01:39Z").unwrap();
}

#[test]
fn partial_datetime_approx_any_approx_date_y() {
    assert_eq!(
        partial_datetime_approx_any_approx(b"2018"),
        Ok((
            &[][..],
            PartialDateTime::Date(ApproxDate::Y(YDate { year: 2018 }))
        ))
    );
}

#[test]
fn partial_datetime_approx_any_approx_date_ym_basic() {
    assert_eq!(
        partial_datetime_approx_any_approx(b"201808"),
        Ok((
            &[][..],
            PartialDateTime::Date(ApproxDate::YM(YmDate {
                year: 2018,
                month: 8,
            }))
        ))
    );
}

#[test]
fn partial_datetime_approx_any_approx_date_ym_extended() {
    assert_eq!(
        partial_datetime_approx_any_approx(b"2018-08"),
        Ok((
            &[][..],
            PartialDateTime::Date(ApproxDate::YM(YmDate {
                year: 2018,
                month: 8,
            }))
        ))
    );
}

#[test]
fn partial_datetime_approx_any_approx_date_ymd_basic() {
    assert_eq!(
        partial_datetime_approx_any_approx(b"20180802"),
        Ok((
            &[][..],
            PartialDateTime::Date(ApproxDate::YMD(YmdDate {
                year: 2018,
                month: 8,
                day: 2,
            }))
        ))
    );
}

#[test]
fn partial_datetime_approx_any_approx_date_ymd_extended() {
    assert_eq!(
        partial_datetime_approx_any_approx(b"2018-08-02"),
        Ok((
            &[][..],
            PartialDateTime::Date(ApproxDate::YMD(YmdDate {
                year: 2018,
                month: 8,
                day: 2,
            }))
        ))
    );
}

#[test]
fn partial_datetime_approx_any_approx_time_h() {
    assert_eq!(
        partial_datetime_approx_any_approx(b"T12"),
        Ok((
            &[][..],
            PartialDateTime::Time(ApproxAnyTime::H(AnyTime::Local(LocalTime {
                naive: HTime { hour: 12 },
                fraction: 0,
            })))
        ))
    );
}

#[test]
fn partial_datetime_approx_any_approx_time_hm_basic() {
    assert_eq!(
        partial_datetime_approx_any_approx(b"T1230"),
        Ok((
            &[][..],
            PartialDateTime::Time(ApproxAnyTime::HM(AnyTime::Local(LocalTime {
                naive: HmTime {
                    hour: 12,
                    minute: 30,
                },
                fraction: 0,
            })))
        ))
    );
}

#[test]
fn partial_datetime_approx_any_approx_time_hm_extended() {
    let result = PartialDateTime::Time(ApproxAnyTime::HM(AnyTime::Local(LocalTime {
        naive: HmTime {
            hour: 12,
            minute: 30,
        },
        fraction: 0,
    })));

    assert_eq!(
        partial_datetime_approx_any_approx(b"T12:30"),
        Ok((&[][..], result.clone()))
    );
    assert_eq!(
        partial_datetime_approx_any_approx(b"12:30"),
        Ok((&[][..], result))
    );
}

#[test]
fn partial_datetime_approx_any_approx_time_hms_basic() {
    assert_eq!(
        partial_datetime_approx_any_approx(b"T123015"),
        Ok((
            &[][..],
            PartialDateTime::Time(ApproxAnyTime::HMS(AnyTime::Local(LocalTime {
                naive: HmsTime {
                    hour: 12,
                    minute: 30,
                    second: 15,
                },
                fraction: 0,
            })))
        ))
    );
}

#[test]
fn partial_datetime_approx_any_approx_time_hms_extended() {
    let result = PartialDateTime::Time(ApproxAnyTime::HMS(AnyTime::Local(LocalTime {
        naive: HmsTime {
            hour: 12,
            minute: 30,
            second: 15,
        },
        fraction: 0,
    })));

    assert_eq!(
        partial_datetime_approx_any_approx(b"T12:30:15"),
        Ok((&[][..], result.clone()))
    );
    assert_eq!(
        partial_datetime_approx_any_approx(b"12:30:15"),
        Ok((&[][..], result))
    );
}

#[test]
fn partial_datetime_approx_any_approx_time_hmsf_basic() {
    assert_eq!(
        partial_datetime_approx_any_approx(b"T123015.2"),
        Ok((
            &[][..],
            PartialDateTime::Time(ApproxAnyTime::HMS(AnyTime::Local(LocalTime {
                naive: HmsTime {
                    hour: 12,
                    minute: 30,
                    second: 15,
                },
                fraction: 200_000_000,
            })))
        ))
    );
}

#[test]
fn partial_datetime_approx_any_approx_time_hmsf_extended() {
    let result = PartialDateTime::Time(ApproxAnyTime::HMS(AnyTime::Local(LocalTime {
        naive: HmsTime {
            hour: 12,
            minute: 30,
            second: 15,
        },
        fraction: 200_000_000,
    })));

    assert_eq!(
        partial_datetime_approx_any_approx(b"T12:30:15.2"),
        Ok((&[][..], result.clone()))
    );
    assert_eq!(
        partial_datetime_approx_any_approx(b"12:30:15.2"),
        Ok((&[][..], result))
    );
}

#[test]
fn partial_datetime_approx_any_approx_datetime_extended() {
    let result = PartialDateTime::DateTime(DateTime {
        date: ApproxDate::YMD(YmdDate {
            year: 2018,
            month: 8,
            day: 2,
        }),
        time: ApproxAnyTime::HMS(AnyTime::Local(LocalTime {
            naive: HmsTime {
                hour: 12,
                minute: 30,
                second: 15,
            },
            fraction: 200_000_000,
        })),
    });

    assert_eq!(
        partial_datetime_approx_any_approx(b"2018-08-02T12:30:15.2"),
        Ok((&[][..], result.clone()))
    );
    assert_eq!(
        partial_datetime_approx_any_approx(b"20180802T123015.2"),
        Ok((&[][..], result))
    );
}
