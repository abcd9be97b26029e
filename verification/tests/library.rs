use iso_8601::date::{days_in_month, is_leap_year, weekday_jan1, weeks_in_year, YmdDate};
use iso_8601::datetime::DateTime;
use iso_8601::deserialize_DateTime;
use iso_8601::parse::date::{date_ymd, year};
use iso_8601::parse::time::{time_global_approx, timezone};
use iso_8601::parse::datetime::datetime_approx_any_approx;
use iso_8601::parse::{buf_to_int, ParseErr};
use iso_8601::time::{
    AnyTime, ApproxAnyTime, ApproxGlobalTime, ApproxLocalTime, GlobalTime, HTime, HmTime, HmsTime,
    LocalTime,
};
use iso_8601::date::{ApproxDate, ODate};
use iso_8601::parse::date::date_o;
use iso_8601::{Error, Valid};

#[test]
fn incomplete_versus_error() {
    // An input that ends where more bytes could still complete a
    // match is incomplete; a mismatch is a plain format error.
    assert_eq!(year(b""), Err(ParseErr::Incomplete));
    assert_eq!(year(b"20"), Err(ParseErr::Error));
    assert_eq!(timezone(b""), Err(ParseErr::Incomplete));
    assert_eq!(timezone(b"*"), Err(ParseErr::Error));
    assert_eq!(time_global_approx(b"16:22"), Err(ParseErr::Incomplete));
}

#[test]
fn sign() {
    assert_eq!(iso_8601::parse::sign(b"-"), Ok((&[][..], -1)));
    assert_eq!(iso_8601::parse::sign(b"+"), Ok((&[][..], 1)));
    assert_eq!(iso_8601::parse::sign(b""), Err(ParseErr::Incomplete));
    assert_eq!(iso_8601::parse::sign(b" "), Err(ParseErr::Error));
}

#[test]
fn sign_unicode_minus() {
    assert_eq!(iso_8601::parse::sign("\u{2212}1".as_bytes()), Ok((&b"1"[..], -1)));
    assert_eq!(iso_8601::parse::sign("\u{2010}1".as_bytes()), Ok((&b"1"[..], -1)));
}

#[test]
fn buf_to_int_folds_digits() {
    assert_eq!(buf_to_int(b"0"), 0);
    assert_eq!(buf_to_int(b"2018"), 2018);
    assert_eq!(buf_to_int(b"999999999"), 999_999_999);
}

#[test]
fn ymd_forms_agree_and_are_valid() {
    // Both writings of one real date give the identical valid value.
    let basic = date_ymd(b"19991231").unwrap().1;
    let extended = date_ymd(b"1999-12-31").unwrap().1;
    assert_eq!(basic, extended);
    assert!(basic.is_valid());

    let basic = date_ymd(b"-03330611").unwrap().1;
    let extended = date_ymd(b"-0333-06-11").unwrap().1;
    assert_eq!(basic, extended);
    assert_eq!(
        basic,
        YmdDate {
            year: -333,
            month: 6,
            day: 11
        }
    );
    assert!(basic.is_valid());
}

#[test]
fn calendar_rules() {
    assert!(is_leap_year(2016));
    assert!(!is_leap_year(1900));
    assert!(is_leap_year(2000));
    assert!(!is_leap_year(2022));

    assert_eq!(days_in_month(2016, 2), 29);
    assert_eq!(days_in_month(2015, 2), 28);
    assert_eq!(days_in_month(2015, 4), 30);
    assert_eq!(days_in_month(2015, 7), 31);
    assert_eq!(days_in_month(2015, 13), 0);

    // 1 January 2018 was a Monday, 1 January 2015 a Thursday and
    // 1 January 2020 a Wednesday.
    assert_eq!(weekday_jan1(2018), 1);
    assert_eq!(weekday_jan1(2015), 4);
    assert_eq!(weekday_jan1(2020), 3);

    assert_eq!(weeks_in_year(2015), 53);
    assert_eq!(weeks_in_year(2020), 53);
    assert_eq!(weeks_in_year(2018), 52);
    assert_eq!(weeks_in_year(2022), 52);
}

#[test]
fn narrow_widen_round_trip() {
    // With a zero fraction, narrowing to minute precision and
    // widening back reproduces the value exactly.
    let t = LocalTime {
        naive: HmsTime {
            hour: 12,
            minute: 30,
            second: 45,
        },
        fraction: 0,
    };
    let narrowed: LocalTime<HmTime> = t.to_hm();
    assert_eq!(narrowed.naive, HmTime { hour: 12, minute: 30 });
    assert_eq!(narrowed.fraction, 45_000_000_000);
    let widened: LocalTime<HmsTime> = narrowed.to_hms();
    assert_eq!(widened, t);

    // A zero-second value round-trips to a second of zero.
    let t = LocalTime {
        naive: HmsTime {
            hour: 7,
            minute: 3,
            second: 0,
        },
        fraction: 0,
    };
    let widened: LocalTime<HmsTime> = t.to_hm().to_hms();
    assert_eq!(widened.naive.second, 0);
    assert_eq!(widened, t);
}

#[test]
fn narrow_widen_with_fraction() {
    // 12:30:45.2 at minute precision is 12:30 plus 45.2 seconds of a
    // minute; widening recovers the second and the sub-second rest.
    let t = LocalTime {
        naive: HmsTime {
            hour: 12,
            minute: 30,
            second: 45,
        },
        fraction: 200_000_000,
    };
    let narrowed: LocalTime<HmTime> = t.to_hm();
    assert_eq!(narrowed.fraction, 45_200_000_000);
    assert_eq!(narrowed.second(), 45);
    assert_eq!(narrowed.nanosecond(), 200_000_000);
    let widened: LocalTime<HmsTime> = narrowed.to_hms();
    assert_eq!(widened, t);
}

#[test]
fn hour_fraction_accessors() {
    // Hour 16 with 0.1 of an hour left over: 6 minutes even.
    let t = LocalTime {
        naive: HTime { hour: 16 },
        fraction: 360_000_000_000,
    };
    assert_eq!(t.minute(), 6);
    assert_eq!(t.second(), 0);
    assert_eq!(t.nanosecond(), 0);
    let widened: LocalTime<HmsTime> = t.to_hms();
    assert_eq!(
        widened.naive,
        HmsTime {
            hour: 16,
            minute: 6,
            second: 0
        }
    );
    assert_eq!(widened.fraction, 0);
}

#[test]
fn global_and_any_conversions_keep_offset() {
    let g = GlobalTime {
        local: LocalTime {
            naive: HmsTime {
                hour: 1,
                minute: 2,
                second: 3,
            },
            fraction: 0,
        },
        timezone: -60,
    };
    let gh: GlobalTime<HTime> = g.to_h();
    assert_eq!(gh.timezone, -60);
    assert_eq!(gh.local.fraction, 2 * 60_000_000_000 + 3 * 1_000_000_000);

    let a: AnyTime<HmTime> = AnyTime::Global(g.to_hm());
    let ah: AnyTime<HTime> = a.to_h();
    match ah {
        AnyTime::Global(gg) => assert_eq!(gg.timezone, -60),
        AnyTime::Local(_) => panic!(),
    }
}

#[test]
fn approx_to_hms_widens() {
    let l = ApproxLocalTime::HM(LocalTime {
        naive: HmTime {
            hour: 9,
            minute: 15,
        },
        fraction: 30_000_000_000,
    });
    assert_eq!(
        l.to_hms(),
        LocalTime {
            naive: HmsTime {
                hour: 9,
                minute: 15,
                second: 30
            },
            fraction: 0
        }
    );

    let g = ApproxGlobalTime::H(GlobalTime {
        local: LocalTime {
            naive: HTime { hour: 5 },
            fraction: 0,
        },
        timezone: 120,
    });
    let widened = g.to_hms();
    assert_eq!(widened.timezone, 120);
    assert_eq!(
        widened.local.naive,
        HmsTime {
            hour: 5,
            minute: 0,
            second: 0
        }
    );
}

#[test]
fn from_text_two_stage_errors() {
    // A grammar mismatch is a format error; a well-formed but
    // impossible time is a semantic error.
    assert!(matches!(
        LocalTime::<HmsTime>::from_text("not a time"),
        Err(Error::InvalidFormat)
    ));
    assert!(matches!(
        LocalTime::<HmsTime>::from_text("25:61:00"),
        Err(Error::InvalidDate)
    ));
    assert_eq!(
        LocalTime::<HmsTime>::from_text("16:43:52.1"),
        Ok(LocalTime {
            naive: HmsTime {
                hour: 16,
                minute: 43,
                second: 52
            },
            fraction: 100_000_000
        })
    );

    assert!(matches!(
        GlobalTime::<HmsTime>::from_text("16:43:52"),
        Err(Error::InvalidFormat)
    ));
    assert_eq!(
        GlobalTime::<HTime>::from_text("16Z"),
        Ok(GlobalTime {
            local: LocalTime {
                naive: HTime { hour: 16 },
                fraction: 0
            },
            timezone: 0
        })
    );
    assert!(matches!(
        AnyTime::<HmTime>::from_text("99:01"),
        Err(Error::InvalidDate)
    ));
    assert_eq!(
        ApproxAnyTime::from_text("16:22Z"),
        Ok(ApproxAnyTime::HM(AnyTime::Global(GlobalTime {
            local: LocalTime {
                naive: HmTime {
                    hour: 16,
                    minute: 22
                },
                fraction: 0
            },
            timezone: 0
        })))
    );
    assert!(matches!(
        ApproxLocalTime::from_text("99"),
        Err(Error::InvalidDate)
    ));
    assert!(matches!(
        ApproxGlobalTime::from_text("16:22"),
        Err(Error::InvalidFormat)
    ));
}

#[test]
fn error_messages() {
    assert_eq!(Error::InvalidFormat.message(), "Invalid ISO-8601 format");
    assert_eq!(Error::InvalidDate.message(), "Invalid date or time");
}

#[test]
fn double_t_is_rejected() {
    assert!(datetime_approx_any_approx(b"2018-08-02TT22:01:39Z").is_err());
    assert!(datetime_approx_any_approx(b"2018-08-02T22:01:39Z").is_ok());
}

#[test]
fn deserialize_datetime_parses_or_fails() {
    let parsed = deserialize_DateTime(b"2018-08-02T12:30:15.2Z").unwrap();
    assert_eq!(
        parsed,
        DateTime {
            date: ApproxDate::YMD(YmdDate {
                year: 2018,
                month: 8,
                day: 2
            }),
            time: ApproxAnyTime::HMS(AnyTime::Global(GlobalTime {
                local: LocalTime {
                    naive: HmsTime {
                        hour: 12,
                        minute: 30,
                        second: 15
                    },
                    fraction: 200_000_000
                },
                timezone: 0
            }))
        }
    );
    assert!(matches!(
        deserialize_DateTime(b"whenever"),
        Err(Error::InvalidFormat)
    ));
}

#[test]
fn ordinal_day_bounds() {
    // Day 366 exists only in leap years; day 367 never.
    assert!(ODate {
        year: 2016,
        day: 366
    }
    .is_valid());
    assert!(!ODate {
        year: 2022,
        day: 366
    }
    .is_valid());
    assert!(!date_o(b"2022-367").unwrap().1.is_valid());
    assert!(date_o(b"2022-365").unwrap().1.is_valid());
}
