use iso_8601::date::{ApproxDate, CDate, Date, ODate, WDate, WdDate, YDate, YmDate, YmdDate};
use iso_8601::parse::date;
use iso_8601::Valid;

#[test]
fn positive_year() {
    assert_eq!(date::positive_year(b"2018"), Ok((&[][..], 2018)));
}

#[test]
fn year() {
    assert_eq!(date::year(b"2018"), Ok((&[][..], 2018)));
    assert_eq!(date::year(b"+2018"), Ok((&[][..], 2018)));
    assert_eq!(date::year(b"-2018"), Ok((&[][..], -2018)));
}

#[test]
fn month() {
    assert_eq!(date::month(b"06"), Ok((&[][..], 6)));
    assert_eq!(date::month(b"12"), Ok((&[][..], 12)));
}

#[test]
fn year_week() {
    assert_eq!(date::year_week(b"01"), Ok((&[][..], 1)));
}

#[test]
fn year_day() {
    assert_eq!(date::year_day(b"001"), Ok((&[][..], 1)));
    assert_eq!(date::year_day(b"011"), Ok((&[][..], 11)));
    assert_eq!(date::year_day(b"111"), Ok((&[][..], 111)));
    assert_eq!(date::year_day(b"1111"), Ok((&b"1"[..], 111)));
}

#[test]
fn day() {
    assert_eq!(date::day(b"18"), Ok((&[][..], 18)));
}

#[test]
fn week_day() {
    assert_eq!(date::week_day(b"1"), Ok((&[][..], 1)));
    assert_eq!(date::week_day(b"2"), Ok((&[][..], 2)));
    assert_eq!(date::week_day(b"3"), Ok((&[][..], 3)));
    assert_eq!(date::week_day(b"4"), Ok((&[][..], 4)));
    assert_eq!(date::week_day(b"5"), Ok((&[][..], 5)));
    assert_eq!(date::week_day(b"6"), Ok((&[][..], 6)));
    assert_eq!(date::week_day(b"7"), Ok((&[][..], 7)));
}

#[test]
fn date_ymd() {
    {
        let value = YmdDate {
            year: 2015,
            month: 7,
            day: 16,
        };
        assert_eq!(date::date_ymd(b"2015-07-16"), Ok((&[][..], value.clone())));
        assert_eq!(date::date_ymd(b"20150716"), Ok((&[][..], value)));
    }
    {
        let value = YmdDate {
            year: -333,
            month: 6,
            day: 11,
        };
        assert_eq!(date::date_ymd(b"-0333-06-11"), Ok((&[][..], value.clone())));
        assert_eq!(date::date_ymd(b"-03330611"), Ok((&[][..], value)));
    }
    assert_eq!(
        date::date_ymd(b"2016-02-29"),
        Ok((
            &[][..],
            YmdDate {
                year: 2016,
                month: 2,
                day: 29
            }
        ))
    );
}

#[test]
fn date_ym() {
    assert_eq!(
        date::date_ym(b"2016-02"),
        Ok((
            &[][..],
            YmDate {
                year: 2016,
                month: 2
            }
        ))
    );
    assert_eq!(
        date::date_ym(b"201602"),
        Ok((
            &[][..],
            YmDate {
                year: 2016,
                month: 2
            }
        ))
    );
}

#[test]
fn date_y() {
    assert_eq!(date::date_y(b"2016"), Ok((&[][..], YDate { year: 2016 })));
}

#[test]
fn date_c() {
    assert_eq!(date::date_c(b"20"), Ok((&[][..], CDate { century: 20 })));
}

#[test]
fn date_wd() {
    assert_eq!(
        date::date_wd(b"2018-W01-1"),
        Ok((
            &[][..],
            WdDate {
                year: 2018,
                week: 1,
                day: 1
            }
        ))
    );
    assert_eq!(
        date::date_wd(b"2018-W52-7"),
        Ok((
            &[][..],
            WdDate {
                year: 2018,
                week: 52,
                day: 7
            }
        ))
    );
    assert_eq!(
        date::date_wd(b"2018W223"),
        Ok((
            &[][..],
            WdDate {
                year: 2018,
                week: 22,
                day: 3
            }
        ))
    );
}

#[test]
fn date_w() {
    let value = WDate {
        year: 2020,
        week: 53,
    };
    assert_eq!(date::date_w(b"2020-W53 "), Ok((&b" "[..], value.clone())));
    assert_eq!(date::date_w(b"2020-W53"), Ok((&[][..], value.clone())));
    assert_eq!(date::date_w(b"2020W53 "), Ok((&b" "[..], value.clone())));
    assert_eq!(date::date_w(b"2020W53"), Ok((&[][..], value)));
}

#[test]
fn date_o() {
    let value = ODate {
        year: 1985,
        day: 102,
    };
    assert_eq!(date::date_o(b"1985-102"), Ok((&[][..], value.clone())));
    assert_eq!(date::date_o(b"1985102"), Ok((&[][..], value)));
    assert!(!date::date_o(b"2022-367").unwrap().1.is_valid());
}

#[test]
fn date() {
    {
        let value = Date::YMD(YmdDate {
            year: 2018,
            month: 2,
            day: 12,
        });
        assert_eq!(date::date(b"2018-02-12"), Ok((&[][..], value.clone())));
        assert_eq!(date::date(b"2018-02-12 "), Ok((&b" "[..], value)));
    }

    {
        let value = Date::WD(WdDate {
            year: 2018,
            week: 2,
            day: 2,
        });
        assert_eq!(date::date(b"2018-W02-2"), Ok((&[][..], value.clone())));
        assert_eq!(date::date(b"2018-W02-2 "), Ok((&b" "[..], value)));
    }

    {
        let value = Date::O(ODate {
            year: 2018,
            day: 102,
        });
        assert_eq!(date::date(b"2018-102"), Ok((&[][..], value.clone())));
        assert_eq!(date::date(b"2018-102 "), Ok((&b" "[..], value)));
    }
}

#[test]
fn date_approx() {
    {
        let value = ApproxDate::YMD(YmdDate {
            year: 2000,
            month: 5,
            day: 5,
        });
        assert_eq!(date::date_approx(b"2000-05-05 "), Ok((&b" "[..], value.clone())));
        assert_eq!(date::date_approx(b"20000505 "), Ok((&b" "[..], value.clone())));
        assert_eq!(date::date_approx(b"2000-05-05"), Ok((&[][..], value.clone())));
        assert_eq!(date::date_approx(b"20000505"), Ok((&[][..], value)));
    }
    {
        let value = ApproxDate::YM(YmDate {
            year: 2000,
            month: 5,
        });
        assert_eq!(date::date_approx(b"2000-05 "), Ok((&b" "[..], value.clone())));
        assert_eq!(date::date_approx(b"2000-05"), Ok((&[][..], value)));
    }
    {
        let value = ApproxDate::Y(YDate { year: 2000 });
        assert_eq!(date::date_approx(b"2000 "), Ok((&b" "[..], value.clone())));
        assert_eq!(date::date_approx(b"2000"), Ok((&[][..], value)));
    }
    {
        let value = ApproxDate::C(CDate { century: 20 });
        assert_eq!(date::date_approx(b"20 "), Ok((&b" "[..], value.clone())));
        assert_eq!(date::date_approx(b"20"), Ok((&[][..], value)));
    }

    {
        let value = ApproxDate::WD(WdDate {
            year: 2000,
            week: 5,
            day: 5,
        });
        assert_eq!(date::date_approx(b"2000-W05-5 "), Ok((&b" "[..], value.clone())));
        assert_eq!(date::date_approx(b"2000-W05-5"), Ok((&[][..], value.clone())));
        assert_eq!(date::date_approx(b"2000W055 "), Ok((&b" "[..], value.clone())));
        assert_eq!(date::date_approx(b"2000W055"), Ok((&[][..], value)));
    }
    {
        let value = ApproxDate::W(WDate {
            year: 2000,
            week: 5,
        });
        assert_eq!(date::date_approx(b"2000-W05 "), Ok((&b" "[..], value.clone())));
        assert_eq!(date::date_approx(b"2000-W05"), Ok((&[][..], value.clone())));
        assert_eq!(date::date_approx(b"2000W05 "), Ok((&b" "[..], value.clone())));
        assert_eq!(date::date_approx(b"2000W05"), Ok((&[][..], value)));
    }

    {
        let value = ApproxDate::O(ODate { year: 2000, day: 5 });
        assert_eq!(date::date_approx(b"2000-005 "), Ok((&b" "[..], value.clone())));
        assert_eq!(date::date_approx(b"2000-005"), Ok((&[][..], value.clone())));
        assert_eq!(date::date_approx(b"2000005 "), Ok((&b" "[..], value.clone())));
        assert_eq!(date::date_approx(b"2000005"), Ok((&[][..], value)));
    }
}
