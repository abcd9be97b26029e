use iso_8601::parse::time;
use iso_8601::parse::ParseErr;
use iso_8601::time::{
    AnyTime, ApproxAnyTime, ApproxGlobalTime, ApproxLocalTime, GlobalTime, HTime, HmTime, HmsTime,
    LocalTime,
};

#[test]
fn hour() {
    assert_eq!(time::hour(b"02"), Ok((&[][..], 2)));
    assert_eq!(time::hour(b"24"), Ok((&[][..], 24)));
}

#[test]
fn minute() {
    assert_eq!(time::minute(b"02"), Ok((&[][..], 2)));
    assert_eq!(time::minute(b"59"), Ok((&[][..], 59)));
}

#[test]
fn second() {
    assert_eq!(time::second(b"02 "), Ok((&b" "[..], 2)));
    assert_eq!(time::second(b"02"), Ok((&[][..], 2)));
    assert_eq!(time::second(b"60 "), Ok((&b" "[..], 60)));
    assert_eq!(time::second(b"60"), Ok((&[][..], 60)));
}

#[test]
fn timezone_fixed() {
    assert_eq!(time::timezone_fixed(b"+23:59 "), Ok((&b" "[..], 23 * 60 + 59)));
    assert_eq!(time::timezone_fixed(b"+23:59"), Ok((&[][..], 23 * 60 + 59)));
    assert_eq!(time::timezone_fixed(b"+2359 "), Ok((&b" "[..], 23 * 60 + 59)));
    assert_eq!(time::timezone_fixed(b"+2359"), Ok((&[][..], 23 * 60 + 59)));
    assert_eq!(time::timezone_fixed(b"-23 "), Ok((&b" "[..], -23 * 60)));
    assert_eq!(time::timezone_fixed(b"-23"), Ok((&[][..], -23 * 60)));
}

#[test]
fn timezone_utc() {
    assert_eq!(time::timezone_utc(b"Z "), Ok((&b" "[..], 0)));
    assert_eq!(time::timezone_utc(b"Z"), Ok((&[][..], 0)));
    assert_eq!(time::timezone_utc(b"z"), Err(ParseErr::Error));
}

#[test]
fn timezone() {
    assert_eq!(time::timezone(b"-22:11 "), Ok((&b" "[..], -22 * 60 - 11)));
    assert_eq!(time::timezone(b"-22:11"), Ok((&[][..], -22 * 60 - 11)));
    assert_eq!(time::timezone(b"-2211 "), Ok((&b" "[..], -22 * 60 - 11)));
    assert_eq!(time::timezone(b"-2211"), Ok((&[][..], -22 * 60 - 11)));
    assert_eq!(time::timezone(b"Z "), Ok((&b" "[..], 0)));
    assert_eq!(time::timezone(b"Z"), Ok((&[][..], 0)));
}

#[test]
fn time_hms() {
    let value = HmsTime {
        hour: 11,
        minute: 22,
        second: 33,
    };
    assert_eq!(time::time_hms(b"11:22:33 "), Ok((&b" "[..], value.clone())));
    assert_eq!(time::time_hms(b"11:22:33"), Ok((&[][..], value.clone())));
    assert_eq!(time::time_hms(b"112233 "), Ok((&b" "[..], value.clone())));
    assert_eq!(time::time_hms(b"112233"), Ok((&[][..], value)));
}

#[test]
fn time_hm() {
    let value = HmTime {
        hour: 11,
        minute: 22,
    };
    assert_eq!(time::time_hm(b"11:22 "), Ok((&b" "[..], value.clone())));
    assert_eq!(time::time_hm(b"11:22"), Ok((&[][..], value.clone())));
    assert_eq!(time::time_hm(b"1122 "), Ok((&b" "[..], value.clone())));
    assert_eq!(time::time_hm(b"1122"), Ok((&[][..], value)));
}

#[test]
fn time_h() {
    let value = HTime { hour: 11 };
    assert_eq!(time::time_h(b"11 "), Ok((&b" "[..], value.clone())));
    assert_eq!(time::time_h(b"11"), Ok((&[][..], value)));
}

#[test]
fn time_local_hms() {
    let value = LocalTime {
        naive: HmsTime {
            hour: 16,
            minute: 43,
            second: 52,
        },
        fraction: 100_000_000,
    };
    assert_eq!(time::time_local_hms(b"T16:43:52.1 "), Ok((&b" "[..], value.clone())));
    assert_eq!(time::time_local_hms(b"T16:43:52.1"), Ok((&[][..], value.clone())));
    assert_eq!(time::time_local_hms(b"16:43:52.1"), Ok((&[][..], value.clone())));
    assert_eq!(time::time_local_hms(b"T164352.1"), Ok((&[][..], value.clone())));
    assert_eq!(time::time_local_hms(b"164352.1"), Ok((&[][..], value.clone())));

    let value = LocalTime {
        fraction: 0,
        ..value
    };
    assert_eq!(time::time_local_hms(b"T16:43:52"), Ok((&[][..], value.clone())));
    assert_eq!(time::time_local_hms(b"16:43:52"), Ok((&[][..], value)));
}

#[test]
fn time_local_hm() {
    let value = LocalTime {
        naive: HmTime {
            hour: 16,
            minute: 43,
        },
        fraction: 6_000_000_000,
    };
    assert_eq!(time::time_local_hm(b"T16:43.1"), Ok((&[][..], value.clone())));
    assert_eq!(time::time_local_hm(b"16:43.1"), Ok((&[][..], value.clone())));
    assert_eq!(time::time_local_hm(b"T1643.1"), Ok((&[][..], value.clone())));
    assert_eq!(time::time_local_hm(b"1643.1"), Ok((&[][..], value.clone())));

    let value = LocalTime {
        fraction: 0,
        ..value
    };
    assert_eq!(time::time_local_hm(b"T16:43"), Ok((&[][..], value.clone())));
    assert_eq!(time::time_local_hm(b"16:43"), Ok((&[][..], value.clone())));
    assert_eq!(time::time_local_hm(b"T1643"), Ok((&[][..], value.clone())));
    assert_eq!(time::time_local_hm(b"1643"), Ok((&[][..], value)));
}

#[test]
fn time_local_h() {
    let value = LocalTime {
        naive: HTime { hour: 16 },
        fraction: 360_000_000_000,
    };
    assert_eq!(time::time_local_h(b"T16.1"), Ok((&[][..], value.clone())));
    assert_eq!(time::time_local_h(b"16.1"), Ok((&[][..], value.clone())));

    let value = LocalTime {
        fraction: 0,
        ..value
    };
    assert_eq!(time::time_local_h(b"T16"), Ok((&[][..], value.clone())));
    assert_eq!(time::time_local_h(b"16"), Ok((&[][..], value)));
}

#[test]
fn time_global_hms() {
    let value = GlobalTime {
        local: LocalTime {
            naive: HmsTime {
                hour: 16,
                minute: 43,
                second: 52,
            },
            fraction: 0,
        },
        timezone: 0,
    };
    assert_eq!(time::time_global_hms(b"T16:43:52Z"), Ok((&[][..], value.clone())));
    assert_eq!(time::time_global_hms(b"16:43:52Z"), Ok((&[][..], value.clone())));
    assert_eq!(time::time_global_hms(b"T164352Z"), Ok((&[][..], value.clone())));
    assert_eq!(time::time_global_hms(b"164352Z"), Ok((&[][..], value.clone())));

    {
        let value = GlobalTime {
            timezone: 2,
            ..value.clone()
        };
        assert_eq!(time::time_global_hms(b"T16:43:52+0002"), Ok((&[][..], value.clone())));
        assert_eq!(time::time_global_hms(b"16:43:52+0002"), Ok((&[][..], value.clone())));
        assert_eq!(time::time_global_hms(b"T164352+0002"), Ok((&[][..], value.clone())));
        assert_eq!(time::time_global_hms(b"164352+0002"), Ok((&[][..], value.clone())));

        let value = GlobalTime {
            local: LocalTime {
                fraction: 100_000_000,
                ..value.local
            },
            ..value
        };
        assert_eq!(time::time_global_hms(b"T16:43:52.1+0002"), Ok((&[][..], value.clone())));
        assert_eq!(time::time_global_hms(b"16:43:52.1+0002"), Ok((&[][..], value.clone())));
        assert_eq!(time::time_global_hms(b"T164352.1+0002"), Ok((&[][..], value.clone())));
        assert_eq!(time::time_global_hms(b"164352.1+0002"), Ok((&[][..], value)));
    }

    let value = GlobalTime {
        local: LocalTime {
            fraction: 100_000_000,
            ..value.local
        },
        ..value
    };
    assert_eq!(time::time_global_hms(b"T16:43:52.1Z"), Ok((&[][..], value.clone())));
    assert_eq!(time::time_global_hms(b"16:43:52.1Z"), Ok((&[][..], value.clone())));
    assert_eq!(time::time_global_hms(b"T164352.1Z"), Ok((&[][..], value.clone())));
    assert_eq!(time::time_global_hms(b"164352.1Z"), Ok((&[][..], value)));
}

#[test]
fn time_global_hm() {
    let value = GlobalTime {
        local: LocalTime {
            naive: HmTime {
                hour: 16,
                minute: 43,
            },
            fraction: 0,
        },
        timezone: 0,
    };
    assert_eq!(time::time_global_hm(b"T16:43Z"), Ok((&[][..], value.clone())));
    assert_eq!(time::time_global_hm(b"16:43Z"), Ok((&[][..], value.clone())));
    assert_eq!(time::time_global_hm(b"T1643Z"), Ok((&[][..], value.clone())));
    assert_eq!(time::time_global_hm(b"1643Z"), Ok((&[][..], value.clone())));

    let value = GlobalTime {
        local: LocalTime {
            fraction: 6_000_000_000,
            ..value.local
        },
        ..value
    };
    assert_eq!(time::time_global_hm(b"T16:43.1Z"), Ok((&[][..], value.clone())));
    assert_eq!(time::time_global_hm(b"16:43.1Z"), Ok((&[][..], value.clone())));
    assert_eq!(time::time_global_hm(b"T1643.1Z"), Ok((&[][..], value.clone())));
    assert_eq!(time::time_global_hm(b"1643.1Z"), Ok((&[][..], value)));
}

#[test]
fn time_global_h() {
    let value = GlobalTime {
        local: LocalTime {
            naive: HTime { hour: 16 },
            fraction: 0,
        },
        timezone: 0,
    };
    assert_eq!(time::time_global_h(b"T16Z"), Ok((&[][..], value.clone())));
    assert_eq!(time::time_global_h(b"16Z"), Ok((&[][..], value.clone())));

    let value = GlobalTime {
        local: LocalTime {
            fraction: 360_000_000_000,
            ..value.local
        },
        ..value
    };
    assert_eq!(time::time_global_h(b"T16.1Z"), Ok((&[][..], value.clone())));
    assert_eq!(time::time_global_h(b"16.1Z"), Ok((&[][..], value)));
}

#[test]
fn time_any_hms() {
    let value = AnyTime::Local(LocalTime {
        naive: HmsTime {
            hour: 16,
            minute: 43,
            second: 52,
        },
        fraction: 0,
    });
    assert_eq!(time::time_any_hms(b"T16:43:52"), Ok((&[][..], value.clone())));
    assert_eq!(time::time_any_hms(b"16:43:52"), Ok((&[][..], value.clone())));
    assert_eq!(time::time_any_hms(b"T164352"), Ok((&[][..], value.clone())));
    assert_eq!(time::time_any_hms(b"164352"), Ok((&[][..], value)));

    let value = AnyTime::Global(GlobalTime {
        local: LocalTime {
            naive: HmsTime {
                hour: 2,
                minute: 3,
                second: 52,
            },
            fraction: 0,
        },
        timezone: 0,
    });
    assert_eq!(time::time_any_hms(b"T02:03:52Z"), Ok((&[][..], value.clone())));
    assert_eq!(time::time_any_hms(b"02:03:52Z"), Ok((&[][..], value.clone())));
    assert_eq!(time::time_any_hms(b"T020352Z"), Ok((&[][..], value.clone())));
    assert_eq!(time::time_any_hms(b"020352Z"), Ok((&[][..], value)));

    let value = AnyTime::Global(GlobalTime {
        local: LocalTime {
            naive: HmsTime {
                hour: 2,
                minute: 3,
                second: 52,
            },
            fraction: 0,
        },
        timezone: -1 * 60,
    });
    assert_eq!(time::time_any_hms(b"T02:03:52-01"), Ok((&[][..], value.clone())));
    assert_eq!(time::time_any_hms(b"02:03:52-01"), Ok((&[][..], value.clone())));
    assert_eq!(time::time_any_hms(b"T020352-01"), Ok((&[][..], value.clone())));
    assert_eq!(time::time_any_hms(b"020352-01"), Ok((&[][..], value)));
}

#[test]
fn time_any_hm() {
    let value = AnyTime::Local(LocalTime {
        naive: HmTime {
            hour: 16,
            minute: 43,
        },
        fraction: 0,
    });
    assert_eq!(time::time_any_hm(b"T16:43"), Ok((&[][..], value.clone())));
    assert_eq!(time::time_any_hm(b"16:43"), Ok((&[][..], value.clone())));
    assert_eq!(time::time_any_hm(b"T1643"), Ok((&[][..], value.clone())));
    assert_eq!(time::time_any_hm(b"1643"), Ok((&[][..], value)));

    let value = AnyTime::Global(GlobalTime {
        local: LocalTime {
            naive: HmTime { hour: 2, minute: 3 },
            fraction: 0,
        },
        timezone: 0,
    });
    assert_eq!(time::time_any_hm(b"T02:03Z"), Ok((&[][..], value.clone())));
    assert_eq!(time::time_any_hm(b"02:03Z"), Ok((&[][..], value.clone())));
    assert_eq!(time::time_any_hm(b"T0203Z"), Ok((&[][..], value.clone())));
    assert_eq!(time::time_any_hm(b"0203Z"), Ok((&[][..], value)));

    let value = AnyTime::Global(GlobalTime {
        local: LocalTime {
            naive: HmTime { hour: 2, minute: 3 },
            fraction: 0,
        },
        timezone: -1 * 60,
    });
    assert_eq!(time::time_any_hm(b"T02:03-01"), Ok((&[][..], value.clone())));
    assert_eq!(time::time_any_hm(b"02:03-01"), Ok((&[][..], value.clone())));
    assert_eq!(time::time_any_hm(b"T0203-01"), Ok((&[][..], value.clone())));
    assert_eq!(time::time_any_hm(b"0203-01"), Ok((&[][..], value)));
}

#[test]
fn time_any_h() {
    let value = AnyTime::Local(LocalTime {
        naive: HTime { hour: 16 },
        fraction: 0,
    });
    assert_eq!(time::time_any_h(b"T16"), Ok((&[][..], value.clone())));
    assert_eq!(time::time_any_h(b"16"), Ok((&[][..], value)));

    let value = AnyTime::Global(GlobalTime {
        local: LocalTime {
            naive: HTime { hour: 2 },
            fraction: 0,
        },
        timezone: 0,
    });
    assert_eq!(time::time_any_h(b"T02Z"), Ok((&[][..], value.clone())));
    assert_eq!(time::time_any_h(b"02Z"), Ok((&[][..], value)));

    let value = AnyTime::Global(GlobalTime {
        local: LocalTime {
            naive: HTime { hour: 2 },
            fraction: 0,
        },
        timezone: -1 * 60,
    });
    assert_eq!(time::time_any_h(b"T02-01"), Ok((&[][..], value.clone())));
    assert_eq!(time::time_any_h(b"02-01"), Ok((&[][..], value)));
}

#[test]
fn time_local_approx() {
    assert_eq!(
        time::time_local_approx(b"16:22:48"),
        Ok((
            &[][..],
            ApproxLocalTime::HMS(LocalTime {
                naive: HmsTime {
                    hour: 16,
                    minute: 22,
                    second: 48
                },
                fraction: 0
            })
        ))
    );

    assert_eq!(
        time::time_local_approx(b"16:22"),
        Ok((
            &[][..],
            ApproxLocalTime::HM(LocalTime {
                naive: HmTime {
                    hour: 16,
                    minute: 22
                },
                fraction: 0
            })
        ))
    );

    assert_eq!(
        time::time_local_approx(b"16"),
        Ok((
            &[][..],
            ApproxLocalTime::H(LocalTime {
                naive: HTime { hour: 16 },
                fraction: 0
            })
        ))
    );
}

#[test]
fn time_global_approx() {
    assert_eq!(
        time::time_global_approx(b"16:22:48Z"),
        Ok((
            &[][..],
            ApproxGlobalTime::HMS(GlobalTime {
                local: LocalTime {
                    naive: HmsTime {
                        hour: 16,
                        minute: 22,
                        second: 48
                    },
                    fraction: 0
                },
                timezone: 0
            })
        ))
    );

    assert_eq!(
        time::time_global_approx(b"16:22Z"),
        Ok((
            &[][..],
            ApproxGlobalTime::HM(GlobalTime {
                local: LocalTime {
                    naive: HmTime {
                        hour: 16,
                        minute: 22
                    },
                    fraction: 0
                },
                timezone: 0
            })
        ))
    );

    assert_eq!(
        time::time_global_approx(b"16Z"),
        Ok((
            &[][..],
            ApproxGlobalTime::H(GlobalTime {
                local: LocalTime {
                    naive: HTime { hour: 16 },
                    fraction: 0
                },
                timezone: 0
            })
        ))
    );
}

#[test]
fn time_any_approx() {
    assert_eq!(
        time::time_any_approx(b"16:22:48"),
        Ok((
            &[][..],
            ApproxAnyTime::HMS(AnyTime::Local(LocalTime {
                naive: HmsTime {
                    hour: 16,
                    minute: 22,
                    second: 48
                },
                fraction: 0
            }))
        ))
    );
    assert_eq!(
        time::time_any_approx(b"16:22"),
        Ok((
            &[][..],
            ApproxAnyTime::HM(AnyTime::Local(LocalTime {
                naive: HmTime {
                    hour: 16,
                    minute: 22
                },
                fraction: 0
            }))
        ))
    );
    assert_eq!(
        time::time_any_approx(b"16"),
        Ok((
            &[][..],
            ApproxAnyTime::H(AnyTime::Local(LocalTime {
                naive: HTime { hour: 16 },
                fraction: 0
            }))
        ))
    );

    assert_eq!(
        time::time_any_approx(b"16:22:48Z"),
        Ok((
            &[][..],
            ApproxAnyTime::HMS(AnyTime::Global(GlobalTime {
                local: LocalTime {
                    naive: HmsTime {
                        hour: 16,
                        minute: 22,
                        second: 48
                    },
                    fraction: 0
                },
                timezone: 0
            }))
        ))
    );
    assert_eq!(
        time::time_any_approx(b"16:22Z"),
        Ok((
            &[][..],
            ApproxAnyTime::HM(AnyTime::Global(GlobalTime {
                local: LocalTime {
                    naive: HmTime {
                        hour: 16,
                        minute: 22
                    },
                    fraction: 0
                },
                timezone: 0
            }))
        ))
    );
    assert_eq!(
        time::time_any_approx(b"16Z"),
        Ok((
            &[][..],
            ApproxAnyTime::H(AnyTime::Global(GlobalTime {
                local: LocalTime {
                    naive: HTime { hour: 16 },
                    fraction: 0
                },
                timezone: 0
            }))
        ))
    );
}
