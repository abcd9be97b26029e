use iso_8601::time::{
    AnyTime, GlobalTime, HTime, HmTime, HmsTime, LocalTime, NANOS_PER_HOUR,
};
use iso_8601::Valid;

#[test]
fn valid_time_hms() {
    assert!(HmsTime {
        hour: 0,
        minute: 1,
        second: 60
    }
    .is_valid());

    assert!(!HmsTime {
        hour: 0,
        minute: 1,
        second: 61
    }
    .is_valid());
}

#[test]
fn valid_time_hm() {
    assert!(HmTime {
        hour: 0,
        minute: 59
    }
    .is_valid());

    assert!(!HmTime {
        hour: 0,
        minute: 60
    }
    .is_valid());
}

#[test]
fn valid_time_h() {
    assert!(HTime { hour: 24 }.is_valid());

    assert!(!HTime { hour: 25 }.is_valid());
}

#[test]
fn valid_time_local() {
    // A fraction of 0.999 of an hour, in nanoseconds, is within range;
    // a full hour is not.
    assert!(LocalTime {
        naive: HTime { hour: 0 },
        fraction: NANOS_PER_HOUR - 3_600_000_000
    }
    .is_valid());

    assert!(!LocalTime {
        naive: HTime { hour: 0 },
        fraction: NANOS_PER_HOUR
    }
    .is_valid());
}

#[test]
fn valid_time_global() {
    assert!(GlobalTime {
        local: LocalTime {
            naive: HTime { hour: 0 },
            fraction: 0
        },
        timezone: 24 * 60 - 1
    }
    .is_valid());

    assert!(!GlobalTime {
        local: LocalTime {
            naive: HTime { hour: 0 },
            fraction: 0
        },
        timezone: 24 * 60
    }
    .is_valid());
    assert!(!GlobalTime {
        local: LocalTime {
            naive: HTime { hour: 0 },
            fraction: 0
        },
        timezone: -24 * 60
    }
    .is_valid());

    assert!(!GlobalTime {
        local: LocalTime {
            naive: HTime { hour: 25 },
            fraction: 0
        },
        timezone: 0
    }
    .is_valid());
}

#[test]
fn valid_time_any() {
    let local = LocalTime {
        naive: HTime { hour: 25 },
        fraction: 0,
    };
    assert!(!AnyTime::Local(local.clone()).is_valid());
    assert!(!AnyTime::Global(GlobalTime { local, timezone: 0 }).is_valid());
}
