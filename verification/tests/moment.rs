use chrono::NaiveDate;
use vps_monitor::moment::{year_month, Moment, MAX_SECS, MIN_SECS, NANOS_PER_SEC};

fn at(year: i32, month: u32, day: u32, hour: u32, minute: u32, second: u32) -> Moment {
    let t = NaiveDate::from_ymd_opt(year, month, day)
        .unwrap()
        .and_hms_opt(hour, minute, second)
        .unwrap()
        .and_utc();
    Moment::new(t.timestamp(), 0).unwrap()
}

fn with_nanos(m: Moment, nanos: u32) -> Moment {
    Moment::new(m.secs, nanos).unwrap()
}

#[test]
fn instants_lie_in_the_calendar() {
    assert!(Moment::new(MIN_SECS, 0).is_some());
    assert!(Moment::new(MAX_SECS, NANOS_PER_SEC - 1).is_some());
    assert!(Moment::new(MIN_SECS - 1, 0).is_none());
    assert!(Moment::new(MAX_SECS + 1, 0).is_none());
    assert!(Moment::new(i64::MIN, 0).is_none());
    assert!(Moment::new(i64::MAX, 0).is_none());
    assert!(Moment::new(0, NANOS_PER_SEC).is_none());
    assert!(Moment::new(59, NANOS_PER_SEC).is_some());
    assert!(Moment::new(-1, NANOS_PER_SEC).is_some());
    assert!(Moment::new(59, 2 * NANOS_PER_SEC).is_none());
    assert_eq!(Moment::new(7, 8), Some(Moment { secs: 7, nanos: 8 }));
}

#[test]
fn instants_of_the_calendar_are_those_of_chrono() {
    for secs in [MIN_SECS - 1, MIN_SECS, -61, -60, -1, 0, 58, 59, MAX_SECS, MAX_SECS + 1] {
        for nanos in [0, 999_999_999, 1_000_000_000, 1_999_999_999, 2_000_000_000, u32::MAX] {
            let expected = chrono::DateTime::from_timestamp(secs, nanos).is_some();
            assert_eq!(Moment::new(secs, nanos).is_some(), expected, "{secs} {nanos}");
        }
    }
}

#[test]
fn the_clock_runs() {
    let first = Moment::now();
    assert!(at(2024, 1, 1, 0, 0, 0).is_before(&first));
    let second = Moment::now();
    assert!(!second.is_before(&first));
    assert!(Moment::new(first.secs, first.nanos).is_some());
}

#[test]
fn instants_are_ordered() {
    let a = Moment { secs: 1, nanos: 5 };
    let b = Moment { secs: 1, nanos: 6 };
    let c = Moment { secs: 2, nanos: 0 };
    assert!(a.is_before(&b) && b.is_before(&c) && a.is_before(&c));
    assert!(!a.is_before(&a) && !b.is_before(&a) && !c.is_before(&b));
}

#[test]
fn instants_are_written_in_the_notation_of_rfc_3339() {
    let noon = at(2026, 2, 28, 12, 34, 56);
    assert_eq!(noon.to_rfc3339(), "2026-02-28T12:34:56+00:00");
    assert_eq!(
        with_nanos(noon, 500_000_000).to_rfc3339(),
        "2026-02-28T12:34:56.500+00:00"
    );
    assert_eq!(
        with_nanos(noon, 1_000).to_rfc3339(),
        "2026-02-28T12:34:56.000001+00:00"
    );
    assert_eq!(
        with_nanos(noon, 1).to_rfc3339(),
        "2026-02-28T12:34:56.000000001+00:00"
    );
    assert_eq!(
        Moment { secs: 0, nanos: 0 }.to_rfc3339(),
        "1970-01-01T00:00:00+00:00"
    );
    assert_eq!(
        Moment { secs: -1, nanos: 0 }.to_rfc3339(),
        "1969-12-31T23:59:59+00:00"
    );
    assert_eq!(
        Moment { secs: 1_483_228_799, nanos: 1_250_000_000 }.to_rfc3339(),
        "2016-12-31T23:59:60.250+00:00"
    );
    assert_eq!(at(0, 1, 1, 0, 0, 0).to_rfc3339(), "0000-01-01T00:00:00+00:00");
    assert_eq!(at(-7, 3, 1, 0, 0, 0).to_rfc3339(), "-0007-03-01T00:00:00+00:00");
    assert_eq!(at(10000, 1, 1, 0, 0, 0).to_rfc3339(), "+10000-01-01T00:00:00+00:00");
    assert_eq!(
        Moment { secs: MAX_SECS, nanos: 0 }.to_rfc3339(),
        "+262142-12-31T23:59:59+00:00"
    );
    assert_eq!(
        Moment { secs: MIN_SECS, nanos: 0 }.to_rfc3339(),
        "-262143-01-01T00:00:00+00:00"
    );
}

#[test]
fn a_written_instant_is_read_back() {
    for m in [
        at(0, 1, 1, 0, 0, 0),
        at(1, 1, 1, 0, 0, 0),
        at(1969, 12, 31, 23, 59, 59),
        at(1970, 1, 1, 0, 0, 0),
        at(2024, 2, 29, 6, 7, 8),
        at(9999, 12, 31, 23, 59, 59),
    ] {
        for nanos in [0, 1, 1_000, 1_000_000, 123_456_789, 999_999_999] {
            let m = with_nanos(m, nanos);
            assert_eq!(Moment::parse_rfc3339(&m.to_rfc3339()), Some(m));
        }
    }
    for leap in [
        Moment { secs: 1_483_228_799, nanos: 1_000_000_000 },
        Moment { secs: 59, nanos: 1_999_999_999 },
        Moment { secs: 253_402_300_799, nanos: 1_500_000_000 },
    ] {
        assert_eq!(Moment::parse_rfc3339(&leap.to_rfc3339()), Some(leap));
    }
}

#[test]
fn years_of_more_than_four_digits_are_not_read_back() {
    let m = at(10000, 1, 1, 0, 0, 0);
    assert_eq!(Moment::parse_rfc3339(&m.to_rfc3339()), None);
}

#[test]
fn instants_are_read_in_any_zone() {
    let noon = at(2026, 2, 28, 12, 0, 0);
    for text in [
        "2026-02-28T12:00:00Z",
        "2026-02-28T12:00:00+00:00",
        "2026-02-28T20:00:00+08:00",
        "2026-02-28 07:00:00-05:00",
    ] {
        assert_eq!(Moment::parse_rfc3339(text), Some(noon));
    }
    for text in ["", "yesterday", "2026-02-28", "2026-02-30T00:00:00Z", "2026-02-28T12:00:00"] {
        assert_eq!(Moment::parse_rfc3339(text), None);
    }
}

#[test]
fn months_have_labels() {
    assert_eq!(year_month(&at(2026, 2, 1, 0, 0, 0)), "2026-02");
    assert_eq!(year_month(&at(2026, 2, 28, 23, 59, 59)), "2026-02");
    assert_eq!(year_month(&at(2026, 12, 31, 23, 59, 59)), "2026-12");
    assert_eq!(year_month(&at(999, 1, 1, 0, 0, 0)), "0999-01");
    assert_eq!(year_month(&at(-1, 7, 1, 0, 0, 0)), "-0001-07");
    assert_eq!(year_month(&at(12345, 7, 1, 0, 0, 0)), "+12345-07");
    assert_ne!(
        year_month(&at(2025, 12, 31, 23, 59, 59)),
        year_month(&at(2026, 1, 1, 0, 0, 0))
    );
}
