use mqtt_log_viewer::datetime::{
    clock_text, local_clock, write_datetime, DateTimeParts, TimeEditPosition, Timestamp,
};

fn parts(year: i32, month: u32, day: u32, hour: u32, minute: u32, second: u32) -> DateTimeParts {
    DateTimeParts { year, month, day, hour, minute, second }
}

#[test]
fn check_valid_knows_the_calendar() {
    assert!(parts(2024, 2, 29, 0, 0, 0).check_valid());
    assert!(!parts(2023, 2, 29, 0, 0, 0).check_valid());
    assert!(!parts(1900, 2, 29, 0, 0, 0).check_valid());
    assert!(parts(2000, 2, 29, 0, 0, 0).check_valid());
    assert!(parts(-4, 2, 29, 0, 0, 0).check_valid());
    assert!(!parts(-1, 2, 29, 0, 0, 0).check_valid());
    assert!(parts(2024, 4, 30, 23, 59, 59).check_valid());
    assert!(!parts(2024, 4, 31, 0, 0, 0).check_valid());
    assert!(!parts(2024, 0, 1, 0, 0, 0).check_valid());
    assert!(!parts(2024, 13, 1, 0, 0, 0).check_valid());
    assert!(!parts(2024, 1, 0, 0, 0, 0).check_valid());
    assert!(!parts(2024, 1, 1, 24, 0, 0).check_valid());
    assert!(!parts(2024, 1, 1, 0, 60, 0).check_valid());
    assert!(!parts(2024, 1, 1, 0, 0, 60).check_valid());
    assert!(!parts(300_000, 1, 1, 0, 0, 0).check_valid());
}

#[test]
fn adjust_moves_one_group_within_its_bounds() {
    let start = parts(2024, 6, 15, 12, 30, 45);
    assert_eq!(start.adjust(TimeEditPosition::Year, 1), parts(2025, 6, 15, 12, 30, 45));
    assert_eq!(start.adjust(TimeEditPosition::Month, -5), parts(2024, 1, 15, 12, 30, 45));
    assert_eq!(start.adjust(TimeEditPosition::Day, 10), parts(2024, 6, 25, 12, 30, 45));
    assert_eq!(start.adjust(TimeEditPosition::Hour, -12), parts(2024, 6, 15, 0, 30, 45));
    assert_eq!(start.adjust(TimeEditPosition::Minute, 29), parts(2024, 6, 15, 12, 59, 45));
    assert_eq!(start.adjust(TimeEditPosition::Second, -45), parts(2024, 6, 15, 12, 30, 0));
}

#[test]
fn adjust_drops_a_delta_that_leaves_the_bounds() {
    let start = parts(2024, 6, 15, 12, 30, 45);
    assert_eq!(start.adjust(TimeEditPosition::Year, -55), start);
    assert_eq!(start.adjust(TimeEditPosition::Year, 7976), start);
    assert_eq!(start.adjust(TimeEditPosition::Year, i32::MAX), start);
    assert_eq!(start.adjust(TimeEditPosition::Year, i32::MIN), start);
    assert_eq!(start.adjust(TimeEditPosition::Month, 7), start);
    assert_eq!(start.adjust(TimeEditPosition::Month, -6), start);
    assert_eq!(start.adjust(TimeEditPosition::Day, 17), start);
    assert_eq!(start.adjust(TimeEditPosition::Day, -15), start);
    assert_eq!(start.adjust(TimeEditPosition::Hour, 12), start);
    assert_eq!(start.adjust(TimeEditPosition::Hour, -13), start);
    assert_eq!(start.adjust(TimeEditPosition::Minute, 30), start);
    assert_eq!(start.adjust(TimeEditPosition::Second, 15), start);
    assert_eq!(parts(1970, 1, 1, 0, 0, 0).adjust(TimeEditPosition::Year, -1), parts(1970, 1, 1, 0, 0, 0));
    assert_eq!(parts(9999, 1, 1, 0, 0, 0).adjust(TimeEditPosition::Year, 1), parts(9999, 1, 1, 0, 0, 0));
}

#[test]
fn adjust_never_carries_into_a_neighbour() {
    let eve = parts(2024, 12, 31, 23, 59, 59);
    assert_eq!(eve.adjust(TimeEditPosition::Second, 1), eve);
    assert_eq!(eve.adjust(TimeEditPosition::Minute, 1), eve);
    assert_eq!(eve.adjust(TimeEditPosition::Hour, 1), eve);
    assert_eq!(eve.adjust(TimeEditPosition::Day, 1), eve);
    assert_eq!(eve.adjust(TimeEditPosition::Month, 1), eve);
    assert_eq!(eve.adjust(TimeEditPosition::Month, -1), eve);
    assert_eq!(eve.adjust(TimeEditPosition::Month, -2), parts(2024, 10, 31, 23, 59, 59));
}

#[test]
fn positions_cycle_in_both_directions() {
    let order = [
        TimeEditPosition::Year,
        TimeEditPosition::Month,
        TimeEditPosition::Day,
        TimeEditPosition::Hour,
        TimeEditPosition::Minute,
        TimeEditPosition::Second,
    ];
    for i in 0..6 {
        assert_eq!(order[i].next(), order[(i + 1) % 6]);
        assert_eq!(order[(i + 1) % 6].prev(), order[i]);
    }
    let columns: Vec<u16> = order.iter().map(|p| p.cursor_column()).collect();
    assert_eq!(columns, vec![2, 6, 9, 12, 15, 18]);
}

#[test]
fn accepts_states_the_bounds_of_each_group() {
    assert!(TimeEditPosition::Year.accepts(1970));
    assert!(TimeEditPosition::Year.accepts(9999));
    assert!(!TimeEditPosition::Year.accepts(1969));
    assert!(!TimeEditPosition::Year.accepts(10000));
    assert!(TimeEditPosition::Month.accepts(12));
    assert!(!TimeEditPosition::Month.accepts(0));
    assert!(TimeEditPosition::Day.accepts(31));
    assert!(!TimeEditPosition::Day.accepts(32));
    assert!(TimeEditPosition::Hour.accepts(0));
    assert!(!TimeEditPosition::Hour.accepts(24));
    assert!(!TimeEditPosition::Minute.accepts(-1));
    assert!(!TimeEditPosition::Second.accepts(60));
}

#[test]
fn timestamps_are_ordered_by_seconds_then_nanoseconds() {
    let a = Timestamp { secs: 5, nanos: 10 };
    let b = Timestamp { secs: 5, nanos: 11 };
    let c = Timestamp { secs: 6, nanos: 0 };
    let d = Timestamp { secs: -1, nanos: 999 };
    assert!(a.is_before(&b));
    assert!(b.is_before(&c));
    assert!(d.is_before(&a));
    assert!(!b.is_before(&a));
    assert!(!a.is_before(&a));
    assert!(!c.is_before(&d));
}

#[test]
fn check_valid_agrees_with_the_calendar_library() {
    let mut years: Vec<i32> = (-12..=12).collect();
    years.extend(1890..=2110);
    years.extend([-262144, -262143, -262142, 262141, 262142, 262143, 9999, 10000, -400, 400, 1600]);
    for year in years {
        for month in 0..=13u32 {
            for day in 0..=32u32 {
                let ours = parts(year, month, day, 12, 30, 30).check_valid();
                let theirs = chrono::NaiveDate::from_ymd_opt(year, month, day).is_some();
                assert_eq!(ours, theirs, "{}-{}-{}", year, month, day);
            }
        }
    }
    for (hour, minute, second) in [(0, 0, 0), (23, 59, 59), (24, 0, 0), (0, 60, 0), (0, 0, 60), (99, 99, 99)] {
        let ours = parts(2024, 1, 1, hour, minute, second).check_valid();
        let theirs = chrono::NaiveDate::from_ymd_opt(2024, 1, 1)
            .unwrap()
            .and_hms_opt(hour, minute, second)
            .is_some();
        assert_eq!(ours, theirs, "{}:{}:{}", hour, minute, second);
    }
}

#[test]
fn calendar_values_are_written_in_the_shape_of_a_time_field() {
    assert_eq!(write_datetime(parts(2024, 3, 5, 7, 8, 9)), "2024-03-05 07:08:09");
    assert_eq!(write_datetime(parts(0, 1, 1, 0, 0, 0)), "0000-01-01 00:00:00");
    assert_eq!(write_datetime(parts(7, 12, 31, 23, 59, 59)), "0007-12-31 23:59:59");
    assert_eq!(write_datetime(parts(999, 10, 10, 10, 10, 10)), "0999-10-10 10:10:10");
    assert_eq!(write_datetime(parts(9999, 12, 31, 23, 59, 59)), "9999-12-31 23:59:59");
    assert_eq!(write_datetime(parts(10000, 1, 1, 0, 0, 0)), "+10000-01-01 00:00:00");
    assert_eq!(write_datetime(parts(-1, 1, 1, 0, 0, 0)), "-0001-01-01 00:00:00");
    for year in [0, 1, 9, 10, 99, 100, 999, 1000, 1970, 2024, 9999] {
        for (month, day) in [(1, 1), (2, 28), (9, 9), (10, 10), (12, 31)] {
            for (hour, minute, second) in [(0, 0, 0), (9, 9, 9), (10, 10, 10), (23, 59, 59)] {
                let expected = format!(
                    "{:04}-{:02}-{:02} {:02}:{:02}:{:02}",
                    year, month, day, hour, minute, second
                );
                let written = write_datetime(parts(year, month, day, hour, minute, second));
                assert_eq!(written, expected);
                assert_eq!(written.chars().count(), 19);
            }
        }
    }
}

#[test]
fn the_local_clock_shows_a_day_that_exists() {
    for days in [-1, 0, 1, 400, -400] {
        let shown = local_clock(days).unwrap();
        assert!(shown.check_valid());
        assert!(shown.year >= 2023);
        assert_eq!(clock_text(days).chars().count(), 19);
    }
    assert_eq!(local_clock(i64::MAX), None);
    assert_eq!(local_clock(i64::MIN), None);
    assert_eq!(clock_text(i64::MAX), "");
    assert!(clock_text(-1) < clock_text(1));
}
