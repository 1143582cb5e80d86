use chrono::{NaiveDate, NaiveTime};
use mytime::calendar::{Date, DateTime, Time};
use mytime::formatting::{
    format_date, format_datetime, format_duration_minutes, format_entry_minutes, format_hm,
    format_minutes_hours, format_month_key,
};

fn date(y: i32, m: u32, d: u32) -> Date {
    Date::new(y, m, d).unwrap()
}

#[test]
fn dates_are_written_as_chrono_writes_them() {
    assert_eq!(format_date(&date(2024, 3, 5)), "2024-03-05");
    assert_eq!(format_date(&date(12345, 1, 1)), "+12345-01-01");
    assert_eq!(format_date(&date(-1, 12, 31)), "-0001-12-31");
    assert_eq!(format_date(&date(0, 1, 1)), "0000-01-01");
    assert_eq!(format_date(&date(9999, 12, 31)), "9999-12-31");
    for (y, m, d) in [
        (2024, 3, 5),
        (12345, 1, 1),
        (-1, 12, 31),
        (0, 1, 1),
        (9999, 12, 31),
        (10000, 1, 1),
        (-10000, 6, 30),
        (262142, 12, 31),
        (-262143, 1, 1),
        (7, 7, 7),
    ] {
        let ours = format_date(&date(y, m, d));
        let theirs = NaiveDate::from_ymd_opt(y, m, d).unwrap().format("%Y-%m-%d").to_string();
        assert_eq!(ours, theirs);
    }
}

#[test]
fn clock_times_are_written_with_two_digits() {
    assert_eq!(format_hm(&Time::from_hms(9, 5, 59).unwrap()), "09:05");
    assert_eq!(format_hm(&Time::from_hms(23, 59, 0).unwrap()), "23:59");
    assert_eq!(format_hm(&Time::midnight()), "00:00");
}

#[test]
fn instants_are_written_with_seconds() {
    let t = DateTime { date: date(2024, 1, 2), time: Time::from_hms(3, 4, 5).unwrap() };
    assert_eq!(format_datetime(&t), "2024-01-02 03:04:05");
    let leap = DateTime {
        date: date(2016, 12, 31),
        time: Time::from_hms_nano(23, 59, 59, 1_000_000_000).unwrap(),
    };
    let theirs = NaiveDate::from_ymd_opt(2016, 12, 31)
        .unwrap()
        .and_time(NaiveTime::from_hms_nano_opt(23, 59, 59, 1_000_000_000).unwrap())
        .format("%Y-%m-%d %H:%M:%S")
        .to_string();
    assert_eq!(format_datetime(&leap), theirs);
    assert_eq!(format_datetime(&leap), "2016-12-31 23:59:60");
}

#[test]
fn month_keys_are_year_and_two_digit_month() {
    assert_eq!(format_month_key(2024, 3), "2024-03");
    assert_eq!(format_month_key(2024, 12), "2024-12");
    assert_eq!(format_month_key(-5, 1), "-5-01");
    assert_eq!(format_month_key(12, 11), format!("{}-{:02}", 12, 11));
}

fn reference_minutes(seconds: i64) -> String {
    let minutes = seconds.max(0) as f64 / 60.0;
    format!("{minutes:.1}")
}

#[test]
fn duration_minutes_known_values() {
    assert_eq!(format_duration_minutes(0), "0.0");
    assert_eq!(format_duration_minutes(-30), "0.0");
    assert_eq!(format_duration_minutes(60), "1.0");
    assert_eq!(format_duration_minutes(90), "1.5");
    assert_eq!(format_duration_minutes(3600), "60.0");
    assert_eq!(format_duration_minutes(5), "0.1");
    assert_eq!(format_duration_minutes(2), "0.0");
    assert_eq!(format_duration_minutes(i64::MIN), "0.0");
}

#[test]
fn duration_minutes_match_floating_point_formatting() {
    for s in 0..400_000i64 {
        assert_eq!(format_duration_minutes(s), reference_minutes(s), "seconds {}", s);
    }
    let mut s: i64 = 400_000;
    while s < (1i64 << 53) {
        for d in 0..24i64 {
            let v = s + d;
            assert_eq!(format_duration_minutes(v), reference_minutes(v), "seconds {}", v);
        }
        s = s + s / 7 + 13;
    }
    let top = 1i64 << 53;
    for d in 0..200i64 {
        let v = top - d;
        assert_eq!(format_duration_minutes(v), reference_minutes(v), "seconds {}", v);
    }
}

fn reference_hours(total_minutes: i64) -> String {
    let hours = total_minutes / 60;
    let minutes = total_minutes % 60;
    if hours > 0 {
        format!("{hours}h{minutes}m")
    } else {
        format!("{minutes}m")
    }
}

#[test]
fn hours_and_minutes_totals() {
    assert_eq!(format_minutes_hours(0), "0m");
    assert_eq!(format_minutes_hours(59), "59m");
    assert_eq!(format_minutes_hours(60), "1h0m");
    assert_eq!(format_minutes_hours(90), "1h30m");
    assert_eq!(format_minutes_hours(-10), "0m");
    for m in 0..20_000i64 {
        assert_eq!(format_minutes_hours(m), reference_hours(m), "minutes {}", m);
    }
    // The minutes shown for a floating-point total, rounded as the statistics do.
    let total: f64 = [29.5f64, 0.25, 0.25].iter().sum();
    assert_eq!(format_minutes_hours(total.round().max(0.0) as i64), "30m");
}

#[test]
fn entry_minutes_keep_their_sign() {
    assert_eq!(format_entry_minutes(90), "1.5");
    assert_eq!(format_entry_minutes(-90), "-1.5");
    assert_eq!(format_entry_minutes(-1), "-0.0");
    assert_eq!(format_entry_minutes(0), "0.0");
    for s in -100_000..100_000i64 {
        let minutes = s as f64 / 60.0;
        assert_eq!(format_entry_minutes(s), format!("{:.1}", minutes), "seconds {}", s);
    }
    let edge = 1i64 << 53;
    for v in [edge, -edge, edge - 3, -(edge - 3), 123_456_789_123, -123_456_789_123] {
        assert_eq!(format_entry_minutes(v), format!("{:.1}", v as f64 / 60.0), "seconds {}", v);
    }
}
