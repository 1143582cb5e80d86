use chrono::{Datelike, NaiveDate, NaiveDateTime, NaiveTime, TimeDelta, Timelike};
use mytime::calendar::{leap_year, month_length, Date, DateTime, Time, MAX_YEAR, MIN_YEAR};

fn date(y: i32, m: u32, d: u32) -> Date {
    Date::new(y, m, d).unwrap()
}

fn at(y: i32, m: u32, d: u32, h: u32, min: u32, s: u32) -> DateTime {
    DateTime { date: date(y, m, d), time: Time::from_hms(h, min, s).unwrap() }
}

fn from_chrono(t: NaiveDateTime) -> DateTime {
    DateTime {
        date: date(t.year(), t.month(), t.day()),
        time: Time::from_hms_nano(t.hour(), t.minute(), t.second(), t.nanosecond()).unwrap(),
    }
}

fn to_chrono(t: &DateTime) -> NaiveDateTime {
    NaiveDate::from_ymd_opt(t.date.year, t.date.month, t.date.day)
        .unwrap()
        .and_time(
            NaiveTime::from_hms_nano_opt(t.time.hour, t.time.minute, t.time.second, t.time.nano)
                .unwrap(),
        )
}

#[test]
fn leap_years_follow_the_gregorian_rules() {
    assert!(leap_year(2000));
    assert!(leap_year(2024));
    assert!(!leap_year(1900));
    assert!(!leap_year(2023));
    assert!(leap_year(-4));
    assert!(leap_year(0));
    assert!(!leap_year(-100));
    for y in -500..3000 {
        assert_eq!(leap_year(y), NaiveDate::from_ymd_opt(y, 2, 29).is_some(), "year {}", y);
    }
}

#[test]
fn month_lengths_match_chrono() {
    assert_eq!(month_length(2024, 2), 29);
    assert_eq!(month_length(2023, 2), 28);
    assert_eq!(month_length(2023, 4), 30);
    assert_eq!(month_length(2023, 12), 31);
    for y in [1900, 1999, 2000, 2023, 2024, -1] {
        for m in 1..=12u32 {
            let first = NaiveDate::from_ymd_opt(y, m, 1).unwrap();
            let next = if m == 12 {
                NaiveDate::from_ymd_opt(y + 1, 1, 1).unwrap()
            } else {
                NaiveDate::from_ymd_opt(y, m + 1, 1).unwrap()
            };
            let days = (next - first).num_days() as u32;
            assert_eq!(month_length(y, m), days);
        }
    }
}

#[test]
fn date_new_accepts_exactly_the_calendar_dates() {
    assert!(Date::new(2024, 2, 29).is_some());
    assert!(Date::new(2023, 2, 29).is_none());
    assert!(Date::new(2024, 13, 1).is_none());
    assert!(Date::new(2024, 0, 1).is_none());
    assert!(Date::new(2024, 4, 31).is_none());
    assert!(Date::new(2024, 1, 0).is_none());
    assert!(Date::new(MAX_YEAR, 12, 31).is_some());
    assert!(Date::new(MAX_YEAR + 1, 1, 1).is_none());
    assert!(Date::new(MIN_YEAR, 1, 1).is_some());
    assert!(Date::new(MIN_YEAR - 1, 12, 31).is_none());
    assert!(NaiveDate::from_ymd_opt(MAX_YEAR, 12, 31).is_some());
    assert!(NaiveDate::from_ymd_opt(MAX_YEAR + 1, 1, 1).is_none());
    assert!(NaiveDate::from_ymd_opt(MIN_YEAR, 1, 1).is_some());
    assert!(NaiveDate::from_ymd_opt(MIN_YEAR - 1, 12, 31).is_none());
}

#[test]
fn successor_and_predecessor_walk_the_calendar() {
    assert_eq!(date(2023, 12, 31).succ_opt(), Some(date(2024, 1, 1)));
    assert_eq!(date(2024, 2, 28).succ_opt(), Some(date(2024, 2, 29)));
    assert_eq!(date(2024, 3, 1).pred_opt(), Some(date(2024, 2, 29)));
    assert_eq!(date(2023, 3, 1).pred_opt(), Some(date(2023, 2, 28)));
    assert_eq!(date(MAX_YEAR, 12, 31).succ_opt(), None);
    assert_eq!(date(MIN_YEAR, 1, 1).pred_opt(), None);
    let mut d = date(1999, 12, 1);
    let mut c = NaiveDate::from_ymd_opt(1999, 12, 1).unwrap();
    for _ in 0..800 {
        let n = d.succ_opt().unwrap();
        let cn = c.succ_opt().unwrap();
        assert_eq!((n.year, n.month, n.day), (cn.year(), cn.month(), cn.day()));
        assert_eq!(n.pred_opt(), Some(d));
        d = n;
        c = cn;
    }
}

#[test]
fn dates_and_instants_are_ordered_by_the_calendar() {
    assert!(date(2023, 12, 31).is_before(&date(2024, 1, 1)));
    assert!(!date(2024, 1, 1).is_before(&date(2024, 1, 1)));
    assert!(date(2024, 1, 2).is_before(&date(2024, 2, 1)));
    let a = at(2024, 5, 1, 9, 0, 0);
    let b = at(2024, 5, 1, 9, 0, 1);
    assert!(a.is_before(&b));
    assert!(!b.is_before(&a));
    assert!(a.is_at_or_before(&a));
    assert!(!a.is_before(&a));
    let leap = DateTime {
        date: date(2016, 12, 31),
        time: Time::from_hms_nano(23, 59, 59, 1_500_000_000).unwrap(),
    };
    let before_leap = DateTime {
        date: date(2016, 12, 31),
        time: Time::from_hms_nano(23, 59, 59, 999_999_999).unwrap(),
    };
    assert!(before_leap.is_before(&leap));
    assert!(leap.is_before(&at(2017, 1, 1, 0, 0, 0)));
}

#[test]
fn times_of_day_are_checked() {
    assert!(Time::from_hms(24, 0, 0).is_none());
    assert!(Time::from_hms(23, 60, 0).is_none());
    assert!(Time::from_hms(23, 59, 60).is_none());
    assert!(Time::from_hms(23, 59, 59).is_some());
    assert!(Time::from_hms_nano(23, 59, 59, 1_500_000_000).is_some());
    assert!(Time::from_hms_nano(23, 59, 58, 1_500_000_000).is_none());
    assert!(Time::from_hms_nano(23, 59, 59, 2_000_000_000).is_none());
    let m = Time::midnight();
    assert_eq!((m.hour, m.minute, m.second, m.nano), (0, 0, 0, 0));
    assert!(m.is_before(&Time::from_hms_nano(0, 0, 0, 1).unwrap()));
}

#[test]
fn adding_minutes_matches_chrono() {
    let t = at(2024, 2, 28, 23, 30, 0);
    let later = t.add_minutes(60).unwrap();
    assert_eq!(later, at(2024, 2, 29, 0, 30, 0));
    assert_eq!(at(2023, 12, 31, 23, 59, 59).add_minutes(1).unwrap(), at(2024, 1, 1, 0, 0, 59));
    assert_eq!(at(MAX_YEAR, 12, 31, 23, 0, 0).add_minutes(60), None);
    assert_eq!(at(MAX_YEAR, 12, 31, 22, 59, 59).add_minutes(60), Some(at(MAX_YEAR, 12, 31, 23, 59, 59)));
    let samples = [
        at(2024, 1, 31, 23, 1, 2),
        at(1999, 12, 31, 12, 0, 0),
        at(2100, 2, 28, 23, 59, 0),
        at(-44, 3, 15, 10, 10, 10),
    ];
    for s in samples.iter() {
        for m in [0u32, 1, 59, 60, 61, 1439, 1440, 100_000, 3_000_000] {
            let ours = s.add_minutes(m).unwrap();
            let theirs = to_chrono(s)
                .checked_add_signed(TimeDelta::try_minutes(m as i64).unwrap())
                .unwrap();
            assert_eq!(ours, from_chrono(theirs));
        }
    }
    let leap = DateTime {
        date: date(2016, 12, 31),
        time: Time::from_hms_nano(23, 59, 59, 1_250_000_000).unwrap(),
    };
    let ours = leap.add_minutes(60).unwrap();
    let theirs = to_chrono(&leap).checked_add_signed(TimeDelta::try_minutes(60).unwrap()).unwrap();
    assert_eq!(ours, from_chrono(theirs));
}

#[test]
fn midnight_of_a_date() {
    let m = DateTime::at_midnight(date(2024, 6, 1));
    assert_eq!(m, at(2024, 6, 1, 0, 0, 0));
}
