use chrono::{Datelike, NaiveDate, NaiveTime, Timelike};
use mytime::calendar::{Date, DateTime, Time, MAX_YEAR, MIN_YEAR};
use mytime::i18n::Language;
use mytime::model::{
    checked_stats_range, day_range, error_message, parse_date, parse_datetime, parse_time,
    prepare_end, prepare_insert, prepare_start, prepare_update, stats_range, validate_entry,
    validate_text, ActivityForm, AppError, CurrentActivity, EntryForm, StatsView, TimeEntry,
};

fn date(y: i32, m: u32, d: u32) -> Date {
    Date::new(y, m, d).unwrap()
}

fn at(y: i32, m: u32, d: u32, h: u32, min: u32, s: u32) -> DateTime {
    DateTime { date: date(y, m, d), time: Time::from_hms(h, min, s).unwrap() }
}

fn entry(id: i64, start: DateTime, end: DateTime, activity: &str, category: &str) -> TimeEntry {
    TimeEntry {
        id,
        start_time: start,
        end_time: end,
        activity: activity.to_string(),
        category: category.to_string(),
        location: "家".to_string(),
        description: " notes ".to_string(),
    }
}

#[test]
fn text_validation_checks_activity_first() {
    assert!(matches!(validate_text("", "工作"), Err(AppError::EmptyActivity)));
    assert!(matches!(validate_text(" \t", ""), Err(AppError::EmptyActivity)));
    assert!(matches!(validate_text(" 编码 ", "  "), Err(AppError::EmptyCategory)));
    assert!(validate_text("编码", "工作").is_ok());
}

#[test]
fn entry_validation_needs_a_positive_span() {
    let a = at(2024, 5, 1, 9, 0, 0);
    let b = at(2024, 5, 1, 10, 0, 0);
    assert!(validate_entry(a, b, "x", "y").is_ok());
    assert!(matches!(validate_entry(b, a, "x", "y"), Err(AppError::InvalidTimeRange)));
    assert!(matches!(validate_entry(a, a, "x", "y"), Err(AppError::InvalidTimeRange)));
    assert!(matches!(validate_entry(b, a, "", "y"), Err(AppError::EmptyActivity)));
    assert!(matches!(validate_entry(b, a, "x", " "), Err(AppError::EmptyCategory)));
}

#[test]
fn dates_are_parsed_as_chrono_parses_them() {
    assert_eq!(parse_date("2024-02-29").unwrap(), date(2024, 2, 29));
    assert_eq!(parse_date("  2024-02-29\t").unwrap(), date(2024, 2, 29));
    assert!(matches!(parse_date("2023-02-29"), Err(AppError::InvalidDate)));
    assert!(matches!(parse_date("2024/02/01"), Err(AppError::InvalidDate)));
    assert!(matches!(parse_date(""), Err(AppError::InvalidDate)));
    assert_eq!(parse_date("+12345-01-01").unwrap(), date(12345, 1, 1));
    assert_eq!(parse_date("-0001-12-31").unwrap(), date(-1, 12, 31));
    for s in ["2024-1-5", "2024-01-05", "99-01-01", "2024-13-01", "2024-00-10", "abc", "2024-01-05x",
        " 1999-12-31 ", "2024-02-30", "20240101"]
    {
        let theirs = NaiveDate::parse_from_str(s.trim(), "%Y-%m-%d").ok();
        let ours = parse_date(s).ok();
        assert_eq!(
            ours.map(|d| (d.year, d.month, d.day)),
            theirs.map(|d| (d.year(), d.month(), d.day())),
            "text {:?}",
            s
        );
    }
}

#[test]
fn clock_times_are_parsed_as_chrono_parses_them() {
    let t = parse_time("09:05").unwrap();
    assert_eq!((t.hour, t.minute, t.second, t.nano), (9, 5, 0, 0));
    assert!(matches!(parse_time("24:00"), Err(AppError::InvalidClockTime)));
    assert!(matches!(parse_time("12:60"), Err(AppError::InvalidClockTime)));
    assert!(matches!(parse_time("noon"), Err(AppError::InvalidClockTime)));
    for s in ["9:5", "09:05", " 23:59 ", "23:59:10", "7", "00:00", "-1:00"] {
        let theirs = NaiveTime::parse_from_str(s.trim(), "%H:%M").ok();
        let ours = parse_time(s).ok();
        assert_eq!(
            ours.map(|t| (t.hour, t.minute)),
            theirs.map(|t| (t.hour(), t.minute())),
            "text {:?}",
            s
        );
    }
}

#[test]
fn date_and_time_fields_combine() {
    assert_eq!(parse_datetime("2024-05-01", "09:30").unwrap(), at(2024, 5, 1, 9, 30, 0));
    assert!(matches!(parse_datetime("2024-05-32", "09:30"), Err(AppError::InvalidDate)));
    assert!(matches!(parse_datetime("2024-05-01", "9h30"), Err(AppError::InvalidClockTime)));
    assert!(matches!(parse_datetime("bad", "bad"), Err(AppError::InvalidDate)));
}

#[test]
fn the_day_range_runs_midnight_to_midnight() {
    let (s, e) = day_range(date(2024, 2, 28));
    assert_eq!(s, at(2024, 2, 28, 0, 0, 0));
    assert_eq!(e, at(2024, 2, 29, 0, 0, 0));
    let (s, e) = day_range(date(2023, 12, 31));
    assert_eq!(s, at(2023, 12, 31, 0, 0, 0));
    assert_eq!(e, at(2024, 1, 1, 0, 0, 0));
    assert!(at(2023, 12, 30, 23, 59, 59).is_before(&s));
    assert!(s.is_at_or_before(&at(2023, 12, 31, 23, 59, 59)));
    assert!(at(2023, 12, 31, 23, 59, 59).is_before(&e));
    assert!(!at(2024, 1, 1, 0, 0, 0).is_before(&e));
}

#[test]
fn statistics_ranges() {
    assert_eq!(
        stats_range(date(2024, 3, 3), StatsView::Week),
        (at(2024, 2, 26, 0, 0, 0), at(2024, 3, 4, 0, 0, 0), false)
    );
    assert_eq!(
        stats_range(date(2024, 12, 15), StatsView::Month),
        (at(2024, 12, 1, 0, 0, 0), at(2025, 1, 1, 0, 0, 0), false)
    );
    assert_eq!(
        stats_range(date(2024, 2, 29), StatsView::Month),
        (at(2024, 2, 1, 0, 0, 0), at(2024, 3, 1, 0, 0, 0), false)
    );
    assert_eq!(
        stats_range(date(2024, 7, 9), StatsView::Year),
        (at(2024, 1, 1, 0, 0, 0), at(2025, 1, 1, 0, 0, 0), true)
    );
    assert_eq!(
        stats_range(date(MAX_YEAR, 12, 15), StatsView::Month),
        (at(MAX_YEAR, 12, 1, 0, 0, 0), at(MAX_YEAR, 12, 1, 0, 0, 0), false)
    );
    assert_eq!(
        stats_range(date(MAX_YEAR, 3, 15), StatsView::Year),
        (at(MAX_YEAR, 1, 1, 0, 0, 0), at(MAX_YEAR, 1, 1, 0, 0, 0), true)
    );
    assert_eq!(checked_stats_range(date(MAX_YEAR, 12, 31), StatsView::Week), None);
    assert_eq!(checked_stats_range(date(MIN_YEAR, 1, 6), StatsView::Week), None);
    assert_eq!(
        checked_stats_range(date(MIN_YEAR, 1, 7), StatsView::Week),
        Some((at(MIN_YEAR, 1, 1, 0, 0, 0), at(MIN_YEAR, 1, 8, 0, 0, 0), false))
    );
}

#[test]
fn durations_in_whole_seconds() {
    let e = entry(1, at(2024, 5, 1, 9, 0, 0), at(2024, 5, 1, 10, 30, 15), "a", "b");
    assert_eq!(e.duration_seconds(), 5415);
    let back = entry(1, at(2024, 5, 2, 0, 0, 0), at(2024, 5, 1, 23, 0, 0), "a", "b");
    assert_eq!(back.duration_seconds(), -3600);
    let mut frac = entry(1, at(2024, 5, 1, 9, 0, 0), at(2024, 5, 1, 9, 0, 1), "a", "b");
    frac.start_time.time.nano = 600_000_000;
    assert_eq!(frac.duration_seconds(), 0);
    let days = entry(1, at(2023, 1, 1, 0, 0, 0), at(2024, 1, 1, 0, 0, 0), "a", "b");
    assert_eq!(days.duration_seconds(), 365 * 86400);
}

#[test]
fn a_new_form_starts_now_and_ends_an_hour_later() {
    let f = EntryForm::new_at(at(2024, 2, 28, 23, 30, 45));
    assert_eq!(f.id, None);
    assert_eq!(f.start_date, "2024-02-28");
    assert_eq!(f.start_time, "23:30");
    assert_eq!(f.end_date, "2024-02-29");
    assert_eq!(f.end_time, "00:30");
    assert_eq!(f.activity, "");
    assert_eq!(f.category, "工作");
    assert_eq!(f.location, "");
    assert_eq!(f.description, "");
    let (reading, g) = EntryForm::new_default();
    let g = g.unwrap();
    assert_eq!(g.start_date, mytime::formatting::format_date(&reading.date));
    assert_eq!(g.start_time, mytime::formatting::format_hm(&reading.time));
    assert_eq!(g.end_time, mytime::formatting::format_hm(&reading.add_minutes(60).unwrap().time));
    assert_eq!(g.category, "工作");
    assert!(parse_date(&g.start_date).is_ok());
    assert!(parse_time(&g.end_time).is_ok());
    let now = chrono::Local::now().naive_local();
    let today = now.date().format("%Y-%m-%d").to_string();
    let yesterday = (now.date() - chrono::TimeDelta::try_days(1).unwrap()).format("%Y-%m-%d").to_string();
    assert!(g.start_date == today || g.start_date == yesterday);
}

#[test]
fn a_new_activity_form_is_empty() {
    let f = ActivityForm::new();
    assert_eq!(f.activity, "");
    assert_eq!(f.category, "工作");
    assert_eq!(f.location, "");
    assert_eq!(f.description, "");
}

#[test]
fn editing_an_entry_and_reading_it_back() {
    let mut e = entry(42, at(2024, 5, 1, 9, 15, 30), at(2024, 5, 1, 10, 45, 59), "编码", "工作");
    e.end_time.time.nano = 123;
    let f = EntryForm::from_entry(&e);
    assert_eq!(f.id, Some(42));
    assert_eq!(f.start_date, "2024-05-01");
    assert_eq!(f.start_time, "09:15");
    assert_eq!(f.end_date, "2024-05-01");
    assert_eq!(f.end_time, "10:45");
    assert_eq!(f.location, "家");
    let back = f.to_entry().unwrap();
    assert_eq!(back.id, 42);
    assert_eq!(back.start_time, at(2024, 5, 1, 9, 15, 0));
    assert_eq!(back.end_time, at(2024, 5, 1, 10, 45, 0));
    assert_eq!(back.activity, "编码");
    assert_eq!(back.category, "工作");
    assert_eq!(back.location, "家");
    assert_eq!(back.description, " notes ");
}

#[test]
fn forms_with_bad_fields() {
    let mut f = EntryForm::new_at(at(2024, 1, 1, 8, 0, 0));
    assert_eq!(f.to_entry().unwrap().id, 0);
    f.end_time = "8:61".to_string();
    assert!(matches!(f.to_entry(), Err(AppError::InvalidClockTime)));
    f.start_date = "2024-02-30".to_string();
    assert!(matches!(f.to_entry(), Err(AppError::InvalidDate)));
}

#[test]
fn error_messages_in_each_language() {
    let cases = [
        (AppError::InvalidTimeRange, "开始时间必须早于结束时间", "Start time must be earlier than end time"),
        (AppError::EmptyActivity, "活动名称不能为空", "Activity name cannot be empty"),
        (AppError::EmptyCategory, "类别不能为空", "Category cannot be empty"),
        (AppError::NoActiveActivity, "没有正在进行的活动", "No activity in progress"),
        (AppError::InvalidDate, "日期格式应为 YYYY-MM-DD", "Date must be in YYYY-MM-DD format"),
        (AppError::InvalidClockTime, "时间格式应为 HH:MM", "Time must be in HH:MM format"),
    ];
    for (e, zh, en) in cases.iter() {
        assert_eq!(error_message(Language::Chinese, e), *zh);
        assert_eq!(error_message(Language::English, e), *en);
        assert_eq!(e.display_text(), *zh);
        assert_eq!(format!("{:?}", e.duplicate()), format!("{:?}", e));
    }
    let db = AppError::Database("disk full".to_string());
    assert_eq!(error_message(Language::Chinese, &db), "数据库错误: disk full");
    assert_eq!(error_message(Language::English, &db), "Database error: disk full");
    assert_eq!(db.display_text(), "数据库错误: disk full");
}

#[test]
fn rows_to_store_are_validated_and_trimmed() {
    let a = at(2024, 5, 1, 9, 0, 0);
    let b = at(2024, 5, 1, 10, 0, 0);
    let row = prepare_insert(a, b, "  编码 ", " 工作", " 家 ", "\tnotes\n").unwrap();
    assert_eq!(row.start_time, a);
    assert_eq!(row.end_time, b);
    assert_eq!(row.activity, "编码");
    assert_eq!(row.category, "工作");
    assert_eq!(row.location, "家");
    assert_eq!(row.description, "notes");
    assert!(matches!(prepare_insert(b, a, "x", "y", "", ""), Err(AppError::InvalidTimeRange)));
    assert!(matches!(prepare_insert(a, b, " ", "y", "", ""), Err(AppError::EmptyActivity)));
    let e = entry(7, a, b, " 阅读 ", "学习");
    let row = prepare_update(&e).unwrap();
    assert_eq!(row.activity, "阅读");
    assert_eq!(row.description, "notes");
    let bad = entry(7, b, a, "阅读", "学习");
    assert!(matches!(prepare_update(&bad), Err(AppError::InvalidTimeRange)));
}

#[test]
fn starting_and_ending_an_activity() {
    let now = at(2024, 5, 1, 9, 0, 0);
    let c = prepare_start(now, " 跑步 ", "运动", " 公园", "").unwrap();
    assert_eq!(c.start_time, now);
    assert_eq!(c.activity, "跑步");
    assert_eq!(c.location, "公园");
    assert!(matches!(prepare_start(now, "", "运动", "", ""), Err(AppError::EmptyActivity)));
    assert!(matches!(prepare_start(now, "跑步", "", "", ""), Err(AppError::EmptyCategory)));
    let later = at(2024, 5, 1, 9, 45, 0);
    let row = prepare_end(Some(c.duplicate()), later).unwrap();
    assert_eq!(row.start_time, now);
    assert_eq!(row.end_time, later);
    assert_eq!(row.activity, "跑步");
    assert!(matches!(prepare_end(None, later), Err(AppError::NoActiveActivity)));
    assert!(matches!(prepare_end(Some(c), now), Err(AppError::InvalidTimeRange)));
    let early = CurrentActivity {
        start_time: later,
        activity: "x".to_string(),
        category: "y".to_string(),
        location: String::new(),
        description: String::new(),
    };
    assert!(matches!(prepare_end(Some(early), now), Err(AppError::InvalidTimeRange)));
}

#[test]
fn elapsed_time_of_the_tracked_activity() {
    let c = CurrentActivity {
        start_time: at(2024, 5, 1, 9, 0, 0),
        activity: "x".to_string(),
        category: "y".to_string(),
        location: String::new(),
        description: String::new(),
    };
    assert_eq!(c.elapsed_seconds(&at(2024, 5, 1, 9, 25, 30)), 1530);
    assert_eq!(c.elapsed_seconds(&at(2024, 5, 2, 9, 0, 0)), 86400);
    assert_eq!(c.elapsed_seconds(&at(2024, 5, 1, 8, 59, 0)), -60);
}

#[test]
fn written_dates_and_times_read_back() {
    let mut d = date(-3, 11, 20);
    for _ in 0..2000 {
        let text = mytime::formatting::format_date(&d);
        assert_eq!(parse_date(&text).unwrap(), d, "text {}", text);
        for _ in 0..37 {
            d = d.succ_opt().unwrap();
        }
    }
    for d in [date(MAX_YEAR, 12, 31), date(MIN_YEAR, 1, 1), date(10000, 1, 1), date(-10000, 2, 29), date(9999, 12, 31)] {
        let text = mytime::formatting::format_date(&d);
        assert_eq!(parse_date(&text).unwrap(), d, "text {}", text);
    }
    for h in 0..24u32 {
        for m in 0..60u32 {
            let t = Time::from_hms(h, m, 17).unwrap();
            let back = parse_time(&mytime::formatting::format_hm(&t)).unwrap();
            assert_eq!((back.hour, back.minute, back.second, back.nano), (h, m, 0, 0));
        }
    }
}

#[test]
fn durations_round_toward_zero() {
    let mut e = entry(1, at(2024, 5, 1, 9, 0, 1), at(2024, 5, 1, 9, 0, 0), "a", "b");
    e.start_time.time.nano = 400_000_000;
    assert_eq!(e.duration_seconds(), -1);
    e.start_time = at(2024, 5, 1, 9, 0, 0);
    e.start_time.time.nano = 600_000_000;
    assert_eq!(e.duration_seconds(), 0);
    e.end_time = at(2024, 5, 1, 9, 0, 2);
    assert_eq!(e.duration_seconds(), 1);
}

#[test]
fn entry_lengths_in_whole_seconds() {
    let e = entry(1, at(2024, 1, 2, 9, 0, 0), at(2024, 1, 2, 10, 30, 30), "a", "b");
    assert_eq!(e.duration_seconds(), 5430);
    assert_eq!(mytime::formatting::format_entry_minutes(e.duration_seconds()), "90.5");
    let form = EntryForm {
        id: Some(7),
        start_date: "2024-01-02".to_string(),
        start_time: "09:30".to_string(),
        end_date: " 2024-01-02 ".to_string(),
        end_time: "10:45".to_string(),
        activity: "Run".to_string(),
        category: "运动".to_string(),
        location: String::new(),
        description: String::new(),
    };
    let x = form.to_entry().unwrap();
    assert_eq!(x.id, 7);
    assert_eq!(x.duration_seconds(), 75 * 60);
}
