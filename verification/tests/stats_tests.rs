use mytime::calendar::{Date, DateTime, Time};
use mytime::model::TimeEntry;
use mytime::stats::{aggregate_stats, category_seconds, compare_text, entry_period_key, period_seconds};

fn at(y: i32, m: u32, d: u32, h: u32, min: u32) -> DateTime {
    DateTime { date: Date::new(y, m, d).unwrap(), time: Time::from_hms(h, min, 0).unwrap() }
}

fn entry(id: i64, start: DateTime, minutes: u32, category: &str) -> TimeEntry {
    TimeEntry {
        id,
        start_time: start,
        end_time: start.add_minutes(minutes).unwrap(),
        activity: format!("a{}", id),
        category: category.to_string(),
        location: String::new(),
        description: String::new(),
    }
}

#[test]
fn texts_compare_by_code_point() {
    assert_eq!(compare_text("a", "b"), -1);
    assert_eq!(compare_text("b", "a"), 1);
    assert_eq!(compare_text("工作", "工作"), 0);
    assert_eq!(compare_text("ab", "abc"), -1);
    assert_eq!(compare_text("", ""), 0);
    assert_eq!(compare_text("", "a"), -1);
    for (a, b) in [("学习", "工作"), ("2024-01-02", "2024-01-10"), ("Z", "a"), ("é", "e"), ("运动", "休息")] {
        let expected = match a.cmp(b) {
            std::cmp::Ordering::Less => -1,
            std::cmp::Ordering::Equal => 0,
            std::cmp::Ordering::Greater => 1,
        };
        assert_eq!(compare_text(a, b), expected);
    }
}

#[test]
fn period_keys_are_days_or_months() {
    assert_eq!(entry_period_key(&at(2024, 3, 5, 10, 0), false), "2024-03-05");
    assert_eq!(entry_period_key(&at(2024, 3, 5, 10, 0), true), "2024-03");
}

#[test]
fn totals_per_category_and_per_day() {
    let entries = vec![
        entry(1, at(2024, 3, 5, 9, 0), 30, "工作"),
        entry(2, at(2024, 3, 4, 9, 0), 90, "学习"),
        entry(3, at(2024, 3, 5, 13, 0), 60, "工作"),
        entry(4, at(2024, 3, 6, 8, 0), 15, "运动"),
    ];
    let stats = aggregate_stats(entries, false);
    assert_eq!(stats.entries.len(), 4);
    assert_eq!(stats.entries[0].id, 1);
    assert_eq!(stats.entries[3].id, 4);
    assert_eq!(
        stats.category_totals,
        vec![
            ("学习".to_string(), 5400i128),
            ("工作".to_string(), 5400i128),
            ("运动".to_string(), 900i128),
        ]
    );
    assert_eq!(
        stats.period_totals,
        vec![
            ("2024-03-04".to_string(), 5400i128),
            ("2024-03-05".to_string(), 5400i128),
            ("2024-03-06".to_string(), 900i128),
        ]
    );
    let category_sum: i128 = stats.category_totals.iter().map(|p| p.1).sum();
    let period_sum: i128 = stats.period_totals.iter().map(|p| p.1).sum();
    assert_eq!(category_sum, 11700);
    assert_eq!(period_sum, 11700);
    assert_eq!(stats.total_seconds, 11700);
}

#[test]
fn totals_per_month_for_a_year() {
    let entries = vec![
        entry(1, at(2024, 1, 31, 23, 30), 60, "休息"),
        entry(2, at(2024, 2, 1, 9, 0), 30, "休息"),
        entry(3, at(2024, 11, 1, 9, 0), 45, "其他"),
    ];
    let stats = aggregate_stats(entries, true);
    assert_eq!(
        stats.period_totals,
        vec![
            ("2024-01".to_string(), 3600i128),
            ("2024-02".to_string(), 1800i128),
            ("2024-11".to_string(), 2700i128),
        ]
    );
    assert_eq!(
        stats.category_totals,
        vec![("休息".to_string(), 5400i128), ("其他".to_string(), 2700i128)]
    );
}

#[test]
fn no_entries_no_totals() {
    let stats = aggregate_stats(Vec::new(), false);
    assert!(stats.entries.is_empty());
    assert!(stats.category_totals.is_empty());
    assert!(stats.period_totals.is_empty());
    assert_eq!(stats.total_seconds, 0);
}

#[test]
fn seconds_under_each_key_in_entry_order() {
    let entries = vec![
        entry(1, at(2024, 3, 5, 9, 0), 30, "工作"),
        entry(2, at(2024, 3, 4, 9, 0), 90, "学习"),
        entry(3, at(2024, 3, 5, 13, 0), 61, "工作"),
        entry(4, at(2024, 4, 6, 8, 0), 15, "运动"),
    ];
    assert_eq!(category_seconds(&entries, "工作"), vec![1800, 3660]);
    assert_eq!(category_seconds(&entries, "学习"), vec![5400]);
    assert!(category_seconds(&entries, "休息").is_empty());
    assert_eq!(period_seconds(&entries, "2024-03-05", false), vec![1800, 3660]);
    assert_eq!(period_seconds(&entries, "2024-03", true), vec![1800, 5400, 3660]);
    assert_eq!(period_seconds(&entries, "2024-04", true), vec![900]);
    let stats = aggregate_stats(entries, true);
    assert!(stats.by_month);
}
