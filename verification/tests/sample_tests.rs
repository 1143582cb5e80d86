use chrono::{Datelike, NaiveDate, NaiveTime, TimeDelta};
use mytime::calendar::{Date, DateTime, MAX_YEAR, MIN_YEAR};
use mytime::sample::{activity_groups, plan_day, plan_day_from, plan_test_data, test_data_days, EntryDraw};

fn date(y: i32, m: u32, d: u32) -> Date {
    Date::new(y, m, d).unwrap()
}

fn to_chrono(t: &DateTime) -> chrono::NaiveDateTime {
    NaiveDate::from_ymd_opt(t.date.year, t.date.month, t.date.day)
        .unwrap()
        .and_time(NaiveTime::from_hms_opt(t.time.hour, t.time.minute, t.time.second).unwrap())
}

#[test]
fn the_activity_table() {
    let groups = activity_groups();
    assert_eq!(groups.len(), 6);
    assert_eq!(groups[0].category, "工作");
    assert_eq!(groups[0].activities.len(), 6);
    assert_eq!(groups[0].activities[0], "编写代码");
    assert_eq!(groups[2].activities, &["跑步", "健身", "游泳", "瑜伽", "篮球"]);
    assert_eq!(groups[5].category, "其他");
}

#[test]
fn a_generated_day_has_the_documented_shape() {
    let groups = activity_groups();
    let mut rng = rand::thread_rng();
    for _ in 0..200 {
        let d = date(2024, 2, 29);
        let plan = plan_day(&mut rng, d, &groups);
        assert_eq!(plan.date, d);
        assert!(plan.entries.len() >= 2 && plan.entries.len() <= 5);
        let mut last_end = to_chrono(&DateTime {
            date: d,
            time: mytime::calendar::Time::from_hms(9, 0, 0).unwrap(),
        });
        for e in plan.entries.iter() {
            let start = to_chrono(&e.start_time);
            let end = to_chrono(&e.end_time);
            let gap = (start - last_end).num_minutes();
            let length = (end - start).num_minutes();
            assert!((30..=120).contains(&gap), "gap {}", gap);
            assert!((30..=180).contains(&length), "length {}", length);
            assert_eq!(e.start_time.time.second, 0);
            let group = groups.iter().find(|g| g.category == e.category).unwrap();
            assert!(group.activities.contains(&e.activity.as_str()));
            assert_eq!(e.description, format!("进行{}活动", e.activity));
            last_end = end;
        }
    }
}

#[test]
fn test_data_covers_every_day_in_order() {
    let mut rng = rand::thread_rng();
    let plans = plan_test_data(&mut rng, date(2024, 2, 27), date(2024, 3, 2));
    let days: Vec<Date> = plans.iter().map(|p| p.date).collect();
    assert_eq!(
        days,
        vec![date(2024, 2, 27), date(2024, 2, 28), date(2024, 2, 29), date(2024, 3, 1), date(2024, 3, 2)]
    );
    assert!(plan_test_data(&mut rng, date(2024, 3, 2), date(2024, 3, 1)).is_empty());
    assert_eq!(plan_test_data(&mut rng, date(2024, 3, 2), date(2024, 3, 2)).len(), 1);
}

#[test]
fn the_days_of_test_data() {
    assert_eq!(test_data_days(date(2024, 3, 1), 30), Some((date(2024, 1, 31), date(2024, 3, 1))));
    assert_eq!(test_data_days(date(2024, 3, 1), 0), Some((date(2024, 3, 1), date(2024, 3, 1))));
    assert_eq!(test_data_days(date(2024, 3, 1), -2), Some((date(2024, 3, 3), date(2024, 3, 1))));
    assert_eq!(test_data_days(date(MIN_YEAR, 1, 1), 1), None);
    assert_eq!(test_data_days(date(MAX_YEAR, 12, 31), -1), None);
    assert_eq!(test_data_days(date(2024, 3, 1), i64::MAX), None);
    assert_eq!(test_data_days(date(2024, 3, 1), i64::MIN), None);
    let today = NaiveDate::from_ymd_opt(2023, 10, 15).unwrap();
    for n in [1i64, 7, 365, 10_000] {
        let first = today - TimeDelta::try_days(n).unwrap();
        let (ours, last) = test_data_days(date(2023, 10, 15), n).unwrap();
        assert_eq!(last, date(2023, 10, 15));
        assert_eq!((ours.year, ours.month, ours.day), (first.year(), first.month(), first.day()));
    }
}

#[test]
fn a_day_planned_from_its_draws() {
    let groups = activity_groups();
    let draws = vec![
        EntryDraw { group: groups[1], activity: "编程练习", gap: 30, length: 180 },
        EntryDraw { group: groups[4], activity: "看电影", gap: 120, length: 30 },
        EntryDraw { group: groups[0], activity: "开会", gap: 45, length: 75 },
    ];
    let d = date(2024, 12, 31);
    let plan = plan_day_from(d, &draws);
    assert_eq!(plan.date, d);
    assert_eq!(plan.entries.len(), 3);
    let times: Vec<(String, String)> = plan
        .entries
        .iter()
        .map(|e| (mytime::formatting::format_datetime(&e.start_time), mytime::formatting::format_datetime(&e.end_time)))
        .collect();
    assert_eq!(
        times,
        vec![
            ("2024-12-31 09:30:00".to_string(), "2024-12-31 12:30:00".to_string()),
            ("2024-12-31 14:30:00".to_string(), "2024-12-31 15:00:00".to_string()),
            ("2024-12-31 15:45:00".to_string(), "2024-12-31 17:00:00".to_string()),
        ]
    );
    assert_eq!(plan.entries[0].category, "学习");
    assert_eq!(plan.entries[1].activity, "看电影");
    assert_eq!(plan.entries[2].description, "进行开会活动");
    let late = vec![
        EntryDraw { group: groups[3], activity: "散步", gap: 120, length: 180 },
        EntryDraw { group: groups[3], activity: "午休", gap: 120, length: 180 },
        EntryDraw { group: groups[3], activity: "冥想", gap: 120, length: 180 },
        EntryDraw { group: groups[3], activity: "小憩", gap: 120, length: 180 },
        EntryDraw { group: groups[3], activity: "散步", gap: 120, length: 180 },
    ];
    let plan = plan_day_from(d, &late);
    assert_eq!(
        mytime::formatting::format_datetime(&plan.entries[4].end_time),
        "2025-01-01 10:00:00"
    );
}
