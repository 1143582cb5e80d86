//! Test data for trying the tracker out: for every day of a range, two to
//! five activities drawn at random from a fixed table, one after another
//! from nine in the morning.
use vstd::prelude::*;
use vstd::string::*;
use rand::rngs::ThreadRng;
use rand::seq::SliceRandom;
use rand::Rng;
use chrono::{Datelike, NaiveDate, TimeDelta};
use crate::clock::minutes_later;
use crate::calendar::{
    date_lt, day_number, instant_secs, lemma_next_date, max_date, min_date, next_date, Date,
    DateTime, Time,
};

verus! {

#[verifier::external_type_specification]
#[verifier::external_body]
pub struct ExThreadRng(ThreadRng);

/// A category and the activities that belong to it.
#[derive(Clone, Copy, Debug)]
pub struct ActivityGroup {
    pub category: &'static str,
    pub activities: &'static [&'static str],
}

/// The table that test activities are drawn from.
pub open spec fn activity_table() -> Seq<(Seq<char>, Seq<Seq<char>>)> {
    seq![
        ("工作"@, seq!["编写代码"@, "开会"@, "项目规划"@, "代码审查"@, "修复 bug"@, "系统维护"@]),
        ("学习"@, seq!["阅读技术书籍"@, "在线课程学习"@, "编程练习"@, "算法学习"@, "英语学习"@]),
        ("运动"@, seq!["跑步"@, "健身"@, "游泳"@, "瑜伽"@, "篮球"@]),
        ("休息"@, seq!["午休"@, "小憩"@, "冥想"@, "散步"@]),
        ("娱乐"@, seq!["看电影"@, "玩游戏"@, "听音乐"@, "阅读小说"@, "刷视频"@]),
        ("其他"@, seq!["购物"@, "整理房间"@, "做饭"@, "社交活动"@])
    ]
}

pub open spec fn group_matches(g: ActivityGroup, row: (Seq<char>, Seq<Seq<char>>)) -> bool {
    &&& g.category@ == row.0
    &&& g.activities@.len() == row.1.len()
    &&& forall|k: int| 0 <= k < row.1.len() ==> (#[trigger] g.activities@[k])@ == row.1[k]
}

/// The table of categories and activities.
pub fn activity_groups() -> (r: Vec<ActivityGroup>)
    ensures
        r@.len() == activity_table().len(),
        forall|i: int| 0 <= i < r@.len() ==> group_matches(#[trigger] r@[i], activity_table()[i]),
{
    let mut groups: Vec<ActivityGroup> = Vec::new();
    groups.push(ActivityGroup { category: "工作", activities: &["编写代码", "开会", "项目规划", "代码审查", "修复 bug", "系统维护"] });
    groups.push(ActivityGroup { category: "学习", activities: &["阅读技术书籍", "在线课程学习", "编程练习", "算法学习", "英语学习"] });
    groups.push(ActivityGroup { category: "运动", activities: &["跑步", "健身", "游泳", "瑜伽", "篮球"] });
    groups.push(ActivityGroup { category: "休息", activities: &["午休", "小憩", "冥想", "散步"] });
    groups.push(ActivityGroup { category: "娱乐", activities: &["看电影", "玩游戏", "听音乐", "阅读小说", "刷视频"] });
    groups.push(ActivityGroup { category: "其他", activities: &["购物", "整理房间", "做饭", "社交活动"] });
    proof {
        assert forall|i: int| 0 <= i < groups@.len() implies group_matches(
            #[trigger] groups@[i],
            activity_table()[i],
        ) by {
            let g = groups@[i];
            let row = activity_table()[i];
            assert forall|k: int| 0 <= k < row.1.len() implies (#[trigger] g.activities@[k])@
                == row.1[k] by {}
        }
    }
    groups
}

/// One generated entry.
#[derive(Debug)]
pub struct GeneratedEntry {
    pub start_time: DateTime,
    pub end_time: DateTime,
    pub activity: String,
    pub category: String,
    pub description: String,
}

/// The entries generated for one day.
#[derive(Debug)]
pub struct DayPlan {
    pub date: Date,
    pub entries: Vec<GeneratedEntry>,
}

/// Nine o'clock on `d`, where each day's activities begin.
pub open spec fn day_start_secs(d: Date) -> int {
    day_number(d) * 86400 + 9 * 3600
}

/// An entry drawn from the table: its category and activity are a row of
/// the table and one of that row's activities, and it is described as
/// "进行{activity}活动".
pub open spec fn entry_from_table(e: GeneratedEntry) -> bool {
    &&& exists|g: int|
        0 <= g < activity_table().len() && e.category@ == activity_table()[g].0
            && activity_table()[g].1.contains(#[trigger] e.activity@)
    &&& e.description@ == "进行"@ + e.activity@ + "活动"@
}

/// Entry `j` of a generated day: valid instants; a category and activity of
/// the table; it starts 30 to 120 whole minutes after nine o'clock (the
/// first) or after the previous entry ends, and lasts 30 to 180 whole
/// minutes.
#[verifier::opaque]
pub open spec fn entry_shape(es: Seq<GeneratedEntry>, d: Date, j: int) -> bool {
    let prev = if j == 0 {
        day_start_secs(d)
    } else {
        instant_secs(es[j - 1].end_time)
    };
    &&& es[j].start_time.wf()
    &&& es[j].end_time.wf()
    &&& entry_from_table(es[j])
    &&& 1800 <= instant_secs(es[j].end_time) - instant_secs(es[j].start_time) <= 10800
    &&& (instant_secs(es[j].end_time) - instant_secs(es[j].start_time)) % 60 == 0
    &&& 1800 <= instant_secs(es[j].start_time) - prev <= 7200
    &&& (instant_secs(es[j].start_time) - prev) % 60 == 0
}

/// The shape of a generated day: two to five entries, each as
/// `entry_shape` says.
pub open spec fn day_plan_ok(p: DayPlan, d: Date) -> bool {
    &&& p.date == d
    &&& 2 <= p.entries@.len() <= 5
    &&& forall|j: int| 0 <= j < p.entries@.len() ==> #[trigger] entry_shape(p.entries@, d, j)
}

/// A number drawn uniformly from `low..=high`: `Rng::gen_range`. Claimed
/// only that it lies in the range.
#[verifier::external_body]
fn draw_between(rng: &mut ThreadRng, low: u32, high: u32) -> (r: u32)
    requires
        low <= high,
    ensures
        low <= r <= high,
{
    rng.gen_range(low..=high)
}

/// An element drawn uniformly from a non-empty slice: `SliceRandom::choose`.
/// Claimed only that it is one of the slice's elements.
#[verifier::external_body]
fn draw_from<T: Copy>(items: &[T], rng: &mut ThreadRng) -> (r: T)
    requires
        items@.len() > 0,
    ensures
        items@.contains(r),
{
    *items.choose(rng).unwrap()
}

/// The date `days` days before `d`: `d.checked_sub_signed(TimeDelta::try_days(days)?)`.
/// Claimed: the result, when there is one, is the valid date whose day
/// number is `days` lower; there is none exactly when that number lies
/// outside the calendar.
#[verifier::external_body]
pub(crate) fn date_minus_days(d: Date, days: i64) -> (r: Option<Date>)
    requires
        d.wf(),
    ensures
        r matches Some(e) ==> e.wf() && day_number(e) == day_number(d) - days,
        r is None <==> (day_number(d) - days < day_number(min_date()) || day_number(d) - days
            > day_number(max_date())),
{
    let e = NaiveDate::from_ymd_opt(d.year, d.month, d.day)?.checked_sub_signed(
        TimeDelta::try_days(days)?,
    )?;
    Some(Date { year: e.year(), month: e.month(), day: e.day() })
}

fn describe(activity: &str) -> (r: String)
    ensures
        r@ == "进行"@ + activity@ + "活动"@,
{
    let mut s = "进行".to_owned();
    s.append(activity);
    s.append("活动");
    s
}

/// What is drawn for one entry: its group, its activity, the minutes before
/// it starts and the minutes it lasts.
#[derive(Clone, Copy, Debug)]
pub struct EntryDraw {
    pub group: ActivityGroup,
    pub activity: &'static str,
    pub gap: u32,
    pub length: u32,
}

/// Draws that a day can be planned from: two to five of them, each group a
/// row of the table with one of its activities, gaps of 30 to 120 minutes and
/// lengths of 30 to 180 minutes.
pub open spec fn draws_ok(draws: Seq<EntryDraw>) -> bool {
    &&& 2 <= draws.len() <= 5
    &&& forall|j: int|
        0 <= j < draws.len() ==> {
            &&& exists|g: int|
                0 <= g < activity_table().len() && group_matches(
                    (#[trigger] draws[j]).group,
                    activity_table()[g],
                )
            &&& draws[j].group.activities@.contains(draws[j].activity)
            &&& 30 <= draws[j].gap <= 120
            &&& 30 <= draws[j].length <= 180
        }
}

/// Nine o'clock on `d`.
pub open spec fn nine_oclock(d: Date) -> DateTime {
    DateTime { date: d, time: Time { hour: 9, minute: 0, second: 0, nano: 0 } }
}

/// Entry `j` follows draw `j`: it starts `gap` minutes after nine o'clock
/// (the first) or after the previous entry ends, lasts `length` minutes, and
/// has the drawn category and activity.
#[verifier::opaque]
pub open spec fn entry_follows(es: Seq<GeneratedEntry>, d: Date, draws: Seq<EntryDraw>, j: int) -> bool {
    let prev = if j == 0 {
        nine_oclock(d)
    } else {
        es[j - 1].end_time
    };
    &&& Some(es[j].start_time) == minutes_later(prev, draws[j].gap as int)
    &&& Some(es[j].end_time) == minutes_later(es[j].start_time, draws[j].length as int)
    &&& es[j].category@ == draws[j].group.category@
    &&& es[j].activity@ == draws[j].activity@
    &&& es[j].description@ == "进行"@ + draws[j].activity@ + "活动"@
}

/// The plan holds one entry per draw, in order, as `entry_follows` says.
pub open spec fn plan_follows(p: DayPlan, d: Date, draws: Seq<EntryDraw>) -> bool {
    &&& p.date == d
    &&& p.entries@.len() == draws.len()
    &&& forall|j: int| 0 <= j < p.entries@.len() ==> #[trigger] entry_follows(p.entries@, d, draws, j)
}

/// Appending the entry for the next draw keeps the entries before it and
/// makes the new one follow its draw in the shape of a generated day.
proof fn lemma_plan_step(
    es: Seq<GeneratedEntry>,
    x: GeneratedEntry,
    d: Date,
    draws: Seq<EntryDraw>,
    prev: DateTime,
)
    requires
        d.wf(),
        es.len() < draws.len(),
        draws_ok(draws),
        prev.wf(),
        prev == (if es.len() == 0 {
            nine_oclock(d)
        } else {
            es[es.len() - 1].end_time
        }),
        Some(x.start_time) == minutes_later(prev, draws[es.len() as int].gap as int),
        Some(x.end_time) == minutes_later(x.start_time, draws[es.len() as int].length as int),
        x.start_time.wf(),
        x.end_time.wf(),
        instant_secs(x.start_time) == instant_secs(prev) + 60 * draws[es.len() as int].gap,
        instant_secs(x.end_time) == instant_secs(x.start_time) + 60 * draws[es.len() as int].length,
        x.category@ == draws[es.len() as int].group.category@,
        x.activity@ == draws[es.len() as int].activity@,
        x.description@ == "进行"@ + draws[es.len() as int].activity@ + "活动"@,
        forall|j: int|
            #![trigger entry_follows(es, d, draws, j)]
            #![trigger entry_shape(es, d, j)]
            0 <= j < es.len() ==> entry_follows(es, d, draws, j) && entry_shape(es, d, j),
    ensures
        forall|j: int|
            #![trigger entry_follows(es.push(x), d, draws, j)]
            #![trigger entry_shape(es.push(x), d, j)]
            0 <= j < es.len() + 1 ==> entry_follows(es.push(x), d, draws, j) && entry_shape(
                es.push(x),
                d,
                j,
            ),
{
    let k = es.len() as int;
    let dr = draws[k];
    let t = es.push(x);
    assert(instant_secs(nine_oclock(d)) == day_start_secs(d));
    let gi = choose|g: int| 0 <= g < activity_table().len() && group_matches(dr.group, activity_table()[g]);
    let ai = choose|i: int| 0 <= i < dr.group.activities@.len() && dr.group.activities@[i] == dr.activity;
    assert(activity_table()[gi].1[ai] == x.activity@);
    assert(activity_table()[gi].1.contains(x.activity@));
    assert(entry_from_table(x));
    assert(t[k] == x);
    assert forall|j: int|
        #![trigger entry_follows(t, d, draws, j)]
        #![trigger entry_shape(t, d, j)]
        0 <= j < k + 1 implies entry_follows(t, d, draws, j) && entry_shape(t, d, j) by {
        if j < k {
            assert(entry_follows(es, d, draws, j) && entry_shape(es, d, j));
            assert(t[j] == es[j]);
            if j > 0 {
                assert(t[j - 1] == es[j - 1]);
            }
            assert(entry_follows(t, d, draws, j)) by {
                reveal(entry_follows);
            }
            assert(entry_shape(t, d, j)) by {
                reveal(entry_shape);
            }
        } else {
            if k > 0 {
                assert(t[k - 1] == es[k - 1]);
            }
            assert(60 * (dr.gap as int) % 60 == 0);
            assert(60 * (dr.length as int) % 60 == 0);
            assert(entry_follows(t, d, draws, j)) by {
                reveal(entry_follows);
            }
            assert(entry_shape(t, d, j)) by {
                reveal(entry_shape);
            }
        }
    }
}

/// The entries of one day from what was drawn for them.
pub fn plan_day_from(date: Date, draws: &Vec<EntryDraw>) -> (r: DayPlan)
    requires
        date.wf(),
        next_date(date) is Some,
        draws_ok(draws@),
    ensures
        plan_follows(r, date, draws@),
        day_plan_ok(r, date),
{
    let start = DateTime { date, time: Time { hour: 9, minute: 0, second: 0, nano: 0 } };
    let count = draws.len();
    let mut entries: Vec<GeneratedEntry> = Vec::new();
    let mut last_end = start;
    let mut k: usize = 0;
    proof {
        lemma_next_date(date);
        crate::calendar::lemma_day_number_order(date, max_date());
    }
    while k < count
        invariant
            date.wf(),
            day_number(date) < day_number(max_date()),
            draws_ok(draws@),
            count == draws@.len(),
            k <= count,
            entries@.len() == k,
            last_end.wf(),
            last_end.time.nano == 0,
            last_end == (if k == 0 {
                nine_oclock(date)
            } else {
                entries@[k - 1].end_time
            }),
            instant_secs(last_end) <= day_start_secs(date) + k * 18000,
            forall|j: int|
                #![trigger entry_follows(entries@, date, draws@, j)]
                #![trigger entry_shape(entries@, date, j)]
                0 <= j < entries@.len() ==> entry_follows(entries@, date, draws@, j)
                    && entry_shape(entries@, date, j),
        decreases count - k,
    {
        let d = draws[k];
        let gap = d.gap;
        let length = d.length;
        let start_time = match last_end.add_minutes(gap) {
            Some(t) => t,
            None => {
                proof {
                    assert(false);
                }
                return DayPlan { date, entries };
            },
        };
        let end_time = match start_time.add_minutes(length) {
            Some(t) => t,
            None => {
                proof {
                    assert(false);
                }
                return DayPlan { date, entries };
            },
        };
        let entry = GeneratedEntry {
            start_time,
            end_time,
            activity: d.activity.to_owned(),
            category: d.group.category.to_owned(),
            description: describe(d.activity),
        };
        proof {
            lemma_plan_step(entries@, entry, date, draws@, last_end);
        }
        entries.push(entry);
        last_end = end_time;
        k = k + 1;
    }
    DayPlan { date, entries }
}

/// The entries of one day: the number of entries is drawn first, then for
/// each entry its group, its activity, the gap before it and its length.
pub fn plan_day(rng: &mut ThreadRng, date: Date, groups: &Vec<ActivityGroup>) -> (r: DayPlan)
    requires
        date.wf(),
        next_date(date) is Some,
        groups@.len() == activity_table().len(),
        forall|i: int| 0 <= i < groups@.len() ==> group_matches(#[trigger] groups@[i], activity_table()[i]),
    ensures
        day_plan_ok(r, date),
        exists|draws: Seq<EntryDraw>| draws_ok(draws) && #[trigger] plan_follows(r, date, draws),
{
    let count = draw_between(rng, 2, 5);
    let mut draws: Vec<EntryDraw> = Vec::new();
    let mut k: u32 = 0;
    while k < count
        invariant
            2 <= count <= 5,
            k <= count,
            draws@.len() == k,
            groups@.len() == activity_table().len(),
            forall|i: int| 0 <= i < groups@.len() ==> group_matches(#[trigger] groups@[i], activity_table()[i]),
            forall|j: int|
                0 <= j < draws@.len() ==> {
                    &&& exists|g: int|
                        0 <= g < activity_table().len() && group_matches(
                            (#[trigger] draws@[j]).group,
                            activity_table()[g],
                        )
                    &&& draws@[j].group.activities@.contains(draws@[j].activity)
                    &&& 30 <= draws@[j].gap <= 120
                    &&& 30 <= draws@[j].length <= 180
                },
        decreases count - k,
    {
        let group = draw_from(groups.as_slice(), rng);
        let activity: &'static str = draw_from(group.activities, rng);
        let gap = draw_between(rng, 30, 120);
        let length = draw_between(rng, 30, 180);
        let ghost before = draws@;
        draws.push(EntryDraw { group, activity, gap, length });
        proof {
            let gi = choose|i: int| 0 <= i < groups@.len() && groups@[i] == group;
            assert(group_matches(groups@[gi], activity_table()[gi]));
            assert forall|j: int| 0 <= j < k implies draws@[j] == before[j] by {}
            assert(draws@[k as int].group == group);
        }
        k = k + 1;
    }
    let plan = plan_day_from(date, &draws);
    plan
}

/// The days that test data for `days` days covers: from `days` days before
/// `today` up to `today`. `None` where the first day would leave the
/// calendar.
pub fn test_data_days(today: Date, days: i64) -> (r: Option<(Date, Date)>)
    requires
        today.wf(),
    ensures
        match r {
            Some((first, last)) => last == today && first.wf() && day_number(first) == day_number(
                today,
            ) - days,
            None => day_number(today) - days < day_number(min_date()) || day_number(today) - days
                > day_number(max_date()),
        },
{
    match date_minus_days(today, days) {
        Some(first) => Some((first, today)),
        None => None,
    }
}

/// Test data for every day from `first` to `last`, in order.
pub fn plan_test_data(rng: &mut ThreadRng, first: Date, last: Date) -> (r: Vec<DayPlan>)
    requires
        first.wf(),
        last.wf(),
        !date_lt(last, first) ==> next_date(last) is Some,
    ensures
        r@.len() == (if date_lt(last, first) { 0 } else { day_number(last) - day_number(first) + 1 }),
        forall|i: int|
            0 <= i < r@.len() ==> day_number((#[trigger] r@[i]).date) == day_number(first) + i
                && r@[i].date.wf() && day_plan_ok(r@[i], r@[i].date),
{
    let groups = activity_groups();
    let mut plans: Vec<DayPlan> = Vec::new();
    let mut current = first;
    proof {
        crate::calendar::lemma_day_number_order(first, last);
    }
    while !last.is_before(&current)
        invariant
            first.wf(),
            last.wf(),
            current.wf(),
            !date_lt(last, first) ==> next_date(last) is Some,
            date_lt(last, first) ==> current == first,
            !date_lt(last, first) ==> day_number(current) <= day_number(last) + 1,
            day_number(current) == day_number(first) + plans@.len(),
            groups@.len() == activity_table().len(),
            forall|i: int| 0 <= i < groups@.len() ==> group_matches(#[trigger] groups@[i], activity_table()[i]),
            forall|i: int|
                0 <= i < plans@.len() ==> day_number((#[trigger] plans@[i]).date) == day_number(first) + i
                    && plans@[i].date.wf() && day_plan_ok(plans@[i], plans@[i].date),
        decreases day_number(last) + 1 - day_number(current),
    {
        proof {
            crate::calendar::lemma_day_number_order(last, current);
            crate::calendar::lemma_day_number_order(current, last);
            if current != last {
                lemma_next_date(current);
            }
            lemma_next_date(last);
        }
        let plan = plan_day(rng, current, &groups);
        plans.push(plan);
        proof {
            lemma_next_date(current);
        }
        current = current.succ_opt().unwrap();
    }
    proof {
        crate::calendar::lemma_day_number_order(last, current);
        crate::calendar::lemma_day_number_order(last, first);
    }
    plans
}

} // verus!
