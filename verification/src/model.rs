//! The tracker's records and forms, the rules that a record must satisfy, the
//! parsing of what the user types into the forms, and the date ranges that
//! the day, week, month and year views cover.
use vstd::prelude::*;
use vstd::string::*;
use crate::calendar::{
    date_lt, datetime_lt, midnight, next_date, retreat_days, Date,
    DateTime, Time, MAX_YEAR,
};
use crate::clock::{
    chrono_parse_clock_time, chrono_parse_date, chrono_seconds_between, instant_nanos, local_now,
    minutes_later, parsed_clock_time, parsed_date, seconds_between, whole_seconds_of,
};
use crate::formatting::{
    date_text, format_date, format_hm, hm_text, lemma_date_text_plain, lemma_hm_text_plain,
};
use crate::i18n::{category_names, default_category, text_of, tr, Language, TextKey};
use crate::text::{is_blank, is_blank_text, lemma_trimmed_plain, trim, trimmed};

verus! {

/// What can go wrong in the tracker.
#[derive(Debug)]
pub enum AppError {
    /// The storage layer failed; the text is its message.
    Database(String),
    InvalidTimeRange,
    EmptyActivity,
    EmptyCategory,
    NoActiveActivity,
    InvalidDate,
    InvalidClockTime,
}

/// The fixed (Chinese) message of an error, as its `Display` shows it.
pub open spec fn error_display_text(e: AppError) -> Seq<char> {
    match e {
        AppError::Database(m) => "数据库错误: "@ + m@,
        AppError::InvalidTimeRange => "开始时间必须早于结束时间"@,
        AppError::EmptyActivity => "活动名称不能为空"@,
        AppError::EmptyCategory => "类别不能为空"@,
        AppError::NoActiveActivity => "没有正在进行的活动"@,
        AppError::InvalidDate => "日期格式应为 YYYY-MM-DD"@,
        AppError::InvalidClockTime => "时间格式应为 HH:MM"@,
    }
}

/// The message of an error in the interface's language.
pub open spec fn error_message_text(language: Language, e: AppError) -> Seq<char> {
    match e {
        AppError::Database(m) => text_of(language, TextKey::DatabaseError) + ": "@ + m@,
        AppError::InvalidTimeRange => text_of(language, TextKey::InvalidTimeRange),
        AppError::EmptyActivity => text_of(language, TextKey::EmptyActivity),
        AppError::EmptyCategory => text_of(language, TextKey::EmptyCategory),
        AppError::NoActiveActivity => text_of(language, TextKey::NoActiveActivity),
        AppError::InvalidDate => text_of(language, TextKey::InvalidDate),
        AppError::InvalidClockTime => text_of(language, TextKey::InvalidClockTime),
    }
}

impl AppError {
    /// A copy of the error.
    pub fn duplicate(&self) -> (r: AppError)
        ensures
            r == *self,
    {
        match self {
            AppError::Database(m) => AppError::Database(m.clone()),
            AppError::InvalidTimeRange => AppError::InvalidTimeRange,
            AppError::EmptyActivity => AppError::EmptyActivity,
            AppError::EmptyCategory => AppError::EmptyCategory,
            AppError::NoActiveActivity => AppError::NoActiveActivity,
            AppError::InvalidDate => AppError::InvalidDate,
            AppError::InvalidClockTime => AppError::InvalidClockTime,
        }
    }

    /// The error's fixed message (what its `Display` writes).
    pub fn display_text(&self) -> (r: String)
        ensures
            r@ == error_display_text(*self),
    {
        match self {
            AppError::Database(m) => {
                let mut s = "数据库错误: ".to_owned();
                s.append(m.as_str());
                s
            },
            AppError::InvalidTimeRange => "开始时间必须早于结束时间".to_owned(),
            AppError::EmptyActivity => "活动名称不能为空".to_owned(),
            AppError::EmptyCategory => "类别不能为空".to_owned(),
            AppError::NoActiveActivity => "没有正在进行的活动".to_owned(),
            AppError::InvalidDate => "日期格式应为 YYYY-MM-DD".to_owned(),
            AppError::InvalidClockTime => "时间格式应为 HH:MM".to_owned(),
        }
    }
}

/// The message of `error` in `language`.
pub fn error_message(language: Language, error: &AppError) -> (r: String)
    ensures
        r@ == error_message_text(language, *error),
{
    match error {
        AppError::Database(m) => {
            let mut s = tr(language, TextKey::DatabaseError).to_owned();
            s.append(": ");
            s.append(m.as_str());
            s
        },
        AppError::InvalidTimeRange => tr(language, TextKey::InvalidTimeRange).to_owned(),
        AppError::EmptyActivity => tr(language, TextKey::EmptyActivity).to_owned(),
        AppError::EmptyCategory => tr(language, TextKey::EmptyCategory).to_owned(),
        AppError::NoActiveActivity => tr(language, TextKey::NoActiveActivity).to_owned(),
        AppError::InvalidDate => tr(language, TextKey::InvalidDate).to_owned(),
        AppError::InvalidClockTime => tr(language, TextKey::InvalidClockTime).to_owned(),
    }
}

/// A recorded stretch of time spent on an activity.
#[derive(Debug)]
pub struct TimeEntry {
    pub id: i64,
    pub start_time: DateTime,
    pub end_time: DateTime,
    pub activity: String,
    pub category: String,
    pub location: String,
    pub description: String,
}

impl TimeEntry {
    pub open spec fn wf(self) -> bool {
        self.start_time.wf() && self.end_time.wf()
    }

    /// A copy of the entry.
    pub fn duplicate(&self) -> (r: TimeEntry)
        ensures
            r == *self,
    {
        TimeEntry {
            id: self.id,
            start_time: self.start_time,
            end_time: self.end_time,
            activity: self.activity.clone(),
            category: self.category.clone(),
            location: self.location.clone(),
            description: self.description.clone(),
        }
    }

    /// The whole seconds from the start to the end of the entry.
    pub fn duration_seconds(&self) -> (r: i64)
        requires
            self.wf(),
        ensures
            r == seconds_between(self.end_time, self.start_time),
            self.start_time.time.nano < 1_000_000_000 && self.end_time.time.nano < 1_000_000_000
                ==> r == whole_seconds_of(
                instant_nanos(self.end_time) - instant_nanos(self.start_time),
            ),
            datetime_lt(self.start_time, self.end_time) && self.start_time.time.nano
                < 1_000_000_000 && self.end_time.time.nano < 1_000_000_000 ==> r >= 0,
    {
        proof {
            if self.start_time.time.nano < 1_000_000_000 && self.end_time.time.nano < 1_000_000_000
                && datetime_lt(self.start_time, self.end_time) {
                crate::calendar::lemma_instant_order(self.start_time, self.end_time);
            }
        }
        chrono_seconds_between(&self.end_time, &self.start_time)
    }
}

/// The activity being tracked in real time, started but not yet ended.
#[derive(Debug)]
pub struct CurrentActivity {
    pub start_time: DateTime,
    pub activity: String,
    pub category: String,
    pub location: String,
    pub description: String,
}

impl CurrentActivity {
    /// The whole seconds from the start of the activity to `now`.
    pub fn elapsed_seconds(&self, now: &DateTime) -> (r: i64)
        requires
            self.start_time.wf(),
            now.wf(),
        ensures
            r == seconds_between(*now, self.start_time),
            self.start_time.time.nano < 1_000_000_000 && now.time.nano < 1_000_000_000 ==> r
                == whole_seconds_of(instant_nanos(*now) - instant_nanos(self.start_time)),
    {
        chrono_seconds_between(now, &self.start_time)
    }

    /// A copy of the activity.
    pub fn duplicate(&self) -> (r: CurrentActivity)
        ensures
            r == *self,
    {
        CurrentActivity {
            start_time: self.start_time,
            activity: self.activity.clone(),
            category: self.category.clone(),
            location: self.location.clone(),
            description: self.description.clone(),
        }
    }
}

/// The tabs of the main window.
#[derive(Clone, Copy, Debug, PartialEq, Eq, Structural)]
pub enum MainTab {
    Timer,
    Records,
    Statistics,
}

/// The period that the statistics cover.
#[derive(Clone, Copy, Debug, PartialEq, Eq, Structural)]
pub enum StatsView {
    Week,
    Month,
    Year,
}

impl StatsView {
    pub open spec fn text_key(self) -> TextKey {
        match self {
            StatsView::Week => TextKey::Week,
            StatsView::Month => TextKey::Month,
            StatsView::Year => TextKey::Year,
        }
    }

    /// The name of the period in `language`.
    pub fn label(self, language: Language) -> (r: &'static str)
        ensures
            r@ == text_of(language, self.text_key()),
    {
        match self {
            StatsView::Week => tr(language, TextKey::Week),
            StatsView::Month => tr(language, TextKey::Month),
            StatsView::Year => tr(language, TextKey::Year),
        }
    }
}

/// The fields of the form that creates or edits an entry, as typed.
#[derive(Debug)]
pub struct EntryForm {
    pub id: Option<i64>,
    pub start_date: String,
    pub start_time: String,
    pub end_date: String,
    pub end_time: String,
    pub activity: String,
    pub category: String,
    pub location: String,
    pub description: String,
}

/// The fields of the form that starts real-time tracking, as typed.
#[derive(Debug)]
pub struct ActivityForm {
    pub activity: String,
    pub category: String,
    pub location: String,
    pub description: String,
}

// ---------------------------------------------------------------------------
// Validation
// ---------------------------------------------------------------------------

/// The activity and the category must hold more than whitespace; the activity
/// is checked first.
pub open spec fn text_check(activity: Seq<char>, category: Seq<char>) -> Result<(), AppError> {
    if is_blank(activity) {
        Err(AppError::EmptyActivity)
    } else if is_blank(category) {
        Err(AppError::EmptyCategory)
    } else {
        Ok(())
    }
}

/// An entry is valid when its texts are and it ends after it starts.
pub open spec fn entry_check(
    start_time: DateTime,
    end_time: DateTime,
    activity: Seq<char>,
    category: Seq<char>,
) -> Result<(), AppError> {
    match text_check(activity, category) {
        Err(e) => Err(e),
        Ok(()) => if datetime_lt(start_time, end_time) {
            Ok(())
        } else {
            Err(AppError::InvalidTimeRange)
        },
    }
}

/// Checks the activity and category names.
pub fn validate_text(activity: &str, category: &str) -> (r: Result<(), AppError>)
    ensures
        r == text_check(activity@, category@),
{
    if is_blank_text(activity) {
        return Err(AppError::EmptyActivity);
    }
    if is_blank_text(category) {
        return Err(AppError::EmptyCategory);
    }
    Ok(())
}

/// Checks the names and that the entry ends after it starts.
pub fn validate_entry(start_time: DateTime, end_time: DateTime, activity: &str, category: &str) -> (r:
    Result<(), AppError>)
    requires
        start_time.wf(),
        end_time.wf(),
    ensures
        r == entry_check(start_time, end_time, activity@, category@),
{
    match validate_text(activity, category) {
        Err(e) => {
            return Err(e);
        },
        Ok(()) => {},
    }
    if end_time.is_at_or_before(&start_time) {
        return Err(AppError::InvalidTimeRange);
    }
    Ok(())
}

// ---------------------------------------------------------------------------
// Parsing the forms
// ---------------------------------------------------------------------------

/// A date typed as `YYYY-MM-DD`, surrounding whitespace ignored.
pub open spec fn date_from_text(s: Seq<char>) -> Result<Date, AppError> {
    match parsed_date(trimmed(s)) {
        Some((y, m, d)) => Ok(Date { year: y as i32, month: m as u32, day: d as u32 }),
        None => Err(AppError::InvalidDate),
    }
}

/// A time of day typed as `HH:MM`, surrounding whitespace ignored.
pub open spec fn clock_time_from_text(s: Seq<char>) -> Result<Time, AppError> {
    match parsed_clock_time(trimmed(s)) {
        Some((h, m)) => Ok(Time { hour: h as u32, minute: m as u32, second: 0, nano: 0 }),
        None => Err(AppError::InvalidClockTime),
    }
}

/// A date and a time of day typed into two fields; the date is read first.
pub open spec fn datetime_from_text(date: Seq<char>, time: Seq<char>) -> Result<
    DateTime,
    AppError,
> {
    match date_from_text(date) {
        Err(e) => Err(e),
        Ok(d) => match clock_time_from_text(time) {
            Err(e) => Err(e),
            Ok(t) => Ok(DateTime { date: d, time: t }),
        },
    }
}

/// Reads a date typed as `YYYY-MM-DD`.
pub fn parse_date(value: &str) -> (r: Result<Date, AppError>)
    ensures
        r == date_from_text(value@),
        r matches Ok(d) ==> d.wf(),
        forall|d: Date| d.wf() && value@ == #[trigger] date_text(d) ==> r == Ok::<Date, AppError>(d),
{
    let t = trim(value);
    proof {
        assert forall|d: Date| d.wf() && value@ == #[trigger] date_text(d) implies t@ == date_text(d) by {
            lemma_date_text_plain(d);
            lemma_trimmed_plain(date_text(d));
        }
    }
    match chrono_parse_date(t.as_str()) {
        Some(d) => Ok(d),
        None => Err(AppError::InvalidDate),
    }
}

/// Reads a time of day typed as `HH:MM`.
pub fn parse_time(value: &str) -> (r: Result<Time, AppError>)
    ensures
        r == clock_time_from_text(value@),
        r matches Ok(t) ==> t.wf(),
        forall|c: Time|
            c.hour < 24 && c.minute < 60 && value@ == #[trigger] hm_text(c) ==> r == Ok::<
                Time,
                AppError,
            >(Time { hour: c.hour, minute: c.minute, second: 0, nano: 0 }),
{
    let t = trim(value);
    proof {
        assert forall|c: Time| c.hour < 24 && c.minute < 60 && value@ == #[trigger] hm_text(c) implies t@
            == hm_text(c) by {
            lemma_hm_text_plain(c);
            lemma_trimmed_plain(hm_text(c));
        }
    }
    match chrono_parse_clock_time(t.as_str()) {
        Some(c) => Ok(c),
        None => Err(AppError::InvalidClockTime),
    }
}

/// Reads a date and a time of day from their two fields.
pub fn parse_datetime(date: &str, time: &str) -> (r: Result<DateTime, AppError>)
    ensures
        r == datetime_from_text(date@, time@),
        r matches Ok(dt) ==> dt.wf(),
        forall|dt: DateTime|
            dt.wf() && #[trigger] shows_datetime(date@, time@, dt) ==> r == Ok::<DateTime, AppError>(
                to_minute(dt),
            ),
{
    match parse_date(date) {
        Err(e) => Err(e),
        Ok(d) => match parse_time(time) {
            Err(e) => Err(e),
            Ok(t) => Ok(DateTime { date: d, time: t }),
        },
    }
}

/// `dt` with its seconds and sub-second part dropped.
pub open spec fn to_minute(dt: DateTime) -> DateTime {
    DateTime { date: dt.date, time: Time { hour: dt.time.hour, minute: dt.time.minute, second: 0, nano: 0 } }
}

/// The two fields show `dt` as a form writes it.
pub open spec fn shows_datetime(date: Seq<char>, time: Seq<char>, dt: DateTime) -> bool {
    date == date_text(dt.date) && time == hm_text(dt.time)
}

/// The form shows `e` as `EntryForm::from_entry` writes it.
pub open spec fn shows_entry(f: EntryForm, e: TimeEntry) -> bool {
    &&& f.id == Some(e.id)
    &&& shows_datetime(f.start_date@, f.start_time@, e.start_time)
    &&& shows_datetime(f.end_date@, f.end_time@, e.end_time)
    &&& f.activity == e.activity
    &&& f.category == e.category
    &&& f.location == e.location
    &&& f.description == e.description
}

// ---------------------------------------------------------------------------
// Ranges of the views
// ---------------------------------------------------------------------------

pub open spec fn at_midnight(d: Date) -> DateTime {
    DateTime { date: d, time: midnight() }
}

/// From midnight of `date` to midnight of the next day.
pub open spec fn day_range_of(date: Date) -> (DateTime, DateTime) {
    (at_midnight(date), at_midnight(next_date(date).unwrap()))
}

/// The range that the statistics for `view` cover around `date`, and whether
/// they are summed by month (otherwise by day): the seven days ending with
/// `date`, the month of `date`, or its year. `None` where the week would run
/// off either end of the calendar. When the following month or year cannot be
/// represented, the range ends where it starts.
pub open spec fn stats_range_of(date: Date, view: StatsView) -> Option<(DateTime, DateTime, bool)> {
    match view {
        StatsView::Week => match next_date(date) {
            None => None,
            Some(end) => match retreat_days(end, 7) {
                None => None,
                Some(start) => Some((at_midnight(start), at_midnight(end), false)),
            },
        },
        StatsView::Month => {
            let start = Date { year: date.year, month: date.month, day: 1 };
            let end = if date.month < 12 {
                Date { year: date.year, month: (date.month + 1) as u32, day: 1 }
            } else if date.year < MAX_YEAR {
                Date { year: (date.year + 1) as i32, month: 1, day: 1 }
            } else {
                start
            };
            Some((at_midnight(start), at_midnight(end), false))
        },
        StatsView::Year => {
            let start = Date { year: date.year, month: 1, day: 1 };
            let end = if date.year < MAX_YEAR {
                Date { year: (date.year + 1) as i32, month: 1, day: 1 }
            } else {
                start
            };
            Some((at_midnight(start), at_midnight(end), true))
        },
    }
}

/// The day that `date` covers, from midnight to midnight.
pub fn day_range(date: Date) -> (r: (DateTime, DateTime))
    requires
        date.wf(),
        next_date(date) is Some,
    ensures
        r == day_range_of(date),
{
    let start = DateTime::at_midnight(date);
    let end = DateTime::at_midnight(date.succ_opt().unwrap());
    (start, end)
}

/// The statistics range for `view` around `date`, or `None` where the week
/// would leave the calendar.
pub fn checked_stats_range(date: Date, view: StatsView) -> (r: Option<(DateTime, DateTime, bool)>)
    requires
        date.wf(),
    ensures
        r == stats_range_of(date, view),
{
    match view {
        StatsView::Week => {
            let end_date = match date.succ_opt() {
                Some(e) => e,
                None => {
                    return None;
                },
            };
            proof {
                crate::calendar::lemma_next_date(date);
            }
            let mut start_date = end_date;
            let mut i: u32 = 0;
            while i < 7
                invariant
                    i <= 7,
                    start_date.wf(),
                    retreat_days(end_date, 7) == retreat_days(start_date, (7 - i) as nat),
                    next_date(date) == Some(end_date),
                    view == StatsView::Week,
                decreases 7 - i,
            {
                proof {
                    crate::calendar::lemma_prev_date(start_date);
                }
                match start_date.pred_opt() {
                    Some(p) => {
                        start_date = p;
                    },
                    None => {
                        return None;
                    },
                }
                i = i + 1;
            }
            Some((DateTime::at_midnight(start_date), DateTime::at_midnight(end_date), false))
        },
        StatsView::Month => {
            let start_date = Date { year: date.year, month: date.month, day: 1 };
            let end_date = if date.month < 12 {
                Date { year: date.year, month: date.month + 1, day: 1 }
            } else if date.year < MAX_YEAR {
                Date { year: date.year + 1, month: 1, day: 1 }
            } else {
                start_date
            };
            Some((DateTime::at_midnight(start_date), DateTime::at_midnight(end_date), false))
        },
        StatsView::Year => {
            let start_date = Date { year: date.year, month: 1, day: 1 };
            let end_date = if date.year < MAX_YEAR {
                Date { year: date.year + 1, month: 1, day: 1 }
            } else {
                start_date
            };
            Some((DateTime::at_midnight(start_date), DateTime::at_midnight(end_date), true))
        },
    }
}

/// The statistics range for `view` around `date` and whether it is summed by
/// month.
pub fn stats_range(date: Date, view: StatsView) -> (r: (DateTime, DateTime, bool))
    requires
        date.wf(),
        stats_range_of(date, view) is Some,
    ensures
        r == stats_range_of(date, view).unwrap(),
{
    checked_stats_range(date, view).unwrap()
}

// ---------------------------------------------------------------------------
// Forms
// ---------------------------------------------------------------------------

/// A manual-entry form for `now`: it starts now and ends an hour later, with
/// the first category and empty texts.
pub open spec fn default_form_fields(form: EntryForm, now: DateTime) -> bool {
    let later = minutes_later(now, 60).unwrap();
    &&& form.id is None
    &&& form.start_date@ == date_text(now.date)
    &&& form.start_time@ == hm_text(now.time)
    &&& form.end_date@ == date_text(later.date)
    &&& form.end_time@ == hm_text(later.time)
    &&& form.activity@ == Seq::<char>::empty()
    &&& form.category@ == category_names()[0].0
    &&& form.location@ == Seq::<char>::empty()
    &&& form.description@ == Seq::<char>::empty()
}

/// The entry that a form describes: its id (zero for a new entry), the start
/// and end read from their fields (start first), and its texts as typed.
pub open spec fn entry_from_form(form: EntryForm) -> Result<TimeEntry, AppError> {
    match datetime_from_text(form.start_date@, form.start_time@) {
        Err(e) => Err(e),
        Ok(start) => match datetime_from_text(form.end_date@, form.end_time@) {
            Err(e) => Err(e),
            Ok(end) => Ok(
                TimeEntry {
                    id: match form.id {
                        Some(i) => i,
                        None => 0,
                    },
                    start_time: start,
                    end_time: end,
                    activity: form.activity,
                    category: form.category,
                    location: form.location,
                    description: form.description,
                },
            ),
        },
    }
}

impl EntryForm {
    /// A new manual-entry form for the moment `now`.
    pub fn new_at(now: DateTime) -> (r: EntryForm)
        requires
            now.wf(),
            minutes_later(now, 60) is Some,
        ensures
            default_form_fields(r, now),
    {
        let later = now.add_minutes(60).unwrap();
        EntryForm {
            id: None,
            start_date: format_date(&now.date),
            start_time: format_hm(&now.time),
            end_date: format_date(&later.date),
            end_time: format_hm(&later.time),
            activity: String::new(),
            category: default_category(),
            location: String::new(),
            description: String::new(),
        }
    }

    /// A new manual-entry form for the current local time, with the reading
    /// of the clock it was made for; no form in the last hour of the
    /// calendar, where the end an hour later cannot be written.
    pub fn new_default() -> (r: (DateTime, Option<EntryForm>))
        ensures
            r.0.wf(),
            r.1 is Some <==> minutes_later(r.0, 60) is Some,
            r.1 matches Some(f) ==> default_form_fields(f, r.0),
    {
        let now = local_now();
        match now.add_minutes(60) {
            Some(_) => (now, Some(EntryForm::new_at(now))),
            None => (now, None),
        }
    }

    /// The form that edits `entry`: its dates as `YYYY-MM-DD`, its times as
    /// `HH:MM` and its texts.
    pub fn from_entry(entry: &TimeEntry) -> (r: EntryForm)
        ensures
            shows_entry(r, *entry),
            r.id == Some(entry.id),
            r.start_date@ == date_text(entry.start_time.date),
            r.start_time@ == hm_text(entry.start_time.time),
            r.end_date@ == date_text(entry.end_time.date),
            r.end_time@ == hm_text(entry.end_time.time),
            r.activity == entry.activity,
            r.category == entry.category,
            r.location == entry.location,
            r.description == entry.description,
    {
        EntryForm {
            id: Some(entry.id),
            start_date: format_date(&entry.start_time.date),
            start_time: format_hm(&entry.start_time.time),
            end_date: format_date(&entry.end_time.date),
            end_time: format_hm(&entry.end_time.time),
            activity: entry.activity.clone(),
            category: entry.category.clone(),
            location: entry.location.clone(),
            description: entry.description.clone(),
        }
    }

    /// The entry the form describes. A form that shows an entry gives that
    /// entry back, its times cut to the minute.
    pub fn to_entry(&self) -> (r: Result<TimeEntry, AppError>)
        ensures
            r == entry_from_form(*self),
            r matches Ok(e) ==> e.wf(),
            forall|e: TimeEntry|
                e.wf() && #[trigger] shows_entry(*self, e) ==> r == Ok::<TimeEntry, AppError>(
                    TimeEntry {
                        start_time: to_minute(e.start_time),
                        end_time: to_minute(e.end_time),
                        ..e
                    },
                ),
    {
        let start_time = match parse_datetime(self.start_date.as_str(), self.start_time.as_str()) {
            Err(e) => {
                return Err(e);
            },
            Ok(t) => t,
        };
        let end_time = match parse_datetime(self.end_date.as_str(), self.end_time.as_str()) {
            Err(e) => {
                return Err(e);
            },
            Ok(t) => t,
        };
        let id = match self.id {
            Some(i) => i,
            None => 0,
        };
        Ok(
            TimeEntry {
                id,
                start_time,
                end_time,
                activity: self.activity.clone(),
                category: self.category.clone(),
                location: self.location.clone(),
                description: self.description.clone(),
            },
        )
    }

    /// A copy of the form.
    pub fn duplicate(&self) -> (r: EntryForm)
        ensures
            r == *self,
    {
        EntryForm {
            id: self.id,
            start_date: self.start_date.clone(),
            start_time: self.start_time.clone(),
            end_date: self.end_date.clone(),
            end_time: self.end_time.clone(),
            activity: self.activity.clone(),
            category: self.category.clone(),
            location: self.location.clone(),
            description: self.description.clone(),
        }
    }
}

impl ActivityForm {
    /// An empty real-time form with the first category.
    pub fn new() -> (r: ActivityForm)
        ensures
            r.activity@ == Seq::<char>::empty(),
            r.category@ == category_names()[0].0,
            r.location@ == Seq::<char>::empty(),
            r.description@ == Seq::<char>::empty(),
    {
        ActivityForm {
            activity: String::new(),
            category: default_category(),
            location: String::new(),
            description: String::new(),
        }
    }

    /// A copy of the form.
    pub fn duplicate(&self) -> (r: ActivityForm)
        ensures
            r == *self,
    {
        ActivityForm {
            activity: self.activity.clone(),
            category: self.category.clone(),
            location: self.location.clone(),
            description: self.description.clone(),
        }
    }
}

// ---------------------------------------------------------------------------
// What is written to storage
// ---------------------------------------------------------------------------

/// An entry as it is stored: validated, with its texts trimmed.
#[derive(Debug)]
pub struct EntryRow {
    pub start_time: DateTime,
    pub end_time: DateTime,
    pub activity: String,
    pub category: String,
    pub location: String,
    pub description: String,
}

/// `row` stores the given entry fields, each text trimmed.
pub open spec fn stores_trimmed(
    row: EntryRow,
    start_time: DateTime,
    end_time: DateTime,
    activity: Seq<char>,
    category: Seq<char>,
    location: Seq<char>,
    description: Seq<char>,
) -> bool {
    &&& row.start_time == start_time
    &&& row.end_time == end_time
    &&& row.activity@ == trimmed(activity)
    &&& row.category@ == trimmed(category)
    &&& row.location@ == trimmed(location)
    &&& row.description@ == trimmed(description)
}

/// The row to insert for a new entry: the entry is validated first and its
/// texts are trimmed.
pub fn prepare_insert(
    start_time: DateTime,
    end_time: DateTime,
    activity: &str,
    category: &str,
    location: &str,
    description: &str,
) -> (r: Result<EntryRow, AppError>)
    requires
        start_time.wf(),
        end_time.wf(),
    ensures
        match r {
            Ok(row) => entry_check(start_time, end_time, activity@, category@) is Ok
                && stores_trimmed(
                row,
                start_time,
                end_time,
                activity@,
                category@,
                location@,
                description@,
            ),
            Err(e) => entry_check(start_time, end_time, activity@, category@) == Err::<(), AppError>(e),
        },
{
    match validate_entry(start_time, end_time, activity, category) {
        Err(e) => {
            return Err(e);
        },
        Ok(()) => {},
    }
    Ok(
        EntryRow {
            start_time,
            end_time,
            activity: trim(activity),
            category: trim(category),
            location: trim(location),
            description: trim(description),
        },
    )
}

/// The row that replaces the stored entry `entry.id`.
pub fn prepare_update(entry: &TimeEntry) -> (r: Result<EntryRow, AppError>)
    requires
        entry.wf(),
    ensures
        match r {
            Ok(row) => entry_check(
                entry.start_time,
                entry.end_time,
                entry.activity@,
                entry.category@,
            ) is Ok && stores_trimmed(
                row,
                entry.start_time,
                entry.end_time,
                entry.activity@,
                entry.category@,
                entry.location@,
                entry.description@,
            ),
            Err(e) => entry_check(
                entry.start_time,
                entry.end_time,
                entry.activity@,
                entry.category@,
            ) == Err::<(), AppError>(e),
        },
{
    prepare_insert(
        entry.start_time,
        entry.end_time,
        entry.activity.as_str(),
        entry.category.as_str(),
        entry.location.as_str(),
        entry.description.as_str(),
    )
}

/// The activity to store when tracking starts at `now`: its names are
/// validated and its texts trimmed.
pub fn prepare_start(
    now: DateTime,
    activity: &str,
    category: &str,
    location: &str,
    description: &str,
) -> (r: Result<CurrentActivity, AppError>)
    ensures
        match r {
            Ok(c) => text_check(activity@, category@) is Ok && c.start_time == now
                && c.activity@ == trimmed(activity@) && c.category@ == trimmed(category@)
                && c.location@ == trimmed(location@) && c.description@ == trimmed(description@),
            Err(e) => text_check(activity@, category@) == Err::<(), AppError>(e),
        },
{
    match validate_text(activity, category) {
        Err(e) => {
            return Err(e);
        },
        Ok(()) => {},
    }
    Ok(
        CurrentActivity {
            start_time: now,
            activity: trim(activity),
            category: trim(category),
            location: trim(location),
            description: trim(description),
        },
    )
}

/// The entry to store when the tracked activity ends at `now`: it runs from
/// the activity's start to `now`; with nothing tracked there is nothing to end.
pub fn prepare_end(current: Option<CurrentActivity>, now: DateTime) -> (r: Result<
    EntryRow,
    AppError,
>)
    requires
        now.wf(),
        current matches Some(c) ==> c.start_time.wf(),
    ensures
        current is None ==> r == Err::<EntryRow, AppError>(AppError::NoActiveActivity),
        current matches Some(c) ==> match r {
            Ok(row) => entry_check(c.start_time, now, c.activity@, c.category@) is Ok
                && stores_trimmed(
                row,
                c.start_time,
                now,
                c.activity@,
                c.category@,
                c.location@,
                c.description@,
            ),
            Err(e) => entry_check(c.start_time, now, c.activity@, c.category@) == Err::<
                (),
                AppError,
            >(e),
        },
{
    match current {
        None => Err(AppError::NoActiveActivity),
        Some(c) => prepare_insert(
            c.start_time,
            now,
            c.activity.as_str(),
            c.category.as_str(),
            c.location.as_str(),
            c.description.as_str(),
        ),
    }
}

} // verus!
