//! The calls into `chrono` that the tracker's logic makes: reading the local
//! clock, parsing dates and times of day from text, the length of the span
//! between two instants, and the instant some minutes later.
use vstd::prelude::*;
use chrono::{Datelike, NaiveDate, NaiveTime, TimeDelta, Timelike};
use crate::calendar::{day_number, instant_secs, max_date, Date, DateTime, Time};
use crate::formatting::{date_text, hm_text};

verus! {

/// What `NaiveDate::parse_from_str(text, "%Y-%m-%d")` gives for `text`, as
/// (year, month, day).
pub uninterp spec fn parsed_date(text: Seq<char>) -> Option<(int, int, int)>;

/// What `NaiveTime::parse_from_str(text, "%H:%M")` gives for `text`, as
/// (hour, minute).
pub uninterp spec fn parsed_clock_time(text: Seq<char>) -> Option<(int, int)>;

/// What `dt.checked_add_signed(TimeDelta::minutes(minutes))` gives.
pub uninterp spec fn minutes_later(dt: DateTime, minutes: int) -> Option<DateTime>;

/// What `(later - earlier).num_seconds()` gives for two `NaiveDateTime`s.
pub uninterp spec fn seconds_between(later: DateTime, earlier: DateTime) -> int;

/// The nanoseconds from 0001-01-01 00:00:00 to `dt`, for a time of day that
/// is not in a leap second.
pub open spec fn instant_nanos(dt: DateTime) -> int {
    instant_secs(dt) * 1_000_000_000 + dt.time.nano
}

/// Division by 1_000_000_000 rounded toward zero.
pub open spec fn whole_seconds_of(nanos: int) -> int {
    if nanos >= 0 {
        nanos / 1_000_000_000
    } else {
        -((-nanos) / 1_000_000_000)
    }
}

/// Reads the local wall clock: `Local::now().naive_local()`.
///
/// The reading depends on the moment of the call; all that is claimed is that
/// it is a valid date and time of day, which every `NaiveDateTime` is.
#[verifier::external_body]
pub(crate) fn local_now() -> (r: DateTime)
    ensures
        r.wf(),
{
    let now = chrono::Local::now().naive_local();
    DateTime {
        date: Date { year: now.year(), month: now.month(), day: now.day() },
        time: Time {
            hour: now.hour(),
            minute: now.minute(),
            second: now.second(),
            nano: now.nanosecond(),
        },
    }
}

/// Parses a date with `NaiveDate::parse_from_str(text, "%Y-%m-%d")`.
///
/// Claimed: the result is the named parse of the text, every date it yields
/// is a valid `NaiveDate`, and the text that `%Y-%m-%d` writes for a valid
/// date parses back to that date (the year is read with an optional sign and
/// any number of digits, month and day with up to two digits).
#[verifier::external_body]
pub(crate) fn chrono_parse_date(text: &str) -> (r: Option<Date>)
    ensures
        r is Some <==> parsed_date(text@) is Some,
        r matches Some(d) ==> d.wf() && parsed_date(text@) == Some(
            (d.year as int, d.month as int, d.day as int),
        ),
        forall|d: Date| d.wf() && text@ == #[trigger] date_text(d) ==> r == Some(d),
{
    match NaiveDate::parse_from_str(text, "%Y-%m-%d") {
        Ok(d) => Some(Date { year: d.year(), month: d.month(), day: d.day() }),
        Err(_) => None,
    }
}

/// Parses a time of day with `NaiveTime::parse_from_str(text, "%H:%M")`.
///
/// Claimed: the result is the named parse of the text, it is a valid hour and
/// minute (the seconds are zero), and the `%H:%M` text of a valid hour and
/// minute parses back to them.
#[verifier::external_body]
pub(crate) fn chrono_parse_clock_time(text: &str) -> (r: Option<Time>)
    ensures
        r is Some <==> parsed_clock_time(text@) is Some,
        r matches Some(t) ==> t.hour < 24 && t.minute < 60 && t.second == 0 && t.nano == 0
            && parsed_clock_time(text@) == Some((t.hour as int, t.minute as int)),
        forall|t: Time|
            t.hour < 24 && t.minute < 60 && text@ == #[trigger] hm_text(t) ==> r == Some(
                Time { hour: t.hour, minute: t.minute, second: 0, nano: 0 },
            ),
{
    match NaiveTime::parse_from_str(text, "%H:%M") {
        Ok(t) => Some(Time { hour: t.hour(), minute: t.minute(), second: t.second(), nano: 0 }),
        Err(_) => None,
    }
}

/// The whole seconds from `earlier` to `later`:
/// `later.signed_duration_since(earlier).num_seconds()`.
///
/// Claimed: the named result; outside leap seconds it is the nanosecond
/// difference divided by 1_000_000_000 and rounded toward zero. Inside a leap
/// second chrono counts the leap second in its own way, which is left to the
/// name.
#[verifier::external_body]
pub(crate) fn chrono_seconds_between(later: &DateTime, earlier: &DateTime) -> (r: i64)
    requires
        later.wf(),
        earlier.wf(),
    ensures
        r == seconds_between(*later, *earlier),
        later.time.nano < 1_000_000_000 && earlier.time.nano < 1_000_000_000 ==> r
            == whole_seconds_of(instant_nanos(*later) - instant_nanos(*earlier)),
{
    let a = NaiveDate::from_ymd_opt(later.date.year, later.date.month, later.date.day).unwrap()
        .and_hms_nano_opt(later.time.hour, later.time.minute, later.time.second, later.time.nano)
        .unwrap();
    let b = NaiveDate::from_ymd_opt(earlier.date.year, earlier.date.month, earlier.date.day)
        .unwrap().and_hms_nano_opt(
        earlier.time.hour,
        earlier.time.minute,
        earlier.time.second,
        earlier.time.nano,
    ).unwrap();
    a.signed_duration_since(b).num_seconds()
}

/// The instant `minutes` minutes after `dt`:
/// `NaiveDateTime::checked_add_signed(TimeDelta::try_minutes(minutes))`.
///
/// Claimed: the named result; it is `None` exactly when the date would pass
/// the last date of the calendar; otherwise it is a valid instant whose whole
/// second lies `60 * minutes` seconds after that of `dt`, with the same
/// fraction of a second (a leap second's extra second is dropped once the
/// time moves on).
#[verifier::external_body]
pub(crate) fn chrono_add_minutes(dt: &DateTime, minutes: u32) -> (r: Option<DateTime>)
    requires
        dt.wf(),
    ensures
        r == minutes_later(*dt, minutes as int),
        r is None <==> day_number(dt.date) + (dt.time.secs_of_day() + 60 * minutes) / 86400
            > day_number(max_date()),
        r matches Some(n) ==> n.wf() && instant_secs(n) == instant_secs(*dt) + 60 * minutes
            && n.time.nano == (if minutes == 0 {
            dt.time.nano
        } else {
            dt.time.nano % 1_000_000_000
        }),
{
    let t = NaiveDate::from_ymd_opt(dt.date.year, dt.date.month, dt.date.day).unwrap()
        .and_hms_nano_opt(dt.time.hour, dt.time.minute, dt.time.second, dt.time.nano).unwrap();
    let n = t.checked_add_signed(TimeDelta::try_minutes(minutes as i64)?)?;
    Some(DateTime {
        date: Date { year: n.year(), month: n.month(), day: n.day() },
        time: Time { hour: n.hour(), minute: n.minute(), second: n.second(), nano: n.nanosecond() },
    })
}

} // verus!
