//! The proleptic Gregorian calendar that time entries live in: dates, times of
//! day and their combination, with the range of years that the storage layer
//! can represent.
use vstd::prelude::*;
use crate::clock::{chrono_add_minutes, minutes_later};

verus! {

/// The earliest year a date may have.
pub const MIN_YEAR: i32 = -262143;

/// The latest year a date may have.
pub const MAX_YEAR: i32 = 262142;

/// Gregorian leap years: divisible by 4, except centuries not divisible by 400.
pub open spec fn is_leap_year(y: int) -> bool {
    y % 4 == 0 && (y % 100 != 0 || y % 400 == 0)
}

pub open spec fn leap_days(y: int) -> int {
    if is_leap_year(y) {
        1
    } else {
        0
    }
}

pub open spec fn days_in_month(y: int, m: int) -> int {
    if m == 2 {
        28 + leap_days(y)
    } else if m == 4 || m == 6 || m == 9 || m == 11 {
        30
    } else {
        31
    }
}

pub open spec fn valid_ymd(y: int, m: int, d: int) -> bool {
    &&& MIN_YEAR <= y <= MAX_YEAR
    &&& 1 <= m <= 12
    &&& 1 <= d <= days_in_month(y, m)
}

/// A calendar date.
#[derive(Clone, Copy, Debug, PartialEq, Eq, Structural)]
pub struct Date {
    pub year: i32,
    pub month: u32,
    pub day: u32,
}

/// A time of day; `nano` reaches into 1_000_000_000..2_000_000_000 only
/// during a leap second, which is then written as second 59.
#[derive(Clone, Copy, Debug, PartialEq, Eq, Structural)]
pub struct Time {
    pub hour: u32,
    pub minute: u32,
    pub second: u32,
    pub nano: u32,
}

/// A date together with a time of day, without a time zone.
#[derive(Clone, Copy, Debug, PartialEq, Eq, Structural)]
pub struct DateTime {
    pub date: Date,
    pub time: Time,
}

impl Date {
    pub open spec fn wf(self) -> bool {
        valid_ymd(self.year as int, self.month as int, self.day as int)
    }
}

impl Time {
    pub open spec fn wf(self) -> bool {
        &&& self.hour < 24
        &&& self.minute < 60
        &&& self.second < 60
        &&& self.nano < 2_000_000_000
        &&& self.nano >= 1_000_000_000 ==> self.second == 59
    }

    pub open spec fn secs_of_day(self) -> int {
        self.hour * 3600 + self.minute * 60 + self.second
    }
}

impl DateTime {
    pub open spec fn wf(self) -> bool {
        self.date.wf() && self.time.wf()
    }
}

pub open spec fn min_date() -> Date {
    Date { year: MIN_YEAR, month: 1, day: 1 }
}

pub open spec fn max_date() -> Date {
    Date { year: MAX_YEAR, month: 12, day: 31 }
}

pub open spec fn midnight() -> Time {
    Time { hour: 0, minute: 0, second: 0, nano: 0 }
}

/// The date that follows `d`, if it is representable.
pub open spec fn next_date(d: Date) -> Option<Date> {
    if (d.day as int) < days_in_month(d.year as int, d.month as int) {
        Some(Date { year: d.year, month: d.month, day: (d.day + 1) as u32 })
    } else if d.month < 12 {
        Some(Date { year: d.year, month: (d.month + 1) as u32, day: 1 })
    } else if d.year < MAX_YEAR {
        Some(Date { year: (d.year + 1) as i32, month: 1, day: 1 })
    } else {
        None
    }
}

/// The date that precedes `d`, if it is representable.
pub open spec fn prev_date(d: Date) -> Option<Date> {
    if d.day > 1 {
        Some(Date { year: d.year, month: d.month, day: (d.day - 1) as u32 })
    } else if d.month > 1 {
        Some(
            Date {
                year: d.year,
                month: (d.month - 1) as u32,
                day: days_in_month(d.year as int, d.month - 1) as u32,
            },
        )
    } else if d.year > MIN_YEAR {
        Some(Date { year: (d.year - 1) as i32, month: 12, day: 31 })
    } else {
        None
    }
}

/// Lexicographic order on (year, month, day): the order of the calendar.
pub open spec fn date_lt(a: Date, b: Date) -> bool {
    ||| a.year < b.year
    ||| a.year == b.year && a.month < b.month
    ||| a.year == b.year && a.month == b.month && a.day < b.day
}

pub open spec fn time_lt(a: Time, b: Time) -> bool {
    ||| a.secs_of_day() < b.secs_of_day()
    ||| a.secs_of_day() == b.secs_of_day() && a.nano < b.nano
}

/// The order of instants: by date, then by time of day.
pub open spec fn datetime_lt(a: DateTime, b: DateTime) -> bool {
    ||| date_lt(a.date, b.date)
    ||| a.date == b.date && time_lt(a.time, b.time)
}

pub open spec fn datetime_le(a: DateTime, b: DateTime) -> bool {
    datetime_lt(a, b) || a == b
}

/// Days from 0001-01-01 to the first day of year `y` (negative before it).
pub open spec fn days_before_year(y: int) -> int {
    let p = y - 1;
    365 * p + p / 4 - p / 100 + p / 400
}

pub open spec fn days_before_month(y: int, m: int) -> int
    decreases m,
{
    if m <= 1 {
        0
    } else {
        days_before_month(y, m - 1) + days_in_month(y, m - 1)
    }
}

/// The number of days from 0001-01-01 to `d`: consecutive dates get
/// consecutive numbers.
pub open spec fn day_number(d: Date) -> int {
    days_before_year(d.year as int) + days_before_month(d.year as int, d.month as int) + d.day - 1
}

/// Seconds from 0001-01-01 00:00:00 to the whole second of `dt`.
pub open spec fn instant_secs(dt: DateTime) -> int {
    day_number(dt.date) * 86400 + dt.time.secs_of_day()
}

/// The date `n` days before `d`, if every date on the way is representable.
pub open spec fn retreat_days(d: Date, n: nat) -> Option<Date>
    decreases n,
{
    if n == 0 {
        Some(d)
    } else {
        match prev_date(d) {
            Some(e) => retreat_days(e, (n - 1) as nat),
            None => None,
        }
    }
}

// ---------------------------------------------------------------------------
// Lemmas about the day numbering
// ---------------------------------------------------------------------------

proof fn lemma_div_step(y: int, k: int)
    requires
        k > 0,
    ensures
        y / k - (y - 1) / k == (if y % k == 0 { 1int } else { 0int }),
{
    vstd::arithmetic::div_mod::lemma_fundamental_div_mod(y, k);
    vstd::arithmetic::div_mod::lemma_fundamental_div_mod(y - 1, k);
    let q1 = y / k;
    let q2 = (y - 1) / k;
    let r1 = y % k;
    let r2 = (y - 1) % k;
    assert(k * q1 + r1 == y);
    assert(k * q2 + r2 == y - 1);
    assert(0 <= r1 < k && 0 <= r2 < k);
    assert(k * (q1 - q2) == r2 - r1 + 1) by (nonlinear_arith)
        requires
            k * q1 + r1 == y,
            k * q2 + r2 == y - 1,
    ;
    if q1 - q2 >= 2 {
        assert(k * (q1 - q2) >= 2 * k) by (nonlinear_arith)
            requires
                q1 - q2 >= 2,
                k > 0,
        ;
    } else if q1 - q2 <= -1 {
        assert(k * (q1 - q2) <= -k) by (nonlinear_arith)
            requires
                q1 - q2 <= -1,
                k > 0,
        ;
    }
    if q1 - q2 == 1 {
        assert(k * (q1 - q2) == k) by (nonlinear_arith)
            requires
                q1 - q2 == 1,
        ;
    } else {
        assert(k * (q1 - q2) == 0) by (nonlinear_arith)
            requires
                q1 - q2 == 0,
        ;
    }
}

proof fn lemma_century_rules(y: int)
    ensures
        y % 400 == 0 ==> y % 100 == 0,
        y % 100 == 0 ==> y % 4 == 0,
{
    vstd::arithmetic::div_mod::lemma_fundamental_div_mod(y, 400);
    vstd::arithmetic::div_mod::lemma_fundamental_div_mod(y, 100);
    vstd::arithmetic::div_mod::lemma_fundamental_div_mod(y, 4);
    if y % 400 == 0 {
        let q = y / 400;
        assert(y == 100 * (4 * q));
        vstd::arithmetic::div_mod::lemma_mod_multiples_basic(4 * q, 100);
    }
    if y % 100 == 0 {
        let q = y / 100;
        assert(y == 4 * (25 * q));
        vstd::arithmetic::div_mod::lemma_mod_multiples_basic(25 * q, 4);
    }
}

/// A year has 365 days plus one in leap years.
pub proof fn lemma_year_length(y: int)
    ensures
        days_before_year(y + 1) == days_before_year(y) + 365 + leap_days(y),
{
    lemma_div_step(y, 4);
    lemma_div_step(y, 100);
    lemma_div_step(y, 400);
    lemma_century_rules(y);
}

proof fn lemma_days_before_month_step(y: int, m: int)
    requires
        1 <= m,
    ensures
        days_before_month(y, m + 1) == days_before_month(y, m) + days_in_month(y, m),
{
}

proof fn lemma_days_in_year(y: int)
    ensures
        days_before_month(y, 13) == 365 + leap_days(y),
{
    reveal_with_fuel(days_before_month, 13);
}

proof fn lemma_days_before_month_mono(y: int, m1: int, m2: int)
    requires
        1 <= m1 < m2 <= 13,
    ensures
        days_before_month(y, m1) + days_in_month(y, m1) <= days_before_month(y, m2),
    decreases m2 - m1,
{
    if m2 > m1 + 1 {
        lemma_days_before_month_mono(y, m1, m2 - 1);
    }
}

/// A valid date's number lies within its own year.
proof fn lemma_day_number_in_year(d: Date)
    requires
        d.wf(),
    ensures
        days_before_year(d.year as int) <= day_number(d) < days_before_year(d.year + 1),
{
    lemma_year_length(d.year as int);
    lemma_days_in_year(d.year as int);
    if d.month > 1 {
        lemma_days_before_month_mono(d.year as int, 1, d.month as int);
    }
    if d.month < 12 {
        lemma_days_before_month_mono(d.year as int, d.month as int, 13);
    } else {
        lemma_days_before_month_step(d.year as int, 12);
    }
}

proof fn lemma_days_before_year_mono(y1: int, y2: int)
    requires
        y1 < y2,
    ensures
        days_before_year(y1) + 365 <= days_before_year(y2),
    decreases y2 - y1,
{
    lemma_year_length(y1);
    if y2 > y1 + 1 {
        lemma_days_before_year_mono(y1 + 1, y2);
    }
}

/// The calendar order of valid dates is the order of their day numbers.
pub proof fn lemma_day_number_order(a: Date, b: Date)
    requires
        a.wf(),
        b.wf(),
    ensures
        date_lt(a, b) <==> day_number(a) < day_number(b),
        a == b <==> day_number(a) == day_number(b),
{
    lemma_day_number_in_year(a);
    lemma_day_number_in_year(b);
    if a.year < b.year {
        lemma_days_before_year_mono(a.year + 1, b.year as int + 1);
        if a.year + 1 < b.year {
            lemma_days_before_year_mono(a.year + 1, b.year as int);
        }
    } else if b.year < a.year {
        if b.year + 1 < a.year {
            lemma_days_before_year_mono(b.year + 1, a.year as int);
        }
    } else if a.month < b.month {
        lemma_days_before_month_mono(a.year as int, a.month as int, b.month as int);
    } else if b.month < a.month {
        lemma_days_before_month_mono(a.year as int, b.month as int, a.month as int);
    }
}

/// `next_date` yields a valid date numbered one higher, and fails only on the
/// last representable date.
pub proof fn lemma_next_date(d: Date)
    requires
        d.wf(),
    ensures
        next_date(d) is None <==> d == max_date(),
        next_date(d) matches Some(n) ==> n.wf() && day_number(n) == day_number(d) + 1,
{
    if (d.day as int) < days_in_month(d.year as int, d.month as int) {
    } else if d.month < 12 {
        lemma_days_before_month_step(d.year as int, d.month as int);
    } else {
        lemma_days_before_month_step(d.year as int, 12);
        lemma_days_in_year(d.year as int);
        lemma_year_length(d.year as int);
    }
}

/// `prev_date` yields a valid date numbered one lower, fails only on the first
/// representable date, and `next_date` undoes it.
pub proof fn lemma_prev_date(d: Date)
    requires
        d.wf(),
    ensures
        prev_date(d) is None <==> d == min_date(),
        prev_date(d) matches Some(p) ==> p.wf() && day_number(p) == day_number(d) - 1 && next_date(
            p,
        ) == Some(d),
{
    if d.day > 1 {
    } else if d.month > 1 {
        lemma_days_before_month_step(d.year as int, d.month - 1);
    } else if d.year > MIN_YEAR {
        lemma_days_before_month_step((d.year - 1) as int, 12);
        lemma_days_in_year((d.year - 1) as int);
        lemma_year_length((d.year - 1) as int);
    }
}

/// Retreating valid dates stays valid and moves the day number back by the
/// step; it fails only before the first representable date.
pub proof fn lemma_retreat_days(d: Date, n: nat)
    requires
        d.wf(),
    ensures
        retreat_days(d, n) matches Some(e) ==> e.wf() && day_number(e) == day_number(d) - n,
        retreat_days(d, n) is None ==> day_number(d) - n < day_number(min_date()),
    decreases n,
{
    if n > 0 {
        lemma_prev_date(d);
        match prev_date(d) {
            Some(e) => {
                lemma_retreat_days(e, (n - 1) as nat);
            },
            None => {
            },
        }
    }
}

/// Outside leap seconds, the order of instants is the order of their
/// nanosecond counts.
pub proof fn lemma_instant_order(a: DateTime, b: DateTime)
    requires
        a.wf(),
        b.wf(),
        a.time.nano < 1_000_000_000,
        b.time.nano < 1_000_000_000,
        datetime_lt(a, b),
    ensures
        instant_secs(a) * 1_000_000_000 + a.time.nano < instant_secs(b) * 1_000_000_000
            + b.time.nano,
{
    lemma_day_number_order(a.date, b.date);
    if date_lt(a.date, b.date) {
        assert(instant_secs(a) + 1 <= instant_secs(b)) by (nonlinear_arith)
            requires
                day_number(a.date) + 1 <= day_number(b.date),
                instant_secs(a) == day_number(a.date) * 86400 + a.time.secs_of_day(),
                instant_secs(b) == day_number(b.date) * 86400 + b.time.secs_of_day(),
                0 <= a.time.secs_of_day() < 86400,
                0 <= b.time.secs_of_day(),
        ;
    } else {
        assert(a.date == b.date);
    }
    assert(instant_secs(a) * 1_000_000_000 + a.time.nano < instant_secs(b) * 1_000_000_000
        + b.time.nano) by (nonlinear_arith)
        requires
            instant_secs(a) + 1 <= instant_secs(b) || (instant_secs(a) == instant_secs(b)
                && a.time.nano < b.time.nano),
            0 <= a.time.nano < 1_000_000_000,
            0 <= b.time.nano,
    ;
}

// ---------------------------------------------------------------------------
// Executable operations
// ---------------------------------------------------------------------------

/// Whether `y` is a leap year.
pub fn leap_year(y: i32) -> (r: bool)
    ensures
        r == is_leap_year(y as int),
{
    let shifted: u64 = (y as i64 + 2147484000i64) as u64;
    proof {
        let k: int = 5368710;
        assert(shifted == 400 * k + y);
        vstd::arithmetic::div_mod::lemma_mod_multiples_vanish(k, y as int, 400);
        vstd::arithmetic::div_mod::lemma_mod_multiples_vanish(4 * k, y as int, 100);
        vstd::arithmetic::div_mod::lemma_mod_multiples_vanish(100 * k, y as int, 4);
    }
    shifted % 4 == 0 && (shifted % 100 != 0 || shifted % 400 == 0)
}

/// The number of days in month `m` of year `y`.
pub fn month_length(y: i32, m: u32) -> (r: u32)
    requires
        1 <= m <= 12,
    ensures
        r == days_in_month(y as int, m as int),
{
    if m == 2 {
        if leap_year(y) {
            29
        } else {
            28
        }
    } else if m == 4 || m == 6 || m == 9 || m == 11 {
        30
    } else {
        31
    }
}

impl Date {
    /// The date `year-month-day`, if it exists and is representable.
    pub fn new(year: i32, month: u32, day: u32) -> (r: Option<Date>)
        ensures
            r is Some <==> valid_ymd(year as int, month as int, day as int),
            r matches Some(d) ==> d == (Date { year, month, day }),
    {
        if year < MIN_YEAR || year > MAX_YEAR || month < 1 || month > 12 || day < 1 {
            return None;
        }
        if day > month_length(year, month) {
            return None;
        }
        Some(Date { year, month, day })
    }

    /// The following date; `None` on the last representable date.
    pub fn succ_opt(&self) -> (r: Option<Date>)
        requires
            self.wf(),
        ensures
            r == next_date(*self),
    {
        if self.day < month_length(self.year, self.month) {
            Some(Date { year: self.year, month: self.month, day: self.day + 1 })
        } else if self.month < 12 {
            Some(Date { year: self.year, month: self.month + 1, day: 1 })
        } else if self.year < MAX_YEAR {
            Some(Date { year: self.year + 1, month: 1, day: 1 })
        } else {
            None
        }
    }

    /// The preceding date; `None` on the first representable date.
    pub fn pred_opt(&self) -> (r: Option<Date>)
        requires
            self.wf(),
        ensures
            r == prev_date(*self),
    {
        if self.day > 1 {
            Some(Date { year: self.year, month: self.month, day: self.day - 1 })
        } else if self.month > 1 {
            Some(
                Date {
                    year: self.year,
                    month: self.month - 1,
                    day: month_length(self.year, self.month - 1),
                },
            )
        } else if self.year > MIN_YEAR {
            Some(Date { year: self.year - 1, month: 12, day: 31 })
        } else {
            None
        }
    }

    /// Calendar order.
    pub fn is_before(&self, other: &Date) -> (r: bool)
        ensures
            r == date_lt(*self, *other),
    {
        self.year < other.year || (self.year == other.year && (self.month < other.month || (
        self.month == other.month && self.day < other.day)))
    }
}

impl Time {
    /// The time `hour:minute:second.nano`, if it is a valid time of day.
    pub fn from_hms_nano(hour: u32, minute: u32, second: u32, nano: u32) -> (r: Option<Time>)
        ensures
            r is Some <==> (Time { hour, minute, second, nano }).wf(),
            r matches Some(t) ==> t == (Time { hour, minute, second, nano }),
    {
        if hour >= 24 || minute >= 60 || second >= 60 || (nano >= 1_000_000_000 && second != 59)
            || nano >= 2_000_000_000 {
            None
        } else {
            Some(Time { hour, minute, second, nano })
        }
    }

    /// The time `hour:minute:second` on the whole second.
    pub fn from_hms(hour: u32, minute: u32, second: u32) -> (r: Option<Time>)
        ensures
            r is Some <==> hour < 24 && minute < 60 && second < 60,
            r matches Some(t) ==> t == (Time { hour, minute, second, nano: 0 }),
    {
        Time::from_hms_nano(hour, minute, second, 0)
    }

    pub fn midnight() -> (r: Time)
        ensures
            r == midnight(),
    {
        Time { hour: 0, minute: 0, second: 0, nano: 0 }
    }

    /// Order of times of day.
    pub fn is_before(&self, other: &Time) -> (r: bool)
        requires
            self.wf(),
            other.wf(),
        ensures
            r == time_lt(*self, *other),
    {
        let a: u32 = self.hour * 3600 + self.minute * 60 + self.second;
        let b: u32 = other.hour * 3600 + other.minute * 60 + other.second;
        a < b || (a == b && self.nano < other.nano)
    }
}

impl DateTime {
    /// Midnight at the start of `date`.
    pub fn at_midnight(date: Date) -> (r: DateTime)
        ensures
            r == (DateTime { date, time: midnight() }),
    {
        DateTime { date, time: Time::midnight() }
    }

    /// Order of instants.
    pub fn is_before(&self, other: &DateTime) -> (r: bool)
        requires
            self.wf(),
            other.wf(),
        ensures
            r == datetime_lt(*self, *other),
    {
        if self.date.is_before(&other.date) {
            true
        } else if self.date == other.date {
            self.time.is_before(&other.time)
        } else {
            false
        }
    }

    /// Whether `self` is not after `other`.
    pub fn is_at_or_before(&self, other: &DateTime) -> (r: bool)
        requires
            self.wf(),
            other.wf(),
        ensures
            r == datetime_le(*self, *other),
    {
        self.is_before(other) || *self == *other
    }

    /// The instant `minutes` minutes later, as `NaiveDateTime + TimeDelta`
    /// computes it; `None` where that would pass the last date of the
    /// calendar.
    pub fn add_minutes(&self, minutes: u32) -> (r: Option<DateTime>)
        requires
            self.wf(),
        ensures
            r == minutes_later(*self, minutes as int),
            r is None <==> day_number(self.date) + (self.time.secs_of_day() + 60 * minutes) / 86400
                > day_number(max_date()),
            r matches Some(n) ==> n.wf() && instant_secs(n) == instant_secs(*self) + 60 * minutes
                && n.time.nano == (if minutes == 0 {
                self.time.nano
            } else {
                self.time.nano % 1_000_000_000
            }),
    {
        chrono_add_minutes(self, minutes)
    }
}

} // verus!
