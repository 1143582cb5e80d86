//! Properties that tie the library's operations together: which instants the
//! day and statistics views read, how the interface's choices round-trip,
//! what the statistics add up to, and what some sequences of actions do.
use vstd::prelude::*;
use crate::app_state::{
    plan_of, transition, AppState, Effect, Message, RangeQuery, RefreshScope, WriteRequest,
};
use crate::calendar::{
    date_lt, datetime_le, datetime_lt, day_number, instant_secs, lemma_day_number_order,
    lemma_next_date, lemma_retreat_days, midnight, next_date, Date, DateTime, MAX_YEAR,
};
use crate::i18n::{
    category_index, category_index_from, category_label_text, category_names,
    category_value_text, lemma_category_index_of_english, lemma_category_index_of_stored,
    Language,
};
use crate::model::{
    at_midnight, date_from_text, day_range_of, stats_range_of, EntryRow, StatsView, TimeEntry,
};
use crate::sample::{day_plan_ok, entry_shape, DayPlan};
use crate::stats::{
    category_keys, entry_seconds, lemma_totals_add_up, period_keys, total_of, totals_of,
    totals_sum,
};
use crate::text::{has_no_outer_whitespace, lemma_trimmed_idempotent, text_width};

verus! {

/// Whether the instant `t` lies in the half-open range from `start` to `end`,
/// as a query by start time selects it.
pub open spec fn in_range(t: DateTime, start: DateTime, end: DateTime) -> bool {
    datetime_le(start, t) && datetime_lt(t, end)
}

/// Midnight of `d` bounds the instants of the dates from `d` on.
proof fn lemma_midnight_bounds(d: Date, t: DateTime)
    requires
        t.wf(),
    ensures
        datetime_le(at_midnight(d), t) <==> !date_lt(t.date, d),
        datetime_lt(t, at_midnight(d)) <==> date_lt(t.date, d),
{
    let m = midnight();
    if t.time.secs_of_day() == 0 && t.time.nano == 0 {
        assert(t.time == m);
    }
}

/// The dates before the day after `d` are `d` and the dates before it.
proof fn lemma_before_next(d: Date, x: Date)
    requires
        d.wf(),
        x.wf(),
        next_date(d) is Some,
    ensures
        date_lt(x, next_date(d).unwrap()) <==> (date_lt(x, d) || x == d),
{
    let n = next_date(d).unwrap();
    lemma_next_date(d);
    lemma_day_number_order(x, n);
    lemma_day_number_order(x, d);
}

/// The day view of a date reads exactly the instants of that date.
pub proof fn law_day_range_is_the_day(date: Date, t: DateTime)
    requires
        date.wf(),
        next_date(date) is Some,
        t.wf(),
    ensures
        in_range(t, day_range_of(date).0, day_range_of(date).1) <==> t.date == date,
{
    lemma_midnight_bounds(date, t);
    lemma_midnight_bounds(next_date(date).unwrap(), t);
    lemma_before_next(date, t.date);
}

/// A refresh of the records reads exactly the instants of the day that the
/// records date field names, when storage is open and the field holds a date
/// that is not the last of the calendar.
pub proof fn law_records_read_the_chosen_day(
    s: AppState,
    scope: RefreshScope,
    date: Date,
    t: DateTime,
)
    requires
        s.repo_error is None,
        scope != RefreshScope::Stats,
        date_from_text(s.records_date@) == Ok::<Date, crate::model::AppError>(date),
        date.wf(),
        next_date(date) is Some,
        t.wf(),
    ensures
        plan_of(s, scope).records matches RangeQuery::Fetch(start, end, by_month) && !by_month && (
        in_range(t, start, end) <==> t.date == date),
{
    law_day_range_is_the_day(date, t);
}

/// The week view of a date reads the instants of the seven days that end
/// with it, and sums them by day.
pub proof fn law_week_range_is_seven_days(date: Date, t: DateTime)
    requires
        date.wf(),
        t.wf(),
        stats_range_of(date, StatsView::Week) is Some,
    ensures
        ({
            let r = stats_range_of(date, StatsView::Week).unwrap();
            &&& !r.2
            &&& in_range(t, r.0, r.1) <==> day_number(date) - 6 <= day_number(t.date)
                <= day_number(date)
        }),
{
    let end = next_date(date).unwrap();
    lemma_next_date(date);
    lemma_retreat_days(end, 7);
    let start = crate::calendar::retreat_days(end, 7).unwrap();
    lemma_midnight_bounds(start, t);
    lemma_midnight_bounds(end, t);
    lemma_day_number_order(t.date, start);
    lemma_day_number_order(t.date, end);
}

/// The month view of a date reads the instants of its month, and sums them
/// by day. (In the last month of the calendar the following month cannot be
/// written, and the range is empty.)
pub proof fn law_month_range_is_the_month(date: Date, t: DateTime)
    requires
        date.wf(),
        t.wf(),
        date.month < 12 || date.year < MAX_YEAR,
    ensures
        ({
            let r = stats_range_of(date, StatsView::Month).unwrap();
            &&& !r.2
            &&& in_range(t, r.0, r.1) <==> t.date.year == date.year && t.date.month
                == date.month
        }),
{
    let r = stats_range_of(date, StatsView::Month).unwrap();
    lemma_midnight_bounds(r.0.date, t);
    lemma_midnight_bounds(r.1.date, t);
}

/// The year view of a date reads the instants of its year, and sums them by
/// month. (In the last year of the calendar the following year cannot be
/// written, and the range is empty.)
pub proof fn law_year_range_is_the_year(date: Date, t: DateTime)
    requires
        date.wf(),
        t.wf(),
        date.year < MAX_YEAR,
    ensures
        ({
            let r = stats_range_of(date, StatsView::Year).unwrap();
            &&& r.2
            &&& in_range(t, r.0, r.1) <==> t.date.year == date.year
        }),
{
    let r = stats_range_of(date, StatsView::Year).unwrap();
    lemma_midnight_bounds(r.0.date, t);
    lemma_midnight_bounds(r.1.date, t);
}

// ---------------------------------------------------------------------------
// Statistics
// ---------------------------------------------------------------------------

/// The statistics account for all the time of their entries: the seconds per
/// category, and the seconds per day or month, each add up to the seconds of
/// all the entries.
pub proof fn law_stats_totals_add_up(
    entries: Seq<TimeEntry>,
    by_month: bool,
    category_totals: Seq<(Seq<char>, int)>,
    period_totals: Seq<(Seq<char>, int)>,
)
    requires
        totals_of(category_totals, category_keys(entries), entry_seconds(entries)),
        totals_of(period_totals, period_keys(entries, by_month), entry_seconds(entries)),
    ensures
        totals_sum(category_totals) == total_of(entry_seconds(entries)),
        totals_sum(period_totals) == total_of(entry_seconds(entries)),
{
    lemma_totals_add_up(category_totals, category_keys(entries), entry_seconds(entries));
    lemma_totals_add_up(period_totals, period_keys(entries, by_month), entry_seconds(entries));
}

// ---------------------------------------------------------------------------
// Categories
// ---------------------------------------------------------------------------

/// What the category lookup finds is a table entry named so.
proof fn lemma_category_index_found(name: Seq<char>, k: int)
    requires
        0 <= k,
    ensures
        category_index_from(name, k) matches Some(i) ==> k <= i < category_names().len() && (
        category_names()[i].0 == name || category_names()[i].1 == name),
    decreases 6 - k,
{
    if k < 6 && k < category_names().len() {
        lemma_category_index_found(name, k + 1);
    }
}

/// A stored category, shown in either language and picked back, is stored as
/// it was: a known category under its stored name, any other text as it is.
/// (A category stored under its English name comes back under its stored
/// name, so such values are left out.)
pub proof fn law_category_label_round_trip(language: Language, value: Seq<char>)
    requires
        forall|i: int| 0 <= i < category_names().len() ==> value != #[trigger] category_names()[i].1,
    ensures
        category_value_text(category_label_text(language, value)) == value,
{
    lemma_category_index_found(value, 0);
    match category_index(value) {
        Some(i) => {
            lemma_category_index_of_stored(i);
            lemma_category_index_of_english(i);
        },
        None => {},
    }
}

/// Each choice that the category picker offers, once picked and stored, is
/// shown again as the same choice.
pub proof fn law_category_choice_round_trip(language: Language, i: int)
    requires
        0 <= i < category_names().len(),
    ensures
        ({
            let label = category_label_text(language, category_names()[i].0);
            category_label_text(language, category_value_text(label)) == label
        }),
{
    lemma_category_index_of_stored(i);
    lemma_category_index_of_english(i);
}

// ---------------------------------------------------------------------------
// Sequences of actions
// ---------------------------------------------------------------------------

/// Switching the language twice gives back the state it started from, and
/// asks nothing of the outside.
pub proof fn law_toggle_language_twice(
    s0: AppState,
    now: DateTime,
    s1: AppState,
    e1: Effect,
    s2: AppState,
    e2: Effect,
)
    requires
        transition(s0, Message::ToggleLanguage, now, s1, e1),
        transition(s1, Message::ToggleLanguage, now, s2, e2),
    ensures
        s1.language != s0.language,
        s2 == s0,
        e1 is Nothing,
        e2 is Nothing,
{
}

/// Opening an entry for editing and cancelling drops the edit form and the
/// edit window and leaves everything else as it was.
pub proof fn law_edit_then_cancel(
    s0: AppState,
    id: i64,
    now: DateTime,
    s1: AppState,
    e1: Effect,
    s2: AppState,
    e2: Effect,
)
    requires
        transition(s0, Message::EditEntry(id), now, s1, e1),
        transition(s1, Message::CancelEdit, now, s2, e2),
    ensures
        s2 == (AppState { editing_form: None, edit_window: None, ..s0 }),
{
}

/// Whether `effect` asks to store `row`, as a new entry or in place of one.
pub open spec fn writes_row(effect: Effect, row: EntryRow) -> bool {
    match effect {
        Effect::Write(WriteRequest::InsertEntry(r)) => r == row,
        Effect::Write(WriteRequest::UpdateEntry(_, r)) => r == row,
        _ => false,
    }
}

/// Every entry that an action asks to store ends after it starts, and its
/// activity and category are non-empty; all its texts are trimmed.
pub proof fn law_stored_entries_are_valid(
    s0: AppState,
    msg: Message,
    now: DateTime,
    s1: AppState,
    effect: Effect,
    row: EntryRow,
)
    requires
        transition(s0, msg, now, s1, effect),
        writes_row(effect, row),
    ensures
        datetime_lt(row.start_time, row.end_time),
        row.activity@.len() > 0,
        row.category@.len() > 0,
        has_no_outer_whitespace(row.activity@),
        has_no_outer_whitespace(row.category@),
        has_no_outer_whitespace(row.location@),
        has_no_outer_whitespace(row.description@),
{
    match msg {
        Message::SaveManualEntry => {
            let entry = crate::model::entry_from_form(s0.manual_form).unwrap();
            lemma_trimmed_idempotent(entry.activity@);
            lemma_trimmed_idempotent(entry.category@);
            lemma_trimmed_idempotent(entry.location@);
            lemma_trimmed_idempotent(entry.description@);
        },
        Message::SaveEdit => {
            let entry = crate::model::entry_from_form(s0.editing_form.unwrap()).unwrap();
            lemma_trimmed_idempotent(entry.activity@);
            lemma_trimmed_idempotent(entry.category@);
            lemma_trimmed_idempotent(entry.location@);
            lemma_trimmed_idempotent(entry.description@);
        },
        _ => {},
    }
}

// ---------------------------------------------------------------------------
// Display width
// ---------------------------------------------------------------------------

/// The width of a concatenation is the sum of the widths; the empty text has
/// width zero.
pub proof fn law_width_adds_up(a: Seq<char>, b: Seq<char>)
    ensures
        text_width(a + b) == text_width(a) + text_width(b),
        text_width(Seq::<char>::empty()) == 0,
    decreases b.len(),
{
    if b.len() > 0 {
        law_width_adds_up(a, b.drop_last());
        assert((a + b).drop_last() =~= a + b.drop_last());
        assert((a + b).last() == b.last());
    } else {
        assert(a + b =~= a);
    }
}

/// A text is at least as wide as it has characters and at most twice as
/// wide, and exactly as wide when all its characters are ASCII.
pub proof fn law_width_bounds(s: Seq<char>)
    ensures
        s.len() <= text_width(s) <= 2 * s.len(),
        text_width(s) == s.len() <==> forall|i: int| 0 <= i < s.len() ==> (s[i] as u32) < 128,
    decreases s.len(),
{
    if s.len() > 0 {
        let t = s.drop_last();
        law_width_bounds(t);
        assert forall|i: int| 0 <= i < t.len() implies t[i] == s[i] by {}
        if text_width(s) == s.len() {
            assert forall|i: int| 0 <= i < s.len() implies (s[i] as u32) < 128 by {
                if i < t.len() {
                    assert(t[i] == s[i]);
                } else {
                    assert(s[i] == s.last());
                }
            }
        }
        if forall|i: int| 0 <= i < s.len() ==> (s[i] as u32) < 128 {
            assert(s[s.len() - 1] == s.last());
            assert forall|i: int| 0 <= i < t.len() implies (t[i] as u32) < 128 by {
                assert(t[i] == s[i]);
            }
        }
    }
}

// ---------------------------------------------------------------------------
// Test data
// ---------------------------------------------------------------------------

/// The entries of a generated day follow each other in order, each starting
/// at least half an hour after the previous ones end.
pub proof fn law_generated_entries_in_order(p: DayPlan, d: Date, j: int, k: int)
    requires
        day_plan_ok(p, d),
        0 <= j < k < p.entries@.len(),
    ensures
        instant_secs(p.entries@[j].end_time) + 1800 <= instant_secs(p.entries@[k].start_time),
        instant_secs(p.entries@[j].start_time) < instant_secs(p.entries@[k].start_time),
    decreases k - j,
{
    let es = p.entries@;
    assert(entry_shape(es, d, k) && entry_shape(es, d, j) && entry_shape(es, d, k - 1));
    reveal(entry_shape);
    if k - 1 > j {
        law_generated_entries_in_order(p, d, j, k - 1);
    }
}

} // verus!
