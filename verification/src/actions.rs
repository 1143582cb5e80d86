//! What each user action does, stated field by field over the state before
//! and after it and the request it makes of the outside.
use vstd::prelude::*;
use crate::app_state::{
    first_with_id, plan_of, refreshed, transition, write_completed, AppState, Effect, Message,
    MessageKind, RangeQuery, RefreshResults, RefreshScope, WindowCommand, WriteRequest,
};
use crate::calendar::{next_date, Date, DateTime};
use crate::formatting::{date_text, hm_text};
use crate::i18n::{category_names, category_value_text, text_of, TextKey};
use crate::stats::{category_keys, entry_seconds, period_keys, total_of, totals_of, totals_view};
use crate::model::{
    date_from_text, day_range_of, default_form_fields, entry_check, entry_from_form,
    error_display_text, error_message_text, stats_range_of, text_check, AppError, StatsView,
    TimeEntry,
};
use crate::text::trimmed;

verus! {

/// Typing into a field of the edit form sets that field to what was typed (a
/// category picked by its label is stored by its stored name) and leaves the
/// form's other fields, the rest of the state and the outside untouched.
pub proof fn law_edit_form_typing(s0: AppState, msg: Message, now: DateTime, s1: AppState, e: Effect)
    requires
        transition(s0, msg, now, s1, e),
        s0.editing_form is Some,
        msg is EditActivityChanged || msg is EditCategoryChanged || msg is EditLocationChanged || msg is EditDescriptionChanged || msg is EditStartDateChanged || msg is EditStartTimeChanged || msg is EditEndDateChanged || msg is EditEndTimeChanged,
    ensures
        e is Nothing,
        s1.editing_form is Some,
        s1 == (AppState { editing_form: s1.editing_form, ..s0 }),
        msg matches Message::EditActivityChanged(v) ==> (s1.editing_form.unwrap().activity == v
            && s1.editing_form.unwrap().id == s0.editing_form.unwrap().id && s1.editing_form.unwrap().start_date == s0.editing_form.unwrap().start_date && s1.editing_form.unwrap().start_time == s0.editing_form.unwrap().start_time && s1.editing_form.unwrap().end_date == s0.editing_form.unwrap().end_date && s1.editing_form.unwrap().end_time == s0.editing_form.unwrap().end_time && s1.editing_form.unwrap().category == s0.editing_form.unwrap().category && s1.editing_form.unwrap().location == s0.editing_form.unwrap().location && s1.editing_form.unwrap().description == s0.editing_form.unwrap().description),
        msg matches Message::EditCategoryChanged(v) ==> (s1.editing_form.unwrap().category@ == category_value_text(v@)
            && s1.editing_form.unwrap().id == s0.editing_form.unwrap().id && s1.editing_form.unwrap().start_date == s0.editing_form.unwrap().start_date && s1.editing_form.unwrap().start_time == s0.editing_form.unwrap().start_time && s1.editing_form.unwrap().end_date == s0.editing_form.unwrap().end_date && s1.editing_form.unwrap().end_time == s0.editing_form.unwrap().end_time && s1.editing_form.unwrap().activity == s0.editing_form.unwrap().activity && s1.editing_form.unwrap().location == s0.editing_form.unwrap().location && s1.editing_form.unwrap().description == s0.editing_form.unwrap().description),
        msg matches Message::EditLocationChanged(v) ==> (s1.editing_form.unwrap().location == v
            && s1.editing_form.unwrap().id == s0.editing_form.unwrap().id && s1.editing_form.unwrap().start_date == s0.editing_form.unwrap().start_date && s1.editing_form.unwrap().start_time == s0.editing_form.unwrap().start_time && s1.editing_form.unwrap().end_date == s0.editing_form.unwrap().end_date && s1.editing_form.unwrap().end_time == s0.editing_form.unwrap().end_time && s1.editing_form.unwrap().activity == s0.editing_form.unwrap().activity && s1.editing_form.unwrap().category == s0.editing_form.unwrap().category && s1.editing_form.unwrap().description == s0.editing_form.unwrap().description),
        msg matches Message::EditDescriptionChanged(v) ==> (s1.editing_form.unwrap().description == v
            && s1.editing_form.unwrap().id == s0.editing_form.unwrap().id && s1.editing_form.unwrap().start_date == s0.editing_form.unwrap().start_date && s1.editing_form.unwrap().start_time == s0.editing_form.unwrap().start_time && s1.editing_form.unwrap().end_date == s0.editing_form.unwrap().end_date && s1.editing_form.unwrap().end_time == s0.editing_form.unwrap().end_time && s1.editing_form.unwrap().activity == s0.editing_form.unwrap().activity && s1.editing_form.unwrap().category == s0.editing_form.unwrap().category && s1.editing_form.unwrap().location == s0.editing_form.unwrap().location),
        msg matches Message::EditStartDateChanged(v) ==> (s1.editing_form.unwrap().start_date == v
            && s1.editing_form.unwrap().id == s0.editing_form.unwrap().id && s1.editing_form.unwrap().start_time == s0.editing_form.unwrap().start_time && s1.editing_form.unwrap().end_date == s0.editing_form.unwrap().end_date && s1.editing_form.unwrap().end_time == s0.editing_form.unwrap().end_time && s1.editing_form.unwrap().activity == s0.editing_form.unwrap().activity && s1.editing_form.unwrap().category == s0.editing_form.unwrap().category && s1.editing_form.unwrap().location == s0.editing_form.unwrap().location && s1.editing_form.unwrap().description == s0.editing_form.unwrap().description),
        msg matches Message::EditStartTimeChanged(v) ==> (s1.editing_form.unwrap().start_time == v
            && s1.editing_form.unwrap().id == s0.editing_form.unwrap().id && s1.editing_form.unwrap().start_date == s0.editing_form.unwrap().start_date && s1.editing_form.unwrap().end_date == s0.editing_form.unwrap().end_date && s1.editing_form.unwrap().end_time == s0.editing_form.unwrap().end_time && s1.editing_form.unwrap().activity == s0.editing_form.unwrap().activity && s1.editing_form.unwrap().category == s0.editing_form.unwrap().category && s1.editing_form.unwrap().location == s0.editing_form.unwrap().location && s1.editing_form.unwrap().description == s0.editing_form.unwrap().description),
        msg matches Message::EditEndDateChanged(v) ==> (s1.editing_form.unwrap().end_date == v
            && s1.editing_form.unwrap().id == s0.editing_form.unwrap().id && s1.editing_form.unwrap().start_date == s0.editing_form.unwrap().start_date && s1.editing_form.unwrap().start_time == s0.editing_form.unwrap().start_time && s1.editing_form.unwrap().end_time == s0.editing_form.unwrap().end_time && s1.editing_form.unwrap().activity == s0.editing_form.unwrap().activity && s1.editing_form.unwrap().category == s0.editing_form.unwrap().category && s1.editing_form.unwrap().location == s0.editing_form.unwrap().location && s1.editing_form.unwrap().description == s0.editing_form.unwrap().description),
        msg matches Message::EditEndTimeChanged(v) ==> (s1.editing_form.unwrap().end_time == v
            && s1.editing_form.unwrap().id == s0.editing_form.unwrap().id && s1.editing_form.unwrap().start_date == s0.editing_form.unwrap().start_date && s1.editing_form.unwrap().start_time == s0.editing_form.unwrap().start_time && s1.editing_form.unwrap().end_date == s0.editing_form.unwrap().end_date && s1.editing_form.unwrap().activity == s0.editing_form.unwrap().activity && s1.editing_form.unwrap().category == s0.editing_form.unwrap().category && s1.editing_form.unwrap().location == s0.editing_form.unwrap().location && s1.editing_form.unwrap().description == s0.editing_form.unwrap().description),
{
}

/// With no edit form open, typing into the edit form's fields changes
/// nothing.
pub proof fn law_edit_typing_without_form(s0: AppState, msg: Message, now: DateTime, s1: AppState, e: Effect)
    requires
        transition(s0, msg, now, s1, e),
        s0.editing_form is None,
        msg is EditActivityChanged || msg is EditCategoryChanged || msg is EditLocationChanged || msg is EditDescriptionChanged || msg is EditStartDateChanged || msg is EditStartTimeChanged || msg is EditEndDateChanged || msg is EditEndTimeChanged,
    ensures
        e is Nothing,
        s1 == s0,
{
}

/// Typing into a field of the manual-entry form sets that field to what was
/// typed (a category picked by its label is stored by its stored name) and
/// leaves the form's other fields, the rest of the state and the outside
/// untouched.
pub proof fn law_manual_form_typing(s0: AppState, msg: Message, now: DateTime, s1: AppState, e: Effect)
    requires
        transition(s0, msg, now, s1, e),
        msg is ManualActivityChanged || msg is ManualCategoryChanged || msg is ManualLocationChanged || msg is ManualDescriptionChanged || msg is ManualStartDateChanged || msg is ManualStartTimeChanged || msg is ManualEndDateChanged || msg is ManualEndTimeChanged,
    ensures
        e is Nothing,
        s1 == (AppState { manual_form: s1.manual_form, ..s0 }),
        msg matches Message::ManualActivityChanged(v) ==> (s1.manual_form.activity == v
            && s1.manual_form.id == s0.manual_form.id && s1.manual_form.start_date == s0.manual_form.start_date && s1.manual_form.start_time == s0.manual_form.start_time && s1.manual_form.end_date == s0.manual_form.end_date && s1.manual_form.end_time == s0.manual_form.end_time && s1.manual_form.category == s0.manual_form.category && s1.manual_form.location == s0.manual_form.location && s1.manual_form.description == s0.manual_form.description),
        msg matches Message::ManualCategoryChanged(v) ==> (s1.manual_form.category@ == category_value_text(v@)
            && s1.manual_form.id == s0.manual_form.id && s1.manual_form.start_date == s0.manual_form.start_date && s1.manual_form.start_time == s0.manual_form.start_time && s1.manual_form.end_date == s0.manual_form.end_date && s1.manual_form.end_time == s0.manual_form.end_time && s1.manual_form.activity == s0.manual_form.activity && s1.manual_form.location == s0.manual_form.location && s1.manual_form.description == s0.manual_form.description),
        msg matches Message::ManualLocationChanged(v) ==> (s1.manual_form.location == v
            && s1.manual_form.id == s0.manual_form.id && s1.manual_form.start_date == s0.manual_form.start_date && s1.manual_form.start_time == s0.manual_form.start_time && s1.manual_form.end_date == s0.manual_form.end_date && s1.manual_form.end_time == s0.manual_form.end_time && s1.manual_form.activity == s0.manual_form.activity && s1.manual_form.category == s0.manual_form.category && s1.manual_form.description == s0.manual_form.description),
        msg matches Message::ManualDescriptionChanged(v) ==> (s1.manual_form.description == v
            && s1.manual_form.id == s0.manual_form.id && s1.manual_form.start_date == s0.manual_form.start_date && s1.manual_form.start_time == s0.manual_form.start_time && s1.manual_form.end_date == s0.manual_form.end_date && s1.manual_form.end_time == s0.manual_form.end_time && s1.manual_form.activity == s0.manual_form.activity && s1.manual_form.category == s0.manual_form.category && s1.manual_form.location == s0.manual_form.location),
        msg matches Message::ManualStartDateChanged(v) ==> (s1.manual_form.start_date == v
            && s1.manual_form.id == s0.manual_form.id && s1.manual_form.start_time == s0.manual_form.start_time && s1.manual_form.end_date == s0.manual_form.end_date && s1.manual_form.end_time == s0.manual_form.end_time && s1.manual_form.activity == s0.manual_form.activity && s1.manual_form.category == s0.manual_form.category && s1.manual_form.location == s0.manual_form.location && s1.manual_form.description == s0.manual_form.description),
        msg matches Message::ManualStartTimeChanged(v) ==> (s1.manual_form.start_time == v
            && s1.manual_form.id == s0.manual_form.id && s1.manual_form.start_date == s0.manual_form.start_date && s1.manual_form.end_date == s0.manual_form.end_date && s1.manual_form.end_time == s0.manual_form.end_time && s1.manual_form.activity == s0.manual_form.activity && s1.manual_form.category == s0.manual_form.category && s1.manual_form.location == s0.manual_form.location && s1.manual_form.description == s0.manual_form.description),
        msg matches Message::ManualEndDateChanged(v) ==> (s1.manual_form.end_date == v
            && s1.manual_form.id == s0.manual_form.id && s1.manual_form.start_date == s0.manual_form.start_date && s1.manual_form.start_time == s0.manual_form.start_time && s1.manual_form.end_time == s0.manual_form.end_time && s1.manual_form.activity == s0.manual_form.activity && s1.manual_form.category == s0.manual_form.category && s1.manual_form.location == s0.manual_form.location && s1.manual_form.description == s0.manual_form.description),
        msg matches Message::ManualEndTimeChanged(v) ==> (s1.manual_form.end_time == v
            && s1.manual_form.id == s0.manual_form.id && s1.manual_form.start_date == s0.manual_form.start_date && s1.manual_form.start_time == s0.manual_form.start_time && s1.manual_form.end_date == s0.manual_form.end_date && s1.manual_form.activity == s0.manual_form.activity && s1.manual_form.category == s0.manual_form.category && s1.manual_form.location == s0.manual_form.location && s1.manual_form.description == s0.manual_form.description),
{
}

/// Typing into a field of the real-time form sets that field to what was
/// typed (a category picked by its label is stored by its stored name) and
/// leaves the form's other fields, the rest of the state and the outside
/// untouched.
pub proof fn law_realtime_form_typing(s0: AppState, msg: Message, now: DateTime, s1: AppState, e: Effect)
    requires
        transition(s0, msg, now, s1, e),
        msg is RealtimeActivityChanged || msg is RealtimeCategoryChanged || msg is RealtimeLocationChanged || msg is RealtimeDescriptionChanged,
    ensures
        e is Nothing,
        s1 == (AppState { realtime_form: s1.realtime_form, ..s0 }),
        msg matches Message::RealtimeActivityChanged(v) ==> (s1.realtime_form.activity == v
            && s1.realtime_form.category == s0.realtime_form.category && s1.realtime_form.location == s0.realtime_form.location && s1.realtime_form.description == s0.realtime_form.description),
        msg matches Message::RealtimeCategoryChanged(v) ==> (s1.realtime_form.category@ == category_value_text(v@)
            && s1.realtime_form.activity == s0.realtime_form.activity && s1.realtime_form.location == s0.realtime_form.location && s1.realtime_form.description == s0.realtime_form.description),
        msg matches Message::RealtimeLocationChanged(v) ==> (s1.realtime_form.location == v
            && s1.realtime_form.activity == s0.realtime_form.activity && s1.realtime_form.category == s0.realtime_form.category && s1.realtime_form.description == s0.realtime_form.description),
        msg matches Message::RealtimeDescriptionChanged(v) ==> (s1.realtime_form.description == v
            && s1.realtime_form.activity == s0.realtime_form.activity && s1.realtime_form.category == s0.realtime_form.category && s1.realtime_form.location == s0.realtime_form.location),
{
}

/// The error notice `text` is shown.
pub open spec fn shows_error(s: AppState, text: Seq<char>) -> bool {
    s.message matches Some(m) && m.0@ == text && m.1 == MessageKind::Error
}

/// Changing the statistics date stores it and asks for a refresh that reads
/// the statistics range of the new date in the current view (when storage is
/// open and the text is a date), and nothing else.
pub proof fn law_stats_date_change(
    s0: AppState,
    v: String,
    now: DateTime,
    s1: AppState,
    e: Effect,
    d: Date,
)
    requires
        transition(s0, Message::StatsDateChanged(v), now, s1, e),
    ensures
        s1 == (AppState { stats_date: v, ..s0 }),
        e matches Effect::Refresh(scope) && !plan_of(s1, scope).current && plan_of(s1, scope).records
            == RangeQuery::Skip && (s0.repo_error is None && date_from_text(v@) == Ok::<
            Date,
            AppError,
        >(d) && d.wf() ==> plan_of(s1, scope).stats == match stats_range_of(d, s0.stats_view) {
            Some(r) => RangeQuery::Fetch(r.0, r.1, r.2),
            None => RangeQuery::OutOfRange,
        }),
{
}

/// Choosing a statistics view stores it and asks for a refresh that reads
/// the range of that view around the statistics date.
pub proof fn law_stats_view_change(
    s0: AppState,
    view: StatsView,
    now: DateTime,
    s1: AppState,
    e: Effect,
    d: Date,
)
    requires
        transition(s0, Message::ChangeStatsView(view), now, s1, e),
    ensures
        s1 == (AppState { stats_view: view, ..s0 }),
        e matches Effect::Refresh(scope) && !plan_of(s1, scope).current && plan_of(s1, scope).records
            == RangeQuery::Skip && (s0.repo_error is None && date_from_text(
            s0.stats_date@,
        ) == Ok::<Date, AppError>(d) && d.wf() ==> plan_of(s1, scope).stats == match stats_range_of(
            d,
            view,
        ) {
            Some(r) => RangeQuery::Fetch(r.0, r.1, r.2),
            None => RangeQuery::OutOfRange,
        }),
{
}

/// Changing the records date stores it and asks for a refresh that reads the
/// entries of that day.
pub proof fn law_records_date_change(
    s0: AppState,
    v: String,
    now: DateTime,
    s1: AppState,
    e: Effect,
    d: Date,
)
    requires
        transition(s0, Message::RecordsDateChanged(v), now, s1, e),
    ensures
        s1 == (AppState { records_date: v, ..s0 }),
        e matches Effect::Refresh(scope) && !plan_of(s1, scope).current && plan_of(s1, scope).stats
            == RangeQuery::Skip && (s0.repo_error is None && date_from_text(v@) == Ok::<
            Date,
            AppError,
        >(d) && d.wf() && next_date(d) is Some ==> plan_of(s1, scope).records == RangeQuery::Fetch(
            day_range_of(d).0,
            day_range_of(d).1,
            false,
        )),
{
}

/// "Today" sets the records date to today's date and asks for a refresh
/// that reads the entries of the day the field then names.
pub proof fn law_records_today(s0: AppState, now: DateTime, s1: AppState, e: Effect, d: Date)
    requires
        transition(s0, Message::Today, now, s1, e),
    ensures
        s1.records_date@ == date_text(now.date),
        s1 == (AppState { records_date: s1.records_date, ..s0 }),
        e matches Effect::Refresh(scope) && !plan_of(s1, scope).current && plan_of(s1, scope).stats
            == RangeQuery::Skip && (s0.repo_error is None && date_from_text(
            s1.records_date@,
        ) == Ok::<Date, AppError>(d) && d.wf() && next_date(d) is Some ==> plan_of(s1, scope).records
            == RangeQuery::Fetch(day_range_of(d).0, day_range_of(d).1, false)),
{
}

/// Deleting from the edit window asks, with storage open, to delete exactly
/// the entry whose id the edit form holds, and changes nothing else; without
/// storage it shows storage's error; with no entry being edited it does
/// nothing.
pub proof fn law_delete_editing_entry(s0: AppState, now: DateTime, s1: AppState, e: Effect)
    requires
        transition(s0, Message::DeleteEditingEntry, now, s1, e),
    ensures
        s0.editing_form matches Some(f) ==> (f.id matches Some(i) ==> match s0.repo_error {
            None => s1 == s0 && (e matches Effect::Write(WriteRequest::DeleteEntry(j)) && j == i),
            Some(m) => e is Nothing && shows_error(s1, m@) && s1 == (AppState {
                message: s1.message,
                ..s0
            }),
        }),
        (s0.editing_form is None || s0.editing_form.unwrap().id is None) ==> e is Nothing && s1
            == s0,
{
}

/// Saving the edit form: a form whose fields do not read as an entry is
/// refused with the reading error; with storage open, an entry that ends
/// after it starts and has an activity and a category is asked to replace
/// the stored entry with the form's id, its times as read and its texts
/// trimmed; an invalid one is refused with its error in the interface's
/// language. Nothing else changes.
pub proof fn law_save_edit(s0: AppState, now: DateTime, s1: AppState, e: Effect)
    requires
        transition(s0, Message::SaveEdit, now, s1, e),
        s0.editing_form is Some,
    ensures
        ({
            let f = s0.editing_form.unwrap();
            match entry_from_form(f) {
                Err(err) => e is Nothing && shows_error(s1, error_display_text(err)) && s1 == (
                AppState { message: s1.message, ..s0 }),
                Ok(x) => match s0.repo_error {
                    Some(m) => e is Nothing && shows_error(s1, m@),
                    None => match entry_check(x.start_time, x.end_time, x.activity@, x.category@) {
                        Ok(()) => s1 == s0 && (e matches Effect::Write(WriteRequest::UpdateEntry(id, row))
                            && id == (match f.id {
                            Some(i) => i,
                            None => 0,
                        }) && row.start_time == x.start_time && row.end_time == x.end_time
                            && row.activity@ == trimmed(f.activity@) && row.category@ == trimmed(
                            f.category@,
                        ) && row.location@ == trimmed(f.location@) && row.description@ == trimmed(
                            f.description@,
                        )),
                        Err(err) => e is Nothing && shows_error(
                            s1,
                            error_message_text(s0.language, err),
                        ) && s1 == (AppState { message: s1.message, ..s0 }),
                    },
                },
            }
        }),
{
}

/// Saving the manual form works as saving the edit form, but asks to insert
/// a new entry.
pub proof fn law_save_manual_entry(s0: AppState, now: DateTime, s1: AppState, e: Effect)
    requires
        transition(s0, Message::SaveManualEntry, now, s1, e),
    ensures
        ({
            let f = s0.manual_form;
            match entry_from_form(f) {
                Err(err) => e is Nothing && shows_error(s1, error_display_text(err)) && s1 == (
                AppState { message: s1.message, ..s0 }),
                Ok(x) => match s0.repo_error {
                    Some(m) => e is Nothing && shows_error(s1, m@),
                    None => match entry_check(x.start_time, x.end_time, x.activity@, x.category@) {
                        Ok(()) => s1 == s0 && (e matches Effect::Write(WriteRequest::InsertEntry(row))
                            && row.start_time == x.start_time && row.end_time == x.end_time
                            && row.activity@ == trimmed(f.activity@) && row.category@ == trimmed(
                            f.category@,
                        ) && row.location@ == trimmed(f.location@) && row.description@ == trimmed(
                            f.description@,
                        )),
                        Err(err) => e is Nothing && shows_error(
                            s1,
                            error_message_text(s0.language, err),
                        ) && s1 == (AppState { message: s1.message, ..s0 }),
                    },
                },
            }
        }),
{
}

/// Starting tracking, with storage open and an activity and a category,
/// asks to store the real-time form's texts, trimmed, as starting now;
/// without them it is refused with the error in the interface's language.
pub proof fn law_start_activity(s0: AppState, now: DateTime, s1: AppState, e: Effect)
    requires
        transition(s0, Message::StartActivity, now, s1, e),
    ensures
        ({
            let f = s0.realtime_form;
            match s0.repo_error {
                Some(m) => e is Nothing && shows_error(s1, m@) && s1 == (AppState {
                    message: s1.message,
                    ..s0
                }),
                None => match text_check(f.activity@, f.category@) {
                    Ok(()) => s1 == s0 && (e matches Effect::Write(WriteRequest::StartActivity(c))
                        && c.start_time == now && c.activity@ == trimmed(f.activity@) && c.category@
                        == trimmed(f.category@) && c.location@ == trimmed(f.location@)
                        && c.description@ == trimmed(f.description@)),
                    Err(err) => e is Nothing && shows_error(s1, error_message_text(s0.language, err))
                        && s1 == (AppState { message: s1.message, ..s0 }),
                },
            }
        }),
{
}

/// Ending tracking asks, with storage open, to end the tracked activity and
/// changes nothing yet.
pub proof fn law_end_activity(s0: AppState, now: DateTime, s1: AppState, e: Effect)
    requires
        transition(s0, Message::EndActivity, now, s1, e),
    ensures
        s0.repo_error is None ==> s1 == s0 && (e matches Effect::Write(WriteRequest::EndActivity)),
        s0.repo_error matches Some(m) ==> e is Nothing && shows_error(s1, m@),
{
}

/// Editing an entry of the day opens a form that shows that entry (its id,
/// its dates as `YYYY-MM-DD`, its times as `HH:MM`, its texts), and brings
/// the edit window up (opening it if there is none); an id that the day
/// does not list does nothing.
pub proof fn law_edit_entry(s0: AppState, id: i64, now: DateTime, s1: AppState, e: Effect)
    requires
        transition(s0, Message::EditEntry(id), now, s1, e),
    ensures
        (exists|i: int| 0 <= i < s0.today_entries@.len() && #[trigger] s0.today_entries@[i].id == id)
            ==> {
            &&& s1 == (AppState { editing_form: s1.editing_form, ..s0 })
            &&& s1.editing_form matches Some(f) && f.id == Some(id) && exists|i: int|
                0 <= i < s0.today_entries@.len() && #[trigger] s0.today_entries@[i].id == id
                    && f.start_date@ == date_text(s0.today_entries@[i].start_time.date)
                    && f.start_time@ == hm_text(s0.today_entries@[i].start_time.time)
                    && f.end_date@ == date_text(s0.today_entries@[i].end_time.date)
                    && f.end_time@ == hm_text(s0.today_entries@[i].end_time.time) && f.activity
                    == s0.today_entries@[i].activity && f.category == s0.today_entries@[i].category
                    && f.location == s0.today_entries@[i].location && f.description
                    == s0.today_entries@[i].description
            &&& e == Effect::Window(
                match s0.edit_window {
                    Some(w) => WindowCommand::Focus(w),
                    None => WindowCommand::OpenEdit,
                },
            )
        },
        !(exists|i: int| 0 <= i < s0.today_entries@.len() && #[trigger] s0.today_entries@[i].id
            == id) ==> s1 == s0 && e is Nothing,
{
    lemma_first_with_id(s0.today_entries@, id, 0);
}

proof fn lemma_first_with_id(entries: Seq<TimeEntry>, id: i64, k: int)
    requires
        0 <= k,
    ensures
        first_with_id(entries, id, k) matches Some(i) ==> k <= i < entries.len() && entries[i].id
            == id,
        first_with_id(entries, id, k) is None ==> forall|i: int|
            k <= i < entries.len() ==> #[trigger] entries[i].id != id,
    decreases entries.len() - k,
{
    if k < entries.len() {
        lemma_first_with_id(entries, id, k + 1);
    }
}

/// Cancelling the edit drops the edit form, forgets the edit window and
/// asks to close it; nothing else changes.
pub proof fn law_cancel_edit(s0: AppState, now: DateTime, s1: AppState, e: Effect)
    requires
        transition(s0, Message::CancelEdit, now, s1, e),
    ensures
        s1 == (AppState { editing_form: None, edit_window: None, ..s0 }),
        s0.edit_window matches Some(w) ==> e == Effect::Window(WindowCommand::Close(w)),
        s0.edit_window is None ==> e == Effect::Window(WindowCommand::Nothing),
{
}

/// A request to close a window: the edit window closes and its form is
/// dropped; closing the main window quits; any other window just closes.
pub proof fn law_close_window(s0: AppState, w: u64, now: DateTime, s1: AppState, e: Effect)
    requires
        transition(s0, Message::WindowCloseRequested(w), now, s1, e),
    ensures
        s0.edit_window == Some(w) ==> s1 == (AppState { editing_form: None, edit_window: None, ..s0 })
            && e == Effect::Window(WindowCommand::Close(w)),
        s0.edit_window != Some(w) && s0.main_window == Some(w) ==> s1 == s0 && e == Effect::Window(
            WindowCommand::Exit,
        ),
        s0.edit_window != Some(w) && s0.main_window != Some(w) ==> s1 == s0 && e == Effect::Window(
            WindowCommand::Close(w),
        ),
{
}

/// Small actions: switching tab sets the tab, dismissing clears the notice,
/// a tick changes nothing, a refresh asks to read everything again, and the
/// windows' opening records their numbers.
pub proof fn law_small_actions(s0: AppState, msg: Message, now: DateTime, s1: AppState, e: Effect)
    requires
        transition(s0, msg, now, s1, e),
    ensures
        msg matches Message::SwitchTab(t) ==> s1 == (AppState { active_tab: t, ..s0 }) && e is Nothing,
        msg is DismissMessage ==> s1 == (AppState { message: None, ..s0 }) && e is Nothing,
        msg is Tick ==> s1 == s0 && e is Nothing,
        msg is Refresh ==> s1 == s0 && e == Effect::Refresh(RefreshScope::All),
        msg matches Message::MainWindowOpened(w) ==> s1 == (AppState { main_window: Some(w), ..s0 })
            && e is Nothing,
        msg matches Message::EditWindowOpened(w) ==> s1 == (AppState { edit_window: Some(w), ..s0 })
            && e == Effect::Window(WindowCommand::Focus(w)),
        msg is OpenManualEntry ==> s1.manual_entry_dialog_open && s1 == (AppState {
            manual_form: s1.manual_form,
            manual_entry_dialog_open: true,
            ..s0
        }) && default_form_fields(s1.manual_form, now) && e is Nothing,
        msg is CloseManualEntry ==> !s1.manual_entry_dialog_open && s1 == (AppState {
            manual_form: s1.manual_form,
            manual_entry_dialog_open: false,
            ..s0
        }) && default_form_fields(s1.manual_form, now) && e is Nothing,
{
}

/// The reads a refresh asks for: the tracked activity only for a full
/// refresh; the entries of the day that the records date names, unless only
/// the statistics are refreshed; the statistics range of the statistics date
/// in the chosen view, unless only the records are refreshed. Nothing is read
/// without storage, or for a date field that does not hold a date.
pub proof fn law_refresh_plan(s: AppState, scope: RefreshScope)
    ensures
        plan_of(s, scope).current == (s.repo_error is None && scope == RefreshScope::All),
        s.repo_error is Some || scope == RefreshScope::Stats ==> plan_of(s, scope).records
            == RangeQuery::Skip,
        s.repo_error is Some || scope == RefreshScope::Records ==> plan_of(s, scope).stats
            == RangeQuery::Skip,
        s.repo_error is None && scope != RefreshScope::Stats ==> match date_from_text(
            s.records_date@,
        ) {
            Err(_) => plan_of(s, scope).records == RangeQuery::Skip,
            Ok(d) => plan_of(s, scope).records == if next_date(d) is Some {
                RangeQuery::Fetch(day_range_of(d).0, day_range_of(d).1, false)
            } else {
                RangeQuery::OutOfRange
            },
        },
        s.repo_error is None && scope != RefreshScope::Records ==> match date_from_text(
            s.stats_date@,
        ) {
            Err(_) => plan_of(s, scope).stats == RangeQuery::Skip,
            Ok(d) => plan_of(s, scope).stats == match stats_range_of(d, s.stats_view) {
                Some(r) => RangeQuery::Fetch(r.0, r.1, r.2),
                None => RangeQuery::OutOfRange,
            },
        },
{
}

/// Taking in a refresh: each successful read replaces what it read (the
/// statistics are summed from the entries read), a failed or missing read
/// keeps what was shown; the last failure, in the order tracked activity,
/// day, statistics, is shown in the interface's language; nothing else
/// changes.
pub proof fn law_apply_refresh(s0: AppState, results: RefreshResults, s1: AppState)
    requires
        refreshed(s0, results, s1),
    ensures
        results.current matches Some(Ok(c)) ==> s1.current_activity == c,
        !(results.current matches Some(Ok(_))) ==> s1.current_activity == s0.current_activity,
        results.records matches Some(Ok(v)) ==> s1.today_entries == v,
        !(results.records matches Some(Ok(_))) ==> s1.today_entries == s0.today_entries,
        results.stats matches Some((by_month, Ok(v))) ==> (s1.stats matches Some(sd) && sd.entries@
            == v@ && sd.by_month == by_month && totals_of(
            totals_view(sd.category_totals@),
            category_keys(v@),
            entry_seconds(v@),
        ) && totals_of(
            totals_view(sd.period_totals@),
            period_keys(v@, by_month),
            entry_seconds(v@),
        ) && sd.total_seconds == total_of(entry_seconds(v@))),
        !(results.stats matches Some((_, Ok(_)))) ==> s1.stats == s0.stats,
        results.stats matches Some((_, Err(err))) ==> shows_error(
            s1,
            error_message_text(s0.language, err),
        ),
        !(results.stats matches Some((_, Err(_)))) ==> (results.records matches Some(Err(err))
            ==> shows_error(s1, error_message_text(s0.language, err))),
        !(results.stats matches Some((_, Err(_)))) && !(results.records matches Some(Err(_))) ==> (
        results.current matches Some(Err(err)) ==> shows_error(
            s1,
            error_message_text(s0.language, err),
        )),
        !(results.stats matches Some((_, Err(_)))) && !(results.records matches Some(Err(_)))
            && !(results.current matches Some(Err(_))) ==> s1.message == s0.message,
        s1 == (AppState {
            current_activity: s1.current_activity,
            today_entries: s1.today_entries,
            stats: s1.stats,
            message: s1.message,
            ..s0
        }),
{
}

/// Whether a refresh had a failed read.
pub open spec fn some_read_failed(results: RefreshResults) -> bool {
    ||| results.current matches Some(Err(_))
    ||| results.records matches Some(Err(_))
    ||| results.stats matches Some((_, Err(_)))
}

/// Taking in a write's outcome. A failed write shows its error in the
/// interface's language and changes nothing else. A successful write takes
/// in its refresh; if a read failed the error is shown and the forms and
/// windows stay; otherwise its notice is shown and its action finishes: a
/// started activity empties the real-time form, a saved entry closes the
/// manual dialog with a fresh form, an update or deletion closes the edit
/// window and drops its form.
pub proof fn law_complete_write(
    s0: AppState,
    request: WriteRequest,
    outcome: Result<RefreshResults, AppError>,
    now: DateTime,
    s1: AppState,
    command: WindowCommand,
)
    requires
        write_completed(s0, request, outcome, now, s1, command),
    ensures
        outcome matches Err(err) ==> shows_error(s1, error_message_text(s0.language, err)) && s1
            == (AppState { message: s1.message, ..s0 }) && command == WindowCommand::Nothing,
        outcome matches Ok(results) ==> (some_read_failed(results) ==> command
            == WindowCommand::Nothing && s1.manual_form == s0.manual_form
            && s1.manual_entry_dialog_open == s0.manual_entry_dialog_open && s1.realtime_form
            == s0.realtime_form && s1.editing_form == s0.editing_form && s1.edit_window
            == s0.edit_window && (s1.message matches Some(m) && m.1 == MessageKind::Error)),
        outcome matches Ok(results) ==> (!some_read_failed(results) ==> (s1.message matches Some(m)
            && m.1 == MessageKind::Info && m.0@ == text_of(
            s0.language,
            match request {
                WriteRequest::StartActivity(_) => TextKey::ActivityStarted,
                WriteRequest::EndActivity => TextKey::ActivityEnded,
                WriteRequest::InsertEntry(_) => TextKey::EntrySaved,
                WriteRequest::UpdateEntry(_, _) => TextKey::EntryUpdated,
                WriteRequest::DeleteEntry(_) => TextKey::EntryDeleted,
            },
        ))),
        outcome matches Ok(results) ==> (!some_read_failed(results) && request is StartActivity ==> (
        s1.realtime_form.activity@.len() == 0 && s1.realtime_form.category@
            == category_names()[0].0 && s1.realtime_form.location@.len() == 0
            && s1.realtime_form.description@.len() == 0 && command == WindowCommand::Nothing
            && s1.editing_form == s0.editing_form && s1.manual_form == s0.manual_form)),
        outcome matches Ok(results) ==> (!some_read_failed(results) && request is InsertEntry ==> (
        !s1.manual_entry_dialog_open && default_form_fields(s1.manual_form, now) && command
            == WindowCommand::Nothing && s1.editing_form == s0.editing_form && s1.realtime_form
            == s0.realtime_form)),
        outcome matches Ok(results) ==> (!some_read_failed(results) && (request is UpdateEntry
            || request is DeleteEntry) ==> (s1.editing_form is None && s1.edit_window is None
            && command == match s0.edit_window {
            Some(w) => WindowCommand::Close(w),
            None => WindowCommand::Nothing,
        } && s1.manual_form == s0.manual_form && s1.realtime_form == s0.realtime_form)),
        outcome matches Ok(results) ==> (!some_read_failed(results) && request is EndActivity ==> (
        command == WindowCommand::Nothing && s1.editing_form == s0.editing_form && s1.manual_form
            == s0.manual_form && s1.realtime_form == s0.realtime_form)),
        s1.language == s0.language && s1.active_tab == s0.active_tab && s1.records_date
            == s0.records_date && s1.stats_date == s0.stats_date && s1.stats_view == s0.stats_view
            && s1.repo_error == s0.repo_error && s1.main_window == s0.main_window,
{
}

} // verus!
