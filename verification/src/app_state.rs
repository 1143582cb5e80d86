//! The tracker's state and what each user action does to it.
//!
//! Storage, windows and the clock live outside: an action either changes the
//! state alone, or asks for one piece of outside work (a write, a refresh of
//! what is shown, a window command). The outside performs it and hands the
//! outcome back, and the state takes it in.
use vstd::prelude::*;
use vstd::string::*;
use crate::calendar::{next_date, Date, DateTime};
use crate::clock::minutes_later;
use crate::formatting::{date_text, format_date};
use crate::i18n::{category_value_from_label, category_value_text, text_of, tr, Language, TextKey};
use crate::model::{
    at_midnight, date_from_text, day_range, day_range_of, default_form_fields, entry_check,
    entry_from_form, error_display_text, error_message, error_message_text, parse_date,
    prepare_insert, prepare_start, prepare_update, shows_entry, stats_range_of,
    checked_stats_range, stores_trimmed, text_check, to_minute, ActivityForm, AppError, CurrentActivity, EntryForm, EntryRow,
    MainTab, StatsView, TimeEntry,
};
use crate::stats::{aggregate_stats, StatsData};
use crate::text::trimmed;

verus! {

/// Whether a notice reports success or failure.
#[derive(Clone, Copy, Debug, PartialEq, Eq, Structural)]
pub enum MessageKind {
    Info,
    Error,
}

/// A user action or a window event. Windows are named by numbers that the
/// outside assigns.
#[derive(Clone, Debug)]
pub enum Message {
    MainWindowOpened(u64),
    EditWindowOpened(u64),
    WindowCloseRequested(u64),
    Tick,
    Refresh,
    ToggleLanguage,
    SwitchTab(MainTab),
    RealtimeActivityChanged(String),
    RealtimeCategoryChanged(String),
    RealtimeLocationChanged(String),
    RealtimeDescriptionChanged(String),
    StartActivity,
    EndActivity,
    ManualActivityChanged(String),
    ManualCategoryChanged(String),
    ManualLocationChanged(String),
    ManualDescriptionChanged(String),
    ManualStartDateChanged(String),
    ManualStartTimeChanged(String),
    ManualEndDateChanged(String),
    ManualEndTimeChanged(String),
    OpenManualEntry,
    CloseManualEntry,
    SaveManualEntry,
    RecordsDateChanged(String),
    Today,
    EditEntry(i64),
    EditActivityChanged(String),
    EditCategoryChanged(String),
    EditLocationChanged(String),
    EditDescriptionChanged(String),
    EditStartDateChanged(String),
    EditStartTimeChanged(String),
    EditEndDateChanged(String),
    EditEndTimeChanged(String),
    SaveEdit,
    DeleteEditingEntry,
    CancelEdit,
    StatsDateChanged(String),
    ChangeStatsView(StatsView),
    DismissMessage,
}

/// A command for the window system.
#[derive(Clone, Copy, Debug, PartialEq, Eq, Structural)]
pub enum WindowCommand {
    Nothing,
    /// Bring a window to the front.
    Focus(u64),
    /// Close a window.
    Close(u64),
    /// Open the edit window; the outside reports its number back.
    OpenEdit,
    /// Quit the application.
    Exit,
}

/// Which parts of what is shown to read again from storage.
#[derive(Clone, Copy, Debug, PartialEq, Eq, Structural)]
pub enum RefreshScope {
    /// The tracked activity, the day's entries and the statistics.
    All,
    Records,
    Stats,
}

/// A change to storage.
#[derive(Debug)]
pub enum WriteRequest {
    /// Store the activity that starts being tracked.
    StartActivity(CurrentActivity),
    /// End the tracked activity: read it, store it as an entry ending at the
    /// time of the action (see `prepare_end`), and clear it.
    EndActivity,
    /// Store a new entry.
    InsertEntry(EntryRow),
    /// Replace the stored entry with this id.
    UpdateEntry(i64, EntryRow),
    /// Remove the stored entry with this id.
    DeleteEntry(i64),
}

/// What the outside must do after an action.
#[derive(Debug)]
pub enum Effect {
    Nothing,
    Window(WindowCommand),
    /// Read what is shown again: see `refresh_plan` and `apply_refresh`.
    Refresh(RefreshScope),
    /// Perform the write, then report with `complete_write`.
    Write(WriteRequest),
}

/// A range of stored entries to read, by start time.
#[derive(Clone, Copy, Debug, PartialEq, Eq, Structural)]
pub enum RangeQuery {
    /// Nothing to read: the date field does not hold a date, or storage is
    /// unavailable.
    Skip,
    /// The entries starting at or after the first instant and before the
    /// second; the flag tells whether statistics are summed by month.
    Fetch(DateTime, DateTime, bool),
    /// The range runs off the calendar; the computation cannot go on.
    OutOfRange,
}

/// The reads that a refresh needs.
#[derive(Clone, Copy, Debug, PartialEq, Eq, Structural)]
pub struct RefreshPlan {
    /// Read the tracked activity.
    pub current: bool,
    /// Read the entries of the chosen day.
    pub records: RangeQuery,
    /// Read the entries of the statistics period.
    pub stats: RangeQuery,
}

/// What the reads of a refresh returned; `None` for a read not made.
#[derive(Debug)]
pub struct RefreshResults {
    pub current: Option<Result<Option<CurrentActivity>, AppError>>,
    pub records: Option<Result<Vec<TimeEntry>, AppError>>,
    /// With whether the statistics are summed by month.
    pub stats: Option<(bool, Result<Vec<TimeEntry>, AppError>)>,
}

/// Everything the interface shows and edits.
#[derive(Debug)]
pub struct AppState {
    /// Why storage could not be opened, if it could not.
    pub repo_error: Option<String>,
    pub main_window: Option<u64>,
    pub edit_window: Option<u64>,
    pub language: Language,
    pub active_tab: MainTab,
    pub manual_form: EntryForm,
    pub manual_entry_dialog_open: bool,
    pub realtime_form: ActivityForm,
    pub editing_form: Option<EntryForm>,
    pub records_date: String,
    pub stats_date: String,
    pub stats_view: StatsView,
    pub today_entries: Vec<TimeEntry>,
    pub current_activity: Option<CurrentActivity>,
    pub stats: Option<StatsData>,
    pub message: Option<(String, MessageKind)>,
}

// ---------------------------------------------------------------------------
// Specification of the transitions
// ---------------------------------------------------------------------------

pub open spec fn entries_wf(entries: Seq<TimeEntry>) -> bool {
    forall|i: int| 0 <= i < entries.len() ==> (#[trigger] entries[i]).wf()
}

/// The position of the first entry with `id`, from position `k` on.
pub open spec fn first_with_id(entries: Seq<TimeEntry>, id: i64, k: int) -> Option<int>
    decreases entries.len() - k,
{
    if k < 0 || k >= entries.len() {
        None
    } else if entries[k].id == id {
        Some(k)
    } else {
        first_with_id(entries, id, k + 1)
    }
}

/// The moments at which a new manual form can be made: its end, an hour
/// later, must be on the calendar.
pub open spec fn clock_usable(now: DateTime) -> bool {
    now.wf() && minutes_later(now, 60) is Some
}

/// The actions that read the clock to make a new form.
pub open spec fn needs_clock(msg: Message) -> bool {
    match msg {
        Message::OpenManualEntry | Message::CloseManualEntry | Message::SaveManualEntry => true,
        _ => false,
    }
}

impl AppState {
    pub open spec fn wf(self) -> bool {
        &&& entries_wf(self.today_entries@)
        &&& self.current_activity matches Some(c) ==> c.start_time.wf()
    }

    pub open spec fn with_message(self, text: Seq<char>, kind: MessageKind) -> bool {
        self.message matches Some(m) && m.0@ == text && m.1 == kind
    }

    pub open spec fn is_info(self) -> bool {
        self.message matches Some(m) && m.1 == MessageKind::Info
    }
}

/// An action that only changes the manual form, to `form`.
pub open spec fn manual_form_becomes(old: AppState, new: AppState, form: EntryForm) -> bool {
    new == AppState { manual_form: form, ..old }
}

pub open spec fn realtime_form_becomes(old: AppState, new: AppState, form: ActivityForm) -> bool {
    new == AppState { realtime_form: form, ..old }
}

/// An action on the edit form: it changes only when there is one.
pub open spec fn editing_form_becomes(old: AppState, new: AppState, form: EntryForm) -> bool {
    match old.editing_form {
        Some(_) => new == AppState { editing_form: Some(form), ..old },
        None => new == old,
    }
}

/// A write was refused before storage was touched: the notice is set and
/// nothing else changes.
pub open spec fn refused(old: AppState, new: AppState, text: Seq<char>) -> bool {
    &&& new.with_message(text, MessageKind::Error)
    &&& new == AppState { message: new.message, ..old }
}

/// The outcome of an action that writes. With storage unavailable its error
/// is shown as it is; a refused entry shows its error in the interface's
/// language; otherwise the write is asked for.
pub open spec fn write_outcome(
    old: AppState,
    new: AppState,
    effect: Effect,
    check: Result<(), AppError>,
    request_ok: spec_fn(WriteRequest) -> bool,
) -> bool {
    match old.repo_error {
        Some(e) => refused(old, new, e@) && effect is Nothing,
        None => match check {
            Err(err) => refused(old, new, error_message_text(old.language, err))
                && effect is Nothing,
            Ok(()) => new == old && (effect matches Effect::Write(w) && request_ok(w)),
        },
    }
}

/// What `update(msg)` does to the state, and what it asks of the outside.
pub open spec fn transition(
    old: AppState,
    msg: Message,
    now: DateTime,
    new: AppState,
    effect: Effect,
) -> bool {
    match msg {
        Message::MainWindowOpened(id) => new == AppState { main_window: Some(id), ..old }
            && effect is Nothing,
        Message::EditWindowOpened(id) => new == AppState { edit_window: Some(id), ..old }
            && effect == Effect::Window(WindowCommand::Focus(id)),
        Message::WindowCloseRequested(id) => if old.edit_window == Some(id) {
            new == AppState { editing_form: None, edit_window: None, ..old } && effect
                == Effect::Window(WindowCommand::Close(id))
        } else if old.main_window == Some(id) {
            new == old && effect == Effect::Window(WindowCommand::Exit)
        } else {
            new == old && effect == Effect::Window(WindowCommand::Close(id))
        },
        Message::Tick => new == old && effect is Nothing,
        Message::Refresh => new == old && effect == Effect::Refresh(RefreshScope::All),
        Message::ToggleLanguage => new == AppState {
            language: match old.language {
                Language::Chinese => Language::English,
                Language::English => Language::Chinese,
            },
            ..old
        } && effect is Nothing,
        Message::SwitchTab(tab) => new == AppState { active_tab: tab, ..old } && effect is Nothing,
        Message::RealtimeActivityChanged(v) => realtime_form_becomes(
            old,
            new,
            ActivityForm { activity: v, ..old.realtime_form },
        ) && effect is Nothing,
        Message::RealtimeCategoryChanged(v) => realtime_form_becomes(
            old,
            new,
            ActivityForm { category: new.realtime_form.category, ..old.realtime_form },
        ) && new.realtime_form.category@ == category_value_text(v@) && effect is Nothing,
        Message::RealtimeLocationChanged(v) => realtime_form_becomes(
            old,
            new,
            ActivityForm { location: v, ..old.realtime_form },
        ) && effect is Nothing,
        Message::RealtimeDescriptionChanged(v) => realtime_form_becomes(
            old,
            new,
            ActivityForm { description: v, ..old.realtime_form },
        ) && effect is Nothing,
        Message::StartActivity => write_outcome(
            old,
            new,
            effect,
            text_check(old.realtime_form.activity@, old.realtime_form.category@),
            |w: WriteRequest|
                w matches WriteRequest::StartActivity(c) && c.start_time == now && c.activity@
                    == trimmed(old.realtime_form.activity@) && c.category@ == trimmed(
                    old.realtime_form.category@,
                ) && c.location@ == trimmed(old.realtime_form.location@) && c.description@
                    == trimmed(old.realtime_form.description@),
        ),
        Message::EndActivity => write_outcome(
            old,
            new,
            effect,
            Ok(()),
            |w: WriteRequest| w is EndActivity,
        ),
        Message::ManualActivityChanged(v) => manual_form_becomes(
            old,
            new,
            EntryForm { activity: v, ..old.manual_form },
        ) && effect is Nothing,
        Message::ManualCategoryChanged(v) => manual_form_becomes(
            old,
            new,
            EntryForm { category: new.manual_form.category, ..old.manual_form },
        ) && new.manual_form.category@ == category_value_text(v@) && effect is Nothing,
        Message::ManualLocationChanged(v) => manual_form_becomes(
            old,
            new,
            EntryForm { location: v, ..old.manual_form },
        ) && effect is Nothing,
        Message::ManualDescriptionChanged(v) => manual_form_becomes(
            old,
            new,
            EntryForm { description: v, ..old.manual_form },
        ) && effect is Nothing,
        Message::ManualStartDateChanged(v) => manual_form_becomes(
            old,
            new,
            EntryForm { start_date: v, ..old.manual_form },
        ) && effect is Nothing,
        Message::ManualStartTimeChanged(v) => manual_form_becomes(
            old,
            new,
            EntryForm { start_time: v, ..old.manual_form },
        ) && effect is Nothing,
        Message::ManualEndDateChanged(v) => manual_form_becomes(
            old,
            new,
            EntryForm { end_date: v, ..old.manual_form },
        ) && effect is Nothing,
        Message::ManualEndTimeChanged(v) => manual_form_becomes(
            old,
            new,
            EntryForm { end_time: v, ..old.manual_form },
        ) && effect is Nothing,
        Message::OpenManualEntry => new == AppState {
            manual_form: new.manual_form,
            manual_entry_dialog_open: true,
            ..old
        } && default_form_fields(new.manual_form, now) && effect is Nothing,
        Message::CloseManualEntry => new == AppState {
            manual_form: new.manual_form,
            manual_entry_dialog_open: false,
            ..old
        } && default_form_fields(new.manual_form, now) && effect is Nothing,
        Message::SaveManualEntry => match entry_from_form(old.manual_form) {
            Err(err) => refused(old, new, error_display_text(err)) && effect is Nothing,
            Ok(entry) => write_outcome(
                old,
                new,
                effect,
                entry_check(entry.start_time, entry.end_time, entry.activity@, entry.category@),
                |w: WriteRequest|
                    w matches WriteRequest::InsertEntry(row) && stores_trimmed(
                        row,
                        entry.start_time,
                        entry.end_time,
                        entry.activity@,
                        entry.category@,
                        entry.location@,
                        entry.description@,
                    ),
            ),
        },
        Message::RecordsDateChanged(v) => new == AppState { records_date: v, ..old } && effect
            == Effect::Refresh(RefreshScope::Records),
        Message::Today => new == AppState { records_date: new.records_date, ..old }
            && new.records_date@ == date_text(now.date) && effect == Effect::Refresh(
            RefreshScope::Records,
        ),
        Message::EditEntry(id) => match first_with_id(old.today_entries@, id, 0) {
            None => new == old && effect is Nothing,
            Some(i) => {
                let e = old.today_entries@[i];
                &&& new == AppState { editing_form: new.editing_form, ..old }
                &&& new.editing_form matches Some(f) && f.id == Some(e.id) && f.start_date@
                    == date_text(e.start_time.date) && f.start_time@ == crate::formatting::hm_text(
                    e.start_time.time,
                ) && f.end_date@ == date_text(e.end_time.date) && f.end_time@
                    == crate::formatting::hm_text(e.end_time.time) && f.activity == e.activity
                    && f.category == e.category && f.location == e.location && f.description
                    == e.description
                &&& effect == Effect::Window(
                    match old.edit_window {
                        Some(w) => WindowCommand::Focus(w),
                        None => WindowCommand::OpenEdit,
                    },
                )
            },
        },
        Message::EditActivityChanged(v) => (match old.editing_form {
            Some(f) => editing_form_becomes(old, new, EntryForm { activity: v, ..f }),
            None => new == old,
        }) && effect is Nothing,
        Message::EditCategoryChanged(v) => (match old.editing_form {
            Some(f) => {
                &&& new == AppState { editing_form: new.editing_form, ..old }
                &&& new.editing_form matches Some(g)
                &&& g == EntryForm { category: g.category, ..f }
                &&& g.category@ == category_value_text(v@)
            },
            None => new == old,
        }) && effect is Nothing,
        Message::EditLocationChanged(v) => (match old.editing_form {
            Some(f) => editing_form_becomes(old, new, EntryForm { location: v, ..f }),
            None => new == old,
        }) && effect is Nothing,
        Message::EditDescriptionChanged(v) => (match old.editing_form {
            Some(f) => editing_form_becomes(old, new, EntryForm { description: v, ..f }),
            None => new == old,
        }) && effect is Nothing,
        Message::EditStartDateChanged(v) => (match old.editing_form {
            Some(f) => editing_form_becomes(old, new, EntryForm { start_date: v, ..f }),
            None => new == old,
        }) && effect is Nothing,
        Message::EditStartTimeChanged(v) => (match old.editing_form {
            Some(f) => editing_form_becomes(old, new, EntryForm { start_time: v, ..f }),
            None => new == old,
        }) && effect is Nothing,
        Message::EditEndDateChanged(v) => (match old.editing_form {
            Some(f) => editing_form_becomes(old, new, EntryForm { end_date: v, ..f }),
            None => new == old,
        }) && effect is Nothing,
        Message::EditEndTimeChanged(v) => (match old.editing_form {
            Some(f) => editing_form_becomes(old, new, EntryForm { end_time: v, ..f }),
            None => new == old,
        }) && effect is Nothing,
        Message::SaveEdit => match old.editing_form {
            None => new == old && effect is Nothing,
            Some(f) => match entry_from_form(f) {
                Err(err) => refused(old, new, error_display_text(err)) && effect is Nothing,
                Ok(entry) => write_outcome(
                    old,
                    new,
                    effect,
                    entry_check(
                        entry.start_time,
                        entry.end_time,
                        entry.activity@,
                        entry.category@,
                    ),
                    |w: WriteRequest|
                        w matches WriteRequest::UpdateEntry(id, row) && id == entry.id
                            && stores_trimmed(
                            row,
                            entry.start_time,
                            entry.end_time,
                            entry.activity@,
                            entry.category@,
                            entry.location@,
                            entry.description@,
                        ),
                ),
            },
        },
        Message::DeleteEditingEntry => match old.editing_form {
            Some(f) => match f.id {
                Some(id) => write_outcome(
                    old,
                    new,
                    effect,
                    Ok(()),
                    |w: WriteRequest| w == WriteRequest::DeleteEntry(id),
                ),
                None => new == old && effect is Nothing,
            },
            None => new == old && effect is Nothing,
        },
        Message::CancelEdit => new == AppState { editing_form: None, edit_window: None, ..old }
            && effect == Effect::Window(
            match old.edit_window {
                Some(w) => WindowCommand::Close(w),
                None => WindowCommand::Nothing,
            },
        ),
        Message::StatsDateChanged(v) => new == AppState { stats_date: v, ..old } && effect
            == Effect::Refresh(RefreshScope::Stats),
        Message::ChangeStatsView(view) => new == AppState { stats_view: view, ..old } && effect
            == Effect::Refresh(RefreshScope::Stats),
        Message::DismissMessage => new == AppState { message: None, ..old } && effect is Nothing,
    }
}

/// The reads that refreshing `scope` needs: the tracked activity when
/// storage is available; the chosen day's entries when the records date
/// holds a date; the statistics period when the statistics date holds one.
pub open spec fn plan_of(s: AppState, scope: RefreshScope) -> RefreshPlan {
    let available = s.repo_error is None;
    RefreshPlan {
        current: available && scope == RefreshScope::All,
        records: if scope == RefreshScope::Stats || !available {
            RangeQuery::Skip
        } else {
            match date_from_text(s.records_date@) {
                Err(_) => RangeQuery::Skip,
                Ok(d) => match next_date(d) {
                    None => RangeQuery::OutOfRange,
                    Some(_) => RangeQuery::Fetch(day_range_of(d).0, day_range_of(d).1, false),
                },
            }
        },
        stats: if scope == RefreshScope::Records || !available {
            RangeQuery::Skip
        } else {
            match date_from_text(s.stats_date@) {
                Err(_) => RangeQuery::Skip,
                Ok(d) => match stats_range_of(d, s.stats_view) {
                    None => RangeQuery::OutOfRange,
                    Some(r) => RangeQuery::Fetch(r.0, r.1, r.2),
                },
            }
        },
    }
}


/// The last read of a refresh that failed, in the order the reads are taken
/// in: the tracked activity, the day's entries, the statistics.
pub open spec fn last_refresh_error(results: RefreshResults) -> Option<AppError> {
    match (results.stats, results.records, results.current) {
        (Some((_, Err(e))), _, _) => Some(e),
        (_, Some(Err(e)), _) => Some(e),
        (_, _, Some(Err(e))) => Some(e),
        _ => None,
    }
}

/// The shown data after taking in the reads: each successful read replaces
/// what it read (the statistics are aggregated), a failed or missing read
/// leaves it.
pub open spec fn data_refreshed(old: AppState, results: RefreshResults, new: AppState) -> bool {
    &&& match results.current {
        Some(Ok(c)) => new.current_activity == c,
        _ => new.current_activity == old.current_activity,
    }
    &&& match results.records {
        Some(Ok(v)) => new.today_entries == v,
        _ => new.today_entries == old.today_entries,
    }
    &&& match results.stats {
        Some((by_month, Ok(v))) => new.stats matches Some(sd) && sd.entries@ == v@
            && sd.total_seconds == crate::stats::total_of(crate::stats::entry_seconds(v@))
            && sd.by_month == by_month
            && crate::stats::totals_of(
            crate::stats::totals_view(sd.category_totals@),
            crate::stats::category_keys(v@),
            crate::stats::entry_seconds(v@),
        ) && crate::stats::totals_of(
            crate::stats::totals_view(sd.period_totals@),
            crate::stats::period_keys(v@, by_month),
            crate::stats::entry_seconds(v@),
        ),
        _ => new.stats == old.stats,
    }
}

/// Taking in the reads of a refresh: the data as `data_refreshed` says, the
/// last failure shown in the interface's language, nothing else changed.
pub open spec fn refreshed(old: AppState, results: RefreshResults, new: AppState) -> bool {
    &&& data_refreshed(old, results, new)
    &&& match last_refresh_error(results) {
        Some(e) => new.with_message(error_message_text(old.language, e), MessageKind::Error),
        None => new.message == old.message,
    }
    &&& new == AppState {
        current_activity: new.current_activity,
        today_entries: new.today_entries,
        stats: new.stats,
        message: new.message,
        ..old
    }
}

/// The notice of a successful write.
pub open spec fn ok_key(request: WriteRequest) -> TextKey {
    match request {
        WriteRequest::StartActivity(_) => TextKey::ActivityStarted,
        WriteRequest::EndActivity => TextKey::ActivityEnded,
        WriteRequest::InsertEntry(_) => TextKey::EntrySaved,
        WriteRequest::UpdateEntry(_, _) => TextKey::EntryUpdated,
        WriteRequest::DeleteEntry(_) => TextKey::EntryDeleted,
    }
}

/// Taking in the outcome of a write. A failed write shows its error in the
/// interface's language. A successful one shows its notice, takes in the
/// refresh that follows it, and, if no read failed, finishes its action:
/// a started activity clears the real-time form, a saved entry closes the
/// manual dialog with a fresh form, an updated or deleted entry closes the
/// edit window.
pub open spec fn write_completed(
    old: AppState,
    request: WriteRequest,
    outcome: Result<RefreshResults, AppError>,
    now: DateTime,
    new: AppState,
    command: WindowCommand,
) -> bool {
    match outcome {
        Err(e) => {
            &&& new.with_message(error_message_text(old.language, e), MessageKind::Error)
            &&& new == AppState { message: new.message, ..old }
            &&& command == WindowCommand::Nothing
        },
        Ok(results) => {
            let failed = last_refresh_error(results) is Some;
            &&& data_refreshed(old, results, new)
            &&& match last_refresh_error(results) {
                Some(e) => new.with_message(error_message_text(old.language, e), MessageKind::Error),
                None => new.with_message(text_of(old.language, ok_key(request)), MessageKind::Info),
            }
            &&& if failed {
                new == AppState {
                    current_activity: new.current_activity,
                    today_entries: new.today_entries,
                    stats: new.stats,
                    message: new.message,
                    ..old
                } && command == WindowCommand::Nothing
            } else {
                match request {
                    WriteRequest::StartActivity(_) => new == AppState {
                        current_activity: new.current_activity,
                        today_entries: new.today_entries,
                        stats: new.stats,
                        message: new.message,
                        realtime_form: new.realtime_form,
                        ..old
                    } && new.realtime_form.activity@ == Seq::<char>::empty()
                        && new.realtime_form.category@ == crate::i18n::category_names()[0].0
                        && new.realtime_form.location@ == Seq::<char>::empty()
                        && new.realtime_form.description@ == Seq::<char>::empty() && command
                        == WindowCommand::Nothing,
                    WriteRequest::InsertEntry(_) => new == AppState {
                        current_activity: new.current_activity,
                        today_entries: new.today_entries,
                        stats: new.stats,
                        message: new.message,
                        manual_form: new.manual_form,
                        manual_entry_dialog_open: false,
                        ..old
                    } && default_form_fields(new.manual_form, now) && command
                        == WindowCommand::Nothing,
                    WriteRequest::UpdateEntry(_, _) | WriteRequest::DeleteEntry(_) => new
                        == AppState {
                        current_activity: new.current_activity,
                        today_entries: new.today_entries,
                        stats: new.stats,
                        message: new.message,
                        editing_form: None,
                        edit_window: None,
                        ..old
                    } && command == match old.edit_window {
                        Some(w) => WindowCommand::Close(w),
                        None => WindowCommand::Nothing,
                    },
                    WriteRequest::EndActivity => new == AppState {
                        current_activity: new.current_activity,
                        today_entries: new.today_entries,
                        stats: new.stats,
                        message: new.message,
                        ..old
                    } && command == WindowCommand::Nothing,
                }
            }
        },
    }
}

/// What a refresh result may hold: entries read from storage are valid.
pub open spec fn results_wf(results: RefreshResults) -> bool {
    &&& results.current matches Some(Ok(Some(c))) ==> c.start_time.wf()
    &&& results.records matches Some(Ok(v)) ==> entries_wf(v@)
    &&& results.stats matches Some((_, Ok(v))) ==> entries_wf(v@)
}

impl AppState {
    /// The state when the application starts: storage open or not, the main
    /// window, today's date in both date fields, a fresh manual form, the
    /// records tab, the week view and the Chinese language.
    pub fn new(repo_error: Option<String>, main_window: u64, now: DateTime) -> (r: AppState)
        requires
            clock_usable(now),
        ensures
            r.wf(),
            r.repo_error == repo_error,
            r.main_window == Some(main_window),
            r.edit_window is None,
            r.language == Language::Chinese,
            r.active_tab == MainTab::Records,
            default_form_fields(r.manual_form, now),
            !r.manual_entry_dialog_open,
            r.realtime_form.activity@ == Seq::<char>::empty(),
            r.realtime_form.category@ == crate::i18n::category_names()[0].0,
            r.realtime_form.location@ == Seq::<char>::empty(),
            r.realtime_form.description@ == Seq::<char>::empty(),
            r.editing_form is None,
            r.records_date@ == date_text(now.date),
            r.stats_date@ == date_text(now.date),
            r.stats_view == StatsView::Week,
            r.today_entries@.len() == 0,
            r.current_activity is None,
            r.stats is None,
            r.message is None,
    {
        let today = format_date(&now.date);
        AppState {
            repo_error,
            main_window: Some(main_window),
            edit_window: None,
            language: Language::Chinese,
            active_tab: MainTab::Records,
            manual_form: EntryForm::new_at(now),
            manual_entry_dialog_open: false,
            realtime_form: ActivityForm::new(),
            editing_form: None,
            records_date: today.clone(),
            stats_date: today,
            stats_view: StatsView::Week,
            today_entries: Vec::new(),
            current_activity: None,
            stats: None,
            message: None,
        }
    }

    /// The title of a window: the edit window's, or the application's name.
    pub fn title(&self, window: u64) -> (r: String)
        ensures
            self.edit_window == Some(window) ==> r@ == text_of(self.language, TextKey::EditEntry),
            self.edit_window != Some(window) ==> r@ == "MyTime"@,
    {
        if self.edit_window == Some(window) {
            tr(self.language, TextKey::EditEntry).to_owned()
        } else {
            "MyTime".to_owned()
        }
    }

    /// Whether `window` is the edit window.
    pub fn is_edit_window(&self, window: u64) -> (r: bool)
        ensures
            r == (self.edit_window == Some(window)),
    {
        self.edit_window == Some(window)
    }

    /// Whether the elapsed time must be redrawn every second: while an
    /// activity is tracked.
    pub fn needs_tick(&self) -> (r: bool)
        ensures
            r == self.current_activity is Some,
    {
        self.current_activity.is_some()
    }

    /// Whether the notice shown reports success.
    pub fn is_info_message(&self) -> (r: bool)
        ensures
            r == self.is_info(),
    {
        match &self.message {
            Some(m) => m.1 == MessageKind::Info,
            None => false,
        }
    }

    fn set_error(&mut self, text: String)
        ensures
            *final(self) == (AppState { message: Some((text, MessageKind::Error)), ..*old(self) }),
    {
        self.message = Some((text, MessageKind::Error));
    }

    fn set_info(&mut self, text: String)
        ensures
            *final(self) == (AppState { message: Some((text, MessageKind::Info)), ..*old(self) }),
    {
        self.message = Some((text, MessageKind::Info));
    }

    /// Closes the edit window, dropping its form.
    fn close_edit_window(&mut self) -> (r: WindowCommand)
        ensures
            *final(self) == (AppState { editing_form: None, edit_window: None, ..*old(self) }),
            r == match old(self).edit_window {
                Some(w) => WindowCommand::Close(w),
                None => WindowCommand::Nothing,
            },
    {
        self.editing_form = None;
        match self.edit_window {
            Some(w) => {
                self.edit_window = None;
                WindowCommand::Close(w)
            },
            None => WindowCommand::Nothing,
        }
    }

    /// Records the number of the edit window that the outside opened.
    pub fn register_edit_window(&mut self, window: u64)
        ensures
            *final(self) == (AppState { edit_window: Some(window), ..*old(self) }),
    {
        self.edit_window = Some(window);
    }

    /// Refuses a write with `err` shown in the interface's language.
    fn refuse(&mut self, err: &AppError)
        ensures
            refused(*old(self), *final(self), error_message_text(old(self).language, *err)),
    {
        let text = error_message(self.language, err);
        self.set_error(text);
    }

    fn find_entry(&self, id: i64) -> (r: Option<usize>)
        ensures
            r matches Some(i) ==> first_with_id(self.today_entries@, id, 0) == Some(i as int) && i
                < self.today_entries@.len(),
            r is None ==> first_with_id(self.today_entries@, id, 0) is None,
    {
        let n = self.today_entries.len();
        let mut i: usize = 0;
        while i < n
            invariant
                n == self.today_entries@.len(),
                i <= n,
                first_with_id(self.today_entries@, id, 0) == first_with_id(
                    self.today_entries@,
                    id,
                    i as int,
                ),
            decreases n - i,
        {
            if self.today_entries[i].id == id {
                return Some(i);
            }
            i = i + 1;
        }
        None
    }

    /// The reads that refreshing `scope` needs: see `plan_of`.
    pub fn refresh_plan(&self, scope: RefreshScope) -> (r: RefreshPlan)
        ensures
            r == plan_of(*self, scope),
    {
        let available = self.repo_error.is_none();
        let current = available && scope == RefreshScope::All;
        let records = if scope == RefreshScope::Stats || !available {
            RangeQuery::Skip
        } else {
            match parse_date(self.records_date.as_str()) {
                Err(_) => RangeQuery::Skip,
                Ok(d) => match d.succ_opt() {
                    None => RangeQuery::OutOfRange,
                    Some(_) => {
                        let range = day_range(d);
                        RangeQuery::Fetch(range.0, range.1, false)
                    },
                },
            }
        };
        let stats = if scope == RefreshScope::Records || !available {
            RangeQuery::Skip
        } else {
            match parse_date(self.stats_date.as_str()) {
                Err(_) => RangeQuery::Skip,
                Ok(d) => match checked_stats_range(d, self.stats_view) {
                    None => RangeQuery::OutOfRange,
                    Some(range) => RangeQuery::Fetch(range.0, range.1, range.2),
                },
            }
        };
        RefreshPlan { current, records, stats }
    }

    /// Takes in the reads of a refresh: see `refreshed`.
    pub fn apply_refresh(&mut self, results: RefreshResults)
        requires
            old(self).wf(),
            results_wf(results),
        ensures
            final(self).wf(),
            refreshed(*old(self), results, *final(self)),
    {
        let ghost res = results;
        let RefreshResults { current, records, stats } = results;
        match current {
            Some(Ok(c)) => {
                self.current_activity = c;
            },
            Some(Err(err)) => {
                let text = error_message(self.language, &err);
                self.set_error(text);
            },
            None => {},
        }
        match records {
            Some(Ok(entries)) => {
                self.today_entries = entries;
            },
            Some(Err(err)) => {
                let text = error_message(self.language, &err);
                self.set_error(text);
            },
            None => {},
        }
        match stats {
            Some((by_month, Ok(entries))) => {
                self.stats = Some(aggregate_stats(entries, by_month));
            },
            Some((_, Err(err))) => {
                let text = error_message(self.language, &err);
                self.set_error(text);
            },
            None => {},
        }
    }

    /// Takes in the outcome of a write: `Ok` with the reads of the refresh
    /// that follows a successful write, or the write's error. See
    /// `write_completed`.
    pub fn complete_write(
        &mut self,
        request: &WriteRequest,
        outcome: Result<RefreshResults, AppError>,
        now: DateTime,
    ) -> (r: WindowCommand)
        requires
            old(self).wf(),
            outcome matches Ok(results) ==> results_wf(results),
            request is InsertEntry ==> clock_usable(now),
        ensures
            final(self).wf(),
            write_completed(*old(self), *request, outcome, now, *final(self), r),
    {
        match outcome {
            Err(err) => {
                let text = error_message(self.language, &err);
                self.set_error(text);
                WindowCommand::Nothing
            },
            Ok(results) => {
                let key = match request {
                    WriteRequest::StartActivity(_) => TextKey::ActivityStarted,
                    WriteRequest::EndActivity => TextKey::ActivityEnded,
                    WriteRequest::InsertEntry(_) => TextKey::EntrySaved,
                    WriteRequest::UpdateEntry(_, _) => TextKey::EntryUpdated,
                    WriteRequest::DeleteEntry(_) => TextKey::EntryDeleted,
                };
                let text = tr(self.language, key).to_owned();
                self.set_info(text);
                self.apply_refresh(results);
                if self.is_info_message() {
                    match request {
                        WriteRequest::StartActivity(_) => {
                            self.realtime_form = ActivityForm::new();
                            WindowCommand::Nothing
                        },
                        WriteRequest::InsertEntry(_) => {
                            self.manual_entry_dialog_open = false;
                            self.manual_form = EntryForm::new_at(now);
                            WindowCommand::Nothing
                        },
                        WriteRequest::UpdateEntry(_, _) | WriteRequest::DeleteEntry(_) => {
                            self.close_edit_window()
                        },
                        WriteRequest::EndActivity => WindowCommand::Nothing,
                    }
                } else {
                    WindowCommand::Nothing
                }
            },
        }
    }

    /// What an action does: see `transition`.
    pub fn update(&mut self, msg: Message, now: DateTime) -> (r: Effect)
        requires
            old(self).wf(),
            now.wf(),
            needs_clock(msg) ==> clock_usable(now),
        ensures
            final(self).wf(),
            transition(*old(self), msg, now, *final(self), r),
            msg is SaveEdit && old(self).editing_form is Some ==> forall|e: TimeEntry|
                e.wf() && #[trigger] shows_entry(old(self).editing_form.unwrap(), e)
                    ==> entry_from_form(old(self).editing_form.unwrap()) == Ok::<
                    TimeEntry,
                    AppError,
                >(
                    TimeEntry {
                        start_time: to_minute(e.start_time),
                        end_time: to_minute(e.end_time),
                        ..e
                    },
                ),
    {
        match msg {
            Message::MainWindowOpened(id) => {
                self.main_window = Some(id);
                Effect::Nothing
            },
            Message::EditWindowOpened(id) => {
                self.edit_window = Some(id);
                Effect::Window(WindowCommand::Focus(id))
            },
            Message::WindowCloseRequested(id) => {
                if self.edit_window == Some(id) {
                    self.editing_form = None;
                    self.edit_window = None;
                    Effect::Window(WindowCommand::Close(id))
                } else if self.main_window == Some(id) {
                    Effect::Window(WindowCommand::Exit)
                } else {
                    Effect::Window(WindowCommand::Close(id))
                }
            },
            Message::Tick => Effect::Nothing,
            Message::Refresh => Effect::Refresh(RefreshScope::All),
            Message::ToggleLanguage => {
                self.language = self.language.toggled();
                Effect::Nothing
            },
            Message::SwitchTab(tab) => {
                self.active_tab = tab;
                Effect::Nothing
            },
            Message::RealtimeActivityChanged(v) => {
                self.realtime_form.activity = v;
                Effect::Nothing
            },
            Message::RealtimeCategoryChanged(v) => {
                self.realtime_form.category = category_value_from_label(v.as_str());
                Effect::Nothing
            },
            Message::RealtimeLocationChanged(v) => {
                self.realtime_form.location = v;
                Effect::Nothing
            },
            Message::RealtimeDescriptionChanged(v) => {
                self.realtime_form.description = v;
                Effect::Nothing
            },
            Message::StartActivity => {
                match &self.repo_error {
                    Some(e) => {
                        let text = e.clone();
                        self.set_error(text);
                        Effect::Nothing
                    },
                    None => {
                        let form = &self.realtime_form;
                        match prepare_start(
                            now,
                            form.activity.as_str(),
                            form.category.as_str(),
                            form.location.as_str(),
                            form.description.as_str(),
                        ) {
                            Ok(c) => Effect::Write(WriteRequest::StartActivity(c)),
                            Err(err) => {
                                self.refuse(&err);
                                Effect::Nothing
                            },
                        }
                    },
                }
            },
            Message::EndActivity => {
                match &self.repo_error {
                    Some(e) => {
                        let text = e.clone();
                        self.set_error(text);
                        Effect::Nothing
                    },
                    None => Effect::Write(WriteRequest::EndActivity),
                }
            },
            Message::ManualActivityChanged(v) => {
                self.manual_form.activity = v;
                Effect::Nothing
            },
            Message::ManualCategoryChanged(v) => {
                self.manual_form.category = category_value_from_label(v.as_str());
                Effect::Nothing
            },
            Message::ManualLocationChanged(v) => {
                self.manual_form.location = v;
                Effect::Nothing
            },
            Message::ManualDescriptionChanged(v) => {
                self.manual_form.description = v;
                Effect::Nothing
            },
            Message::ManualStartDateChanged(v) => {
                self.manual_form.start_date = v;
                Effect::Nothing
            },
            Message::ManualStartTimeChanged(v) => {
                self.manual_form.start_time = v;
                Effect::Nothing
            },
            Message::ManualEndDateChanged(v) => {
                self.manual_form.end_date = v;
                Effect::Nothing
            },
            Message::ManualEndTimeChanged(v) => {
                self.manual_form.end_time = v;
                Effect::Nothing
            },
            Message::OpenManualEntry => {
                self.manual_form = EntryForm::new_at(now);
                self.manual_entry_dialog_open = true;
                Effect::Nothing
            },
            Message::CloseManualEntry => {
                self.manual_entry_dialog_open = false;
                self.manual_form = EntryForm::new_at(now);
                Effect::Nothing
            },
            Message::SaveManualEntry => {
                match self.manual_form.to_entry() {
                    Err(err) => {
                        let text = err.display_text();
                        self.set_error(text);
                        Effect::Nothing
                    },
                    Ok(entry) => {
                        match &self.repo_error {
                            Some(e) => {
                                let text = e.clone();
                                self.set_error(text);
                                Effect::Nothing
                            },
                            None => {
                                match prepare_insert(
                                    entry.start_time,
                                    entry.end_time,
                                    entry.activity.as_str(),
                                    entry.category.as_str(),
                                    entry.location.as_str(),
                                    entry.description.as_str(),
                                ) {
                                    Ok(row) => Effect::Write(WriteRequest::InsertEntry(row)),
                                    Err(err) => {
                                        self.refuse(&err);
                                        Effect::Nothing
                                    },
                                }
                            },
                        }
                    },
                }
            },
            Message::RecordsDateChanged(v) => {
                self.records_date = v;
                Effect::Refresh(RefreshScope::Records)
            },
            Message::Today => {
                self.records_date = format_date(&now.date);
                Effect::Refresh(RefreshScope::Records)
            },
            Message::EditEntry(id) => {
                match self.find_entry(id) {
                    None => Effect::Nothing,
                    Some(i) => {
                        let form = EntryForm::from_entry(&self.today_entries[i]);
                        self.editing_form = Some(form);
                        match self.edit_window {
                            Some(w) => Effect::Window(WindowCommand::Focus(w)),
                            None => Effect::Window(WindowCommand::OpenEdit),
                        }
                    },
                }
            },
            Message::EditActivityChanged(v) => {
                if let Some(form) = &mut self.editing_form {
                    form.activity = v;
                }
                Effect::Nothing
            },
            Message::EditCategoryChanged(v) => {
                if let Some(form) = &mut self.editing_form {
                    form.category = category_value_from_label(v.as_str());
                }
                Effect::Nothing
            },
            Message::EditLocationChanged(v) => {
                if let Some(form) = &mut self.editing_form {
                    form.location = v;
                }
                Effect::Nothing
            },
            Message::EditDescriptionChanged(v) => {
                if let Some(form) = &mut self.editing_form {
                    form.description = v;
                }
                Effect::Nothing
            },
            Message::EditStartDateChanged(v) => {
                if let Some(form) = &mut self.editing_form {
                    form.start_date = v;
                }
                Effect::Nothing
            },
            Message::EditStartTimeChanged(v) => {
                if let Some(form) = &mut self.editing_form {
                    form.start_time = v;
                }
                Effect::Nothing
            },
            Message::EditEndDateChanged(v) => {
                if let Some(form) = &mut self.editing_form {
                    form.end_date = v;
                }
                Effect::Nothing
            },
            Message::EditEndTimeChanged(v) => {
                if let Some(form) = &mut self.editing_form {
                    form.end_time = v;
                }
                Effect::Nothing
            },
            Message::SaveEdit => {
                match &self.editing_form {
                    None => Effect::Nothing,
                    Some(form) => {
                        match form.to_entry() {
                            Err(err) => {
                                let text = err.display_text();
                                self.set_error(text);
                                Effect::Nothing
                            },
                            Ok(entry) => {
                                match &self.repo_error {
                                    Some(e) => {
                                        let text = e.clone();
                                        self.set_error(text);
                                        Effect::Nothing
                                    },
                                    None => {
                                        match prepare_update(&entry) {
                                            Ok(row) => Effect::Write(
                                                WriteRequest::UpdateEntry(entry.id, row),
                                            ),
                                            Err(err) => {
                                                self.refuse(&err);
                                                Effect::Nothing
                                            },
                                        }
                                    },
                                }
                            },
                        }
                    },
                }
            },
            Message::DeleteEditingEntry => {
                let id = match &self.editing_form {
                    Some(form) => form.id,
                    None => None,
                };
                match id {
                    None => Effect::Nothing,
                    Some(id) => {
                        match &self.repo_error {
                            Some(e) => {
                                let text = e.clone();
                                self.set_error(text);
                                Effect::Nothing
                            },
                            None => Effect::Write(WriteRequest::DeleteEntry(id)),
                        }
                    },
                }
            },
            Message::CancelEdit => Effect::Window(self.close_edit_window()),
            Message::StatsDateChanged(v) => {
                self.stats_date = v;
                Effect::Refresh(RefreshScope::Stats)
            },
            Message::ChangeStatsView(view) => {
                self.stats_view = view;
                Effect::Refresh(RefreshScope::Stats)
            },
            Message::DismissMessage => {
                self.message = None;
                Effect::Nothing
            },
        }
    }
}

} // verus!
