use mytime::app_state::{
    AppState, Effect, Message, MessageKind, RangeQuery, RefreshPlan, RefreshResults, RefreshScope,
    WindowCommand, WriteRequest,
};
use mytime::calendar::{Date, DateTime, Time};
use mytime::i18n::Language;
use mytime::model::{AppError, CurrentActivity, MainTab, StatsView, TimeEntry};

fn at(y: i32, m: u32, d: u32, h: u32, min: u32) -> DateTime {
    DateTime { date: Date::new(y, m, d).unwrap(), time: Time::from_hms(h, min, 0).unwrap() }
}

fn now() -> DateTime {
    at(2024, 5, 1, 9, 30)
}

fn fresh() -> AppState {
    AppState::new(None, 1, now())
}

fn entry(id: i64, start: DateTime, minutes: u32, category: &str) -> TimeEntry {
    TimeEntry {
        id,
        start_time: start,
        end_time: start.add_minutes(minutes).unwrap(),
        activity: format!("activity {}", id),
        category: category.to_string(),
        location: "office".to_string(),
        description: String::new(),
    }
}

fn message_of(s: &AppState) -> Option<(String, MessageKind)> {
    s.message.as_ref().map(|m| (m.0.clone(), m.1))
}

#[test]
fn the_initial_state() {
    let s = fresh();
    assert_eq!(s.main_window, Some(1));
    assert_eq!(s.edit_window, None);
    assert_eq!(s.language, Language::Chinese);
    assert_eq!(s.active_tab, MainTab::Records);
    assert_eq!(s.records_date, "2024-05-01");
    assert_eq!(s.stats_date, "2024-05-01");
    assert_eq!(s.stats_view, StatsView::Week);
    assert_eq!(s.manual_form.start_time, "09:30");
    assert_eq!(s.manual_form.end_time, "10:30");
    assert!(!s.manual_entry_dialog_open);
    assert_eq!(s.realtime_form.category, "工作");
    assert!(s.editing_form.is_none());
    assert!(s.today_entries.is_empty());
    assert!(s.current_activity.is_none());
    assert!(s.stats.is_none());
    assert!(s.message.is_none());
    assert_eq!(s.title(1), "MyTime");
    assert!(!s.needs_tick());
    assert!(!s.is_info_message());
}

#[test]
fn toggling_the_language_twice_restores_it() {
    let mut s = fresh();
    assert!(matches!(s.update(Message::ToggleLanguage, now()), Effect::Nothing));
    assert_eq!(s.language, Language::English);
    assert!(matches!(s.update(Message::ToggleLanguage, now()), Effect::Nothing));
    assert_eq!(s.language, Language::Chinese);
}

#[test]
fn tabs_and_form_fields() {
    let mut s = fresh();
    s.update(Message::SwitchTab(MainTab::Statistics), now());
    assert_eq!(s.active_tab, MainTab::Statistics);
    s.update(Message::RealtimeCategoryChanged("Exercise".to_string()), now());
    assert_eq!(s.realtime_form.category, "运动");
    s.update(Message::RealtimeCategoryChanged("园艺".to_string()), now());
    assert_eq!(s.realtime_form.category, "园艺");
    s.update(Message::ManualActivityChanged("写作".to_string()), now());
    s.update(Message::ManualStartDateChanged("2024-04-30".to_string()), now());
    assert_eq!(s.manual_form.activity, "写作");
    assert_eq!(s.manual_form.start_date, "2024-04-30");
    s.update(Message::EditActivityChanged("ignored".to_string()), now());
    assert!(s.editing_form.is_none());
}

#[test]
fn starting_without_an_activity_is_refused() {
    let mut s = fresh();
    let e = s.update(Message::StartActivity, now());
    assert!(matches!(e, Effect::Nothing));
    assert_eq!(message_of(&s), Some(("活动名称不能为空".to_string(), MessageKind::Error)));
    s.update(Message::ToggleLanguage, now());
    s.update(Message::RealtimeActivityChanged("  ".to_string()), now());
    s.update(Message::StartActivity, now());
    assert_eq!(message_of(&s), Some(("Activity name cannot be empty".to_string(), MessageKind::Error)));
    s.update(Message::DismissMessage, now());
    assert!(s.message.is_none());
}

#[test]
fn without_storage_writes_show_its_error() {
    let mut s = AppState::new(Some("cannot open".to_string()), 1, now());
    s.update(Message::RealtimeActivityChanged("跑步".to_string()), now());
    assert!(matches!(s.update(Message::StartActivity, now()), Effect::Nothing));
    assert_eq!(message_of(&s), Some(("cannot open".to_string(), MessageKind::Error)));
    assert!(matches!(s.update(Message::EndActivity, now()), Effect::Nothing));
    let plan = s.refresh_plan(RefreshScope::All);
    assert_eq!(plan, RefreshPlan { current: false, records: RangeQuery::Skip, stats: RangeQuery::Skip });
}

#[test]
fn starting_and_ending_tracking() {
    let mut s = fresh();
    s.update(Message::RealtimeActivityChanged(" 跑步 ".to_string()), now());
    s.update(Message::RealtimeLocationChanged("公园".to_string()), now());
    let e = s.update(Message::StartActivity, now());
    let request = match e {
        Effect::Write(w) => w,
        other => panic!("unexpected {:?}", other),
    };
    match &request {
        WriteRequest::StartActivity(c) => {
            assert_eq!(c.activity, "跑步");
            assert_eq!(c.category, "工作");
            assert_eq!(c.location, "公园");
            assert_eq!(c.start_time, now());
        },
        other => panic!("unexpected {:?}", other),
    }
    let current = CurrentActivity {
        start_time: now(),
        activity: "跑步".to_string(),
        category: "工作".to_string(),
        location: "公园".to_string(),
        description: String::new(),
    };
    let results = RefreshResults {
        current: Some(Ok(Some(current))),
        records: Some(Ok(Vec::new())),
        stats: Some((false, Ok(Vec::new()))),
    };
    let cmd = s.complete_write(&request, Ok(results), now());
    assert_eq!(cmd, WindowCommand::Nothing);
    assert_eq!(message_of(&s), Some(("活动已开始".to_string(), MessageKind::Info)));
    assert_eq!(s.realtime_form.activity, "");
    assert_eq!(s.realtime_form.location, "");
    assert!(s.needs_tick());
    let e = s.update(Message::EndActivity, now());
    assert!(matches!(e, Effect::Write(WriteRequest::EndActivity)));
    let cmd = s.complete_write(&WriteRequest::EndActivity, Err(AppError::NoActiveActivity), now());
    assert_eq!(cmd, WindowCommand::Nothing);
    assert_eq!(message_of(&s), Some(("没有正在进行的活动".to_string(), MessageKind::Error)));
}

#[test]
fn saving_a_manual_entry() {
    let mut s = fresh();
    s.update(Message::OpenManualEntry, now());
    assert!(s.manual_entry_dialog_open);
    s.update(Message::ManualEndDateChanged("2024-13-01".to_string()), now());
    s.update(Message::ManualActivityChanged("阅读".to_string()), now());
    assert!(matches!(s.update(Message::SaveManualEntry, now()), Effect::Nothing));
    assert_eq!(message_of(&s), Some(("日期格式应为 YYYY-MM-DD".to_string(), MessageKind::Error)));
    s.update(Message::ManualEndDateChanged("2024-05-01".to_string()), now());
    s.update(Message::ManualEndTimeChanged("09:00".to_string()), now());
    s.update(Message::ToggleLanguage, now());
    assert!(matches!(s.update(Message::SaveManualEntry, now()), Effect::Nothing));
    assert_eq!(
        message_of(&s),
        Some(("Start time must be earlier than end time".to_string(), MessageKind::Error))
    );
    s.update(Message::ManualEndTimeChanged("aa:bb".to_string()), now());
    s.update(Message::SaveManualEntry, now());
    assert_eq!(message_of(&s), Some(("时间格式应为 HH:MM".to_string(), MessageKind::Error)));
    s.update(Message::ManualEndTimeChanged(" 11:15 ".to_string()), now());
    let request = match s.update(Message::SaveManualEntry, now()) {
        Effect::Write(w) => w,
        other => panic!("unexpected {:?}", other),
    };
    match &request {
        WriteRequest::InsertEntry(row) => {
            assert_eq!(row.start_time, at(2024, 5, 1, 9, 30));
            assert_eq!(row.end_time, at(2024, 5, 1, 11, 15));
            assert_eq!(row.activity, "阅读");
        },
        other => panic!("unexpected {:?}", other),
    }
    let later = at(2024, 5, 1, 12, 0);
    let results = RefreshResults {
        current: Some(Ok(None)),
        records: Some(Err(AppError::Database("locked".to_string()))),
        stats: None,
    };
    s.complete_write(&request, Ok(results), later);
    assert_eq!(message_of(&s), Some(("Database error: locked".to_string(), MessageKind::Error)));
    assert!(s.manual_entry_dialog_open);
    let results = RefreshResults { current: Some(Ok(None)), records: Some(Ok(Vec::new())), stats: None };
    s.complete_write(&request, Ok(results), later);
    assert_eq!(message_of(&s), Some(("Entry saved".to_string(), MessageKind::Info)));
    assert!(!s.manual_entry_dialog_open);
    assert_eq!(s.manual_form.start_time, "12:00");
    assert_eq!(s.manual_form.activity, "");
}

#[test]
fn editing_saving_and_deleting_an_entry() {
    let mut s = fresh();
    let shown = vec![
        entry(3, at(2024, 5, 1, 8, 0), 45, "工作"),
        entry(7, at(2024, 5, 1, 10, 0), 30, "学习"),
    ];
    s.apply_refresh(RefreshResults { current: None, records: Some(Ok(shown)), stats: None });
    assert_eq!(s.today_entries.len(), 2);
    assert!(matches!(s.update(Message::EditEntry(99), now()), Effect::Nothing));
    assert!(s.editing_form.is_none());
    let e = s.update(Message::EditEntry(7), now());
    assert!(matches!(e, Effect::Window(WindowCommand::OpenEdit)));
    let form = s.editing_form.as_ref().unwrap();
    assert_eq!(form.id, Some(7));
    assert_eq!(form.start_time, "10:00");
    assert_eq!(form.end_time, "10:30");
    assert_eq!(form.category, "学习");
    s.register_edit_window(5);
    assert!(matches!(s.update(Message::EditWindowOpened(5), now()), Effect::Window(WindowCommand::Focus(5))));
    assert_eq!(s.title(5), "编辑记录");
    assert!(s.is_edit_window(5));
    assert!(matches!(s.update(Message::EditEntry(3), now()), Effect::Window(WindowCommand::Focus(5))));
    s.update(Message::EditCategoryChanged("Rest".to_string()), now());
    assert_eq!(s.editing_form.as_ref().unwrap().category, "休息");
    let request = match s.update(Message::SaveEdit, now()) {
        Effect::Write(w) => w,
        other => panic!("unexpected {:?}", other),
    };
    match &request {
        WriteRequest::UpdateEntry(id, row) => {
            assert_eq!(*id, 3);
            assert_eq!(row.category, "休息");
            assert_eq!(row.start_time, at(2024, 5, 1, 8, 0));
            assert_eq!(row.end_time, at(2024, 5, 1, 8, 45));
        },
        other => panic!("unexpected {:?}", other),
    }
    let results = RefreshResults { current: Some(Ok(None)), records: Some(Ok(Vec::new())), stats: None };
    let cmd = s.complete_write(&request, Ok(results), now());
    assert_eq!(cmd, WindowCommand::Close(5));
    assert!(s.editing_form.is_none());
    assert_eq!(s.edit_window, None);
    assert_eq!(message_of(&s), Some(("记录已更新".to_string(), MessageKind::Info)));

    s.apply_refresh(RefreshResults {
        current: None,
        records: Some(Ok(vec![entry(9, at(2024, 5, 1, 14, 0), 60, "其他")])),
        stats: None,
    });
    s.update(Message::EditEntry(9), now());
    s.register_edit_window(6);
    assert!(matches!(s.update(Message::DeleteEditingEntry, now()), Effect::Write(WriteRequest::DeleteEntry(9))));
    let cmd = s.complete_write(&WriteRequest::DeleteEntry(9), Err(AppError::Database("busy".to_string())), now());
    assert_eq!(cmd, WindowCommand::Nothing);
    assert_eq!(message_of(&s), Some(("数据库错误: busy".to_string(), MessageKind::Error)));
    assert!(s.editing_form.is_some());
    assert!(matches!(s.update(Message::CancelEdit, now()), Effect::Window(WindowCommand::Close(6))));
    assert!(s.editing_form.is_none());
    assert!(matches!(s.update(Message::CancelEdit, now()), Effect::Window(WindowCommand::Nothing)));
}

#[test]
fn windows_closing() {
    let mut s = fresh();
    s.register_edit_window(4);
    assert!(matches!(s.update(Message::WindowCloseRequested(4), now()), Effect::Window(WindowCommand::Close(4))));
    assert_eq!(s.edit_window, None);
    assert!(matches!(s.update(Message::WindowCloseRequested(1), now()), Effect::Window(WindowCommand::Exit)));
    assert!(matches!(s.update(Message::WindowCloseRequested(8), now()), Effect::Window(WindowCommand::Close(8))));
    s.update(Message::MainWindowOpened(2), now());
    assert_eq!(s.main_window, Some(2));
}

#[test]
fn refresh_plans_follow_the_date_fields() {
    let mut s = fresh();
    assert!(matches!(s.update(Message::Refresh, now()), Effect::Refresh(RefreshScope::All)));
    let plan = s.refresh_plan(RefreshScope::All);
    assert!(plan.current);
    assert_eq!(plan.records, RangeQuery::Fetch(at(2024, 5, 1, 0, 0), at(2024, 5, 2, 0, 0), false));
    assert_eq!(plan.stats, RangeQuery::Fetch(at(2024, 4, 25, 0, 0), at(2024, 5, 2, 0, 0), false));
    assert!(matches!(
        s.update(Message::RecordsDateChanged("not a date".to_string()), now()),
        Effect::Refresh(RefreshScope::Records)
    ));
    let plan = s.refresh_plan(RefreshScope::Records);
    assert_eq!(plan, RefreshPlan { current: false, records: RangeQuery::Skip, stats: RangeQuery::Skip });
    assert!(matches!(s.update(Message::ChangeStatsView(StatsView::Year), now()), Effect::Refresh(RefreshScope::Stats)));
    let plan = s.refresh_plan(RefreshScope::Stats);
    assert_eq!(plan.stats, RangeQuery::Fetch(at(2024, 1, 1, 0, 0), at(2025, 1, 1, 0, 0), true));
    assert_eq!(plan.records, RangeQuery::Skip);
    s.update(Message::StatsDateChanged("+262142-12-31".to_string()), now());
    s.update(Message::ChangeStatsView(StatsView::Week), now());
    assert_eq!(s.refresh_plan(RefreshScope::Stats).stats, RangeQuery::OutOfRange);
    s.update(Message::Today, at(2024, 6, 2, 8, 0));
    assert_eq!(s.records_date, "2024-06-02");
}

#[test]
fn refreshed_statistics_are_aggregated() {
    let mut s = fresh();
    let read = vec![
        entry(1, at(2024, 4, 30, 9, 0), 60, "工作"),
        entry(2, at(2024, 5, 1, 9, 0), 30, "工作"),
    ];
    s.apply_refresh(RefreshResults { current: None, records: None, stats: Some((false, Ok(read))) });
    let stats = s.stats.as_ref().unwrap();
    assert_eq!(stats.category_totals, vec![("工作".to_string(), 5400i128)]);
    assert_eq!(
        stats.period_totals,
        vec![("2024-04-30".to_string(), 3600i128), ("2024-05-01".to_string(), 1800i128)]
    );
    assert!(s.message.is_none());
    s.apply_refresh(RefreshResults {
        current: Some(Err(AppError::Database("a".to_string()))),
        records: None,
        stats: Some((false, Err(AppError::Database("b".to_string())))),
    });
    assert_eq!(message_of(&s), Some(("数据库错误: b".to_string(), MessageKind::Error)));
    assert!(s.stats.is_some());
}

#[test]
fn saving_an_unchanged_edit_writes_the_entry_back() {
    let mut s = fresh();
    let mut shown = entry(11, at(2024, 5, 1, 8, 5), 50, "学习");
    shown.start_time.time.second = 42;
    shown.end_time.time.nano = 5;
    shown.activity = " 阅读 ".to_string();
    s.apply_refresh(RefreshResults { current: None, records: Some(Ok(vec![shown])), stats: None });
    s.update(Message::EditEntry(11), now());
    match s.update(Message::SaveEdit, now()) {
        Effect::Write(WriteRequest::UpdateEntry(id, row)) => {
            assert_eq!(id, 11);
            assert_eq!(row.start_time, at(2024, 5, 1, 8, 5));
            assert_eq!(row.end_time, at(2024, 5, 1, 8, 55));
            assert_eq!(row.activity, "阅读");
            assert_eq!(row.category, "学习");
            assert_eq!(row.location, "office");
        },
        other => panic!("unexpected {:?}", other),
    }
}
