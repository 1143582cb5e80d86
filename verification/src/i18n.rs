//! The interface's two languages, the text of every label and message in
//! each, and the activity categories with their names in both languages.
use vstd::prelude::*;
use crate::text::text_equal;

verus! {

/// The language the interface is shown in.
#[derive(Clone, Copy, Debug, PartialEq, Eq, Structural)]
pub enum Language {
    Chinese,
    English,
}

impl Language {
    /// The other language.
    pub fn toggled(self) -> (r: Language)
        ensures
            r != self,
            r == (match self {
                Language::Chinese => Language::English,
                Language::English => Language::Chinese,
            }),
    {
        match self {
            Language::Chinese => Language::English,
            Language::English => Language::Chinese,
        }
    }
}

/// Every piece of text the interface shows.
#[derive(Clone, Copy, Debug, PartialEq, Eq, Structural)]
pub enum TextKey {
    EditEntry,
    Week,
    Month,
    Year,
    DatabaseError,
    InvalidTimeRange,
    EmptyActivity,
    EmptyCategory,
    NoActiveActivity,
    InvalidDate,
    InvalidClockTime,
    ActivityStarted,
    ActivityEnded,
    EntrySaved,
    EntryUpdated,
    EntryDeleted,
    SaveChanges,
    Delete,
    Cancel,
    NoData,
    Close,
    Timer,
    Records,
    Statistics,
    Refresh,
    LanguageSwitch,
    Info,
    Error,
    ActivityName,
    Location,
    StartDate,
    StartTime,
    EndDate,
    EndTime,
    Description,
    Category,
    Date,
    Activity,
    Start,
    End,
    Minutes,
    Actions,
    Edit,
    Today,
    AddEntry,
    ManualEntry,
    SaveEntry,
    StatsDate,
    Current,
    NoStats,
    CategoryDistribution,
    TimeTrend,
    Details,
    Total,
    Elapsed,
    EndActivity,
    NoCurrentActivity,
    RealtimeTracking,
    StartTracking,
}

/// The Chinese text of a key.
pub open spec fn chinese_text(key: TextKey) -> Seq<char> {
    match key {
        TextKey::EditEntry => "编辑记录"@,
        TextKey::Week => "周"@,
        TextKey::Month => "月"@,
        TextKey::Year => "年"@,
        TextKey::DatabaseError => "数据库错误"@,
        TextKey::InvalidTimeRange => "开始时间必须早于结束时间"@,
        TextKey::EmptyActivity => "活动名称不能为空"@,
        TextKey::EmptyCategory => "类别不能为空"@,
        TextKey::NoActiveActivity => "没有正在进行的活动"@,
        TextKey::InvalidDate => "日期格式应为 YYYY-MM-DD"@,
        TextKey::InvalidClockTime => "时间格式应为 HH:MM"@,
        TextKey::ActivityStarted => "活动已开始"@,
        TextKey::ActivityEnded => "活动已结束"@,
        TextKey::EntrySaved => "记录已保存"@,
        TextKey::EntryUpdated => "记录已更新"@,
        TextKey::EntryDeleted => "记录已删除"@,
        TextKey::SaveChanges => "保存修改"@,
        TextKey::Delete => "删除"@,
        TextKey::Cancel => "取消"@,
        TextKey::NoData => "暂无数据"@,
        TextKey::Close => "关闭"@,
        TextKey::Timer => "计时"@,
        TextKey::Records => "记录"@,
        TextKey::Statistics => "统计"@,
        TextKey::Refresh => "刷新"@,
        TextKey::LanguageSwitch => "English"@,
        TextKey::Info => "提示"@,
        TextKey::Error => "错误"@,
        TextKey::ActivityName => "活动名称"@,
        TextKey::Location => "地点"@,
        TextKey::StartDate => "开始日期"@,
        TextKey::StartTime => "开始时间"@,
        TextKey::EndDate => "结束日期"@,
        TextKey::EndTime => "结束时间"@,
        TextKey::Description => "描述"@,
        TextKey::Category => "类别"@,
        TextKey::Date => "日期"@,
        TextKey::Activity => "活动"@,
        TextKey::Start => "开始"@,
        TextKey::End => "结束"@,
        TextKey::Minutes => "分钟"@,
        TextKey::Actions => "操作"@,
        TextKey::Edit => "编辑"@,
        TextKey::Today => "今天"@,
        TextKey::AddEntry => "添加记录"@,
        TextKey::ManualEntry => "手动录入"@,
        TextKey::SaveEntry => "保存记录"@,
        TextKey::StatsDate => "统计日期"@,
        TextKey::Current => "当前"@,
        TextKey::NoStats => "暂无统计数据"@,
        TextKey::CategoryDistribution => "类别分布"@,
        TextKey::TimeTrend => "时间趋势"@,
        TextKey::Details => "明细"@,
        TextKey::Total => "合计"@,
        TextKey::Elapsed => "已用时间"@,
        TextKey::EndActivity => "结束活动"@,
        TextKey::NoCurrentActivity => "当前没有进行中的活动"@,
        TextKey::RealtimeTracking => "实时记录"@,
        TextKey::StartTracking => "开始记录"@,
    }
}

/// The English text of a key.
pub open spec fn english_text(key: TextKey) -> Seq<char> {
    match key {
        TextKey::EditEntry => "Edit Entry"@,
        TextKey::Week => "Week"@,
        TextKey::Month => "Month"@,
        TextKey::Year => "Year"@,
        TextKey::DatabaseError => "Database error"@,
        TextKey::InvalidTimeRange => "Start time must be earlier than end time"@,
        TextKey::EmptyActivity => "Activity name cannot be empty"@,
        TextKey::EmptyCategory => "Category cannot be empty"@,
        TextKey::NoActiveActivity => "No activity in progress"@,
        TextKey::InvalidDate => "Date must be in YYYY-MM-DD format"@,
        TextKey::InvalidClockTime => "Time must be in HH:MM format"@,
        TextKey::ActivityStarted => "Activity started"@,
        TextKey::ActivityEnded => "Activity ended"@,
        TextKey::EntrySaved => "Entry saved"@,
        TextKey::EntryUpdated => "Entry updated"@,
        TextKey::EntryDeleted => "Entry deleted"@,
        TextKey::SaveChanges => "Save Changes"@,
        TextKey::Delete => "Delete"@,
        TextKey::Cancel => "Cancel"@,
        TextKey::NoData => "No data"@,
        TextKey::Close => "Close"@,
        TextKey::Timer => "Timer"@,
        TextKey::Records => "Records"@,
        TextKey::Statistics => "Statistics"@,
        TextKey::Refresh => "Refresh"@,
        TextKey::LanguageSwitch => "中文"@,
        TextKey::Info => "Info"@,
        TextKey::Error => "Error"@,
        TextKey::ActivityName => "Activity Name"@,
        TextKey::Location => "Location"@,
        TextKey::StartDate => "Start Date"@,
        TextKey::StartTime => "Start Time"@,
        TextKey::EndDate => "End Date"@,
        TextKey::EndTime => "End Time"@,
        TextKey::Description => "Description"@,
        TextKey::Category => "Category"@,
        TextKey::Date => "Date"@,
        TextKey::Activity => "Activity"@,
        TextKey::Start => "Start"@,
        TextKey::End => "End"@,
        TextKey::Minutes => "Minutes"@,
        TextKey::Actions => "Actions"@,
        TextKey::Edit => "Edit"@,
        TextKey::Today => "Today"@,
        TextKey::AddEntry => "Add Entry"@,
        TextKey::ManualEntry => "Manual Entry"@,
        TextKey::SaveEntry => "Save Entry"@,
        TextKey::StatsDate => "Stats Date"@,
        TextKey::Current => "Current"@,
        TextKey::NoStats => "No statistics"@,
        TextKey::CategoryDistribution => "Category Distribution"@,
        TextKey::TimeTrend => "Time Trend"@,
        TextKey::Details => "Details"@,
        TextKey::Total => "Total"@,
        TextKey::Elapsed => "Elapsed"@,
        TextKey::EndActivity => "End Activity"@,
        TextKey::NoCurrentActivity => "No activity in progress"@,
        TextKey::RealtimeTracking => "Realtime Tracking"@,
        TextKey::StartTracking => "Start Tracking"@,
    }
}

/// The text of `key` in `language`.
pub open spec fn text_of(language: Language, key: TextKey) -> Seq<char> {
    match language {
        Language::Chinese => chinese_text(key),
        Language::English => english_text(key),
    }
}

fn chinese(key: TextKey) -> (r: &'static str)
    ensures
        r@ == chinese_text(key),
{
    match key {
        TextKey::EditEntry => "编辑记录",
        TextKey::Week => "周",
        TextKey::Month => "月",
        TextKey::Year => "年",
        TextKey::DatabaseError => "数据库错误",
        TextKey::InvalidTimeRange => "开始时间必须早于结束时间",
        TextKey::EmptyActivity => "活动名称不能为空",
        TextKey::EmptyCategory => "类别不能为空",
        TextKey::NoActiveActivity => "没有正在进行的活动",
        TextKey::InvalidDate => "日期格式应为 YYYY-MM-DD",
        TextKey::InvalidClockTime => "时间格式应为 HH:MM",
        TextKey::ActivityStarted => "活动已开始",
        TextKey::ActivityEnded => "活动已结束",
        TextKey::EntrySaved => "记录已保存",
        TextKey::EntryUpdated => "记录已更新",
        TextKey::EntryDeleted => "记录已删除",
        TextKey::SaveChanges => "保存修改",
        TextKey::Delete => "删除",
        TextKey::Cancel => "取消",
        TextKey::NoData => "暂无数据",
        TextKey::Close => "关闭",
        TextKey::Timer => "计时",
        TextKey::Records => "记录",
        TextKey::Statistics => "统计",
        TextKey::Refresh => "刷新",
        TextKey::LanguageSwitch => "English",
        TextKey::Info => "提示",
        TextKey::Error => "错误",
        TextKey::ActivityName => "活动名称",
        TextKey::Location => "地点",
        TextKey::StartDate => "开始日期",
        TextKey::StartTime => "开始时间",
        TextKey::EndDate => "结束日期",
        TextKey::EndTime => "结束时间",
        TextKey::Description => "描述",
        TextKey::Category => "类别",
        TextKey::Date => "日期",
        TextKey::Activity => "活动",
        TextKey::Start => "开始",
        TextKey::End => "结束",
        TextKey::Minutes => "分钟",
        TextKey::Actions => "操作",
        TextKey::Edit => "编辑",
        TextKey::Today => "今天",
        TextKey::AddEntry => "添加记录",
        TextKey::ManualEntry => "手动录入",
        TextKey::SaveEntry => "保存记录",
        TextKey::StatsDate => "统计日期",
        TextKey::Current => "当前",
        TextKey::NoStats => "暂无统计数据",
        TextKey::CategoryDistribution => "类别分布",
        TextKey::TimeTrend => "时间趋势",
        TextKey::Details => "明细",
        TextKey::Total => "合计",
        TextKey::Elapsed => "已用时间",
        TextKey::EndActivity => "结束活动",
        TextKey::NoCurrentActivity => "当前没有进行中的活动",
        TextKey::RealtimeTracking => "实时记录",
        TextKey::StartTracking => "开始记录",
    }
}

fn english(key: TextKey) -> (r: &'static str)
    ensures
        r@ == english_text(key),
{
    match key {
        TextKey::EditEntry => "Edit Entry",
        TextKey::Week => "Week",
        TextKey::Month => "Month",
        TextKey::Year => "Year",
        TextKey::DatabaseError => "Database error",
        TextKey::InvalidTimeRange => "Start time must be earlier than end time",
        TextKey::EmptyActivity => "Activity name cannot be empty",
        TextKey::EmptyCategory => "Category cannot be empty",
        TextKey::NoActiveActivity => "No activity in progress",
        TextKey::InvalidDate => "Date must be in YYYY-MM-DD format",
        TextKey::InvalidClockTime => "Time must be in HH:MM format",
        TextKey::ActivityStarted => "Activity started",
        TextKey::ActivityEnded => "Activity ended",
        TextKey::EntrySaved => "Entry saved",
        TextKey::EntryUpdated => "Entry updated",
        TextKey::EntryDeleted => "Entry deleted",
        TextKey::SaveChanges => "Save Changes",
        TextKey::Delete => "Delete",
        TextKey::Cancel => "Cancel",
        TextKey::NoData => "No data",
        TextKey::Close => "Close",
        TextKey::Timer => "Timer",
        TextKey::Records => "Records",
        TextKey::Statistics => "Statistics",
        TextKey::Refresh => "Refresh",
        TextKey::LanguageSwitch => "中文",
        TextKey::Info => "Info",
        TextKey::Error => "Error",
        TextKey::ActivityName => "Activity Name",
        TextKey::Location => "Location",
        TextKey::StartDate => "Start Date",
        TextKey::StartTime => "Start Time",
        TextKey::EndDate => "End Date",
        TextKey::EndTime => "End Time",
        TextKey::Description => "Description",
        TextKey::Category => "Category",
        TextKey::Date => "Date",
        TextKey::Activity => "Activity",
        TextKey::Start => "Start",
        TextKey::End => "End",
        TextKey::Minutes => "Minutes",
        TextKey::Actions => "Actions",
        TextKey::Edit => "Edit",
        TextKey::Today => "Today",
        TextKey::AddEntry => "Add Entry",
        TextKey::ManualEntry => "Manual Entry",
        TextKey::SaveEntry => "Save Entry",
        TextKey::StatsDate => "Stats Date",
        TextKey::Current => "Current",
        TextKey::NoStats => "No statistics",
        TextKey::CategoryDistribution => "Category Distribution",
        TextKey::TimeTrend => "Time Trend",
        TextKey::Details => "Details",
        TextKey::Total => "Total",
        TextKey::Elapsed => "Elapsed",
        TextKey::EndActivity => "End Activity",
        TextKey::NoCurrentActivity => "No activity in progress",
        TextKey::RealtimeTracking => "Realtime Tracking",
        TextKey::StartTracking => "Start Tracking",
    }
}

/// The text of `key` in `language`.
pub fn tr(language: Language, key: TextKey) -> (r: &'static str)
    ensures
        r@ == text_of(language, key),
{
    match language {
        Language::Chinese => chinese(key),
        Language::English => english(key),
    }
}

/// The activity categories: the stored name (Chinese) and the English name.
pub open spec fn category_names() -> Seq<(Seq<char>, Seq<char>)> {
    seq![
        ("工作"@, "Work"@),
        ("学习"@, "Study"@),
        ("运动"@, "Exercise"@),
        ("休息"@, "Rest"@),
        ("娱乐"@, "Entertainment"@),
        ("其他"@, "Other"@),
    ]
}

/// The category names as a table: `(stored name, English name)`.
pub fn categories() -> (r: Vec<(&'static str, &'static str)>)
    ensures
        r@.len() == category_names().len(),
        forall|i: int|
            0 <= i < r@.len() ==> (#[trigger] r@[i]).0@ == category_names()[i].0 && r@[i].1@
                == category_names()[i].1,
{
    let mut v: Vec<(&'static str, &'static str)> = Vec::new();
    v.push(("工作", "Work"));
    v.push(("学习", "Study"));
    v.push(("运动", "Exercise"));
    v.push(("休息", "Rest"));
    v.push(("娱乐", "Entertainment"));
    v.push(("其他", "Other"));
    assert(v@.len() == category_names().len());
    v
}

/// The first category whose stored or English name is `name`.
pub open spec fn category_index_from(name: Seq<char>, i: int) -> Option<int>
    decreases 6 - i,
{
    if i < 0 || i >= 6 || i >= category_names().len() {
        None
    } else if category_names()[i].0 == name || category_names()[i].1 == name {
        Some(i)
    } else {
        category_index_from(name, i + 1)
    }
}

pub open spec fn category_index(name: Seq<char>) -> Option<int> {
    category_index_from(name, 0)
}

/// How a stored category is shown: a known category by its name in the
/// language, any other text as it is.
pub open spec fn category_label_text(language: Language, value: Seq<char>) -> Seq<char> {
    match category_index(value) {
        Some(i) => match language {
            Language::Chinese => category_names()[i].0,
            Language::English => category_names()[i].1,
        },
        None => value,
    }
}

/// How a chosen label is stored: a known category by its stored name, any
/// other text as it is.
pub open spec fn category_value_text(label: Seq<char>) -> Seq<char> {
    match category_index(label) {
        Some(i) => category_names()[i].0,
        None => label,
    }
}

fn find_category(name: &str) -> (r: Option<usize>)
    ensures
        r matches Some(i) ==> category_index(name@) == Some(i as int) && i < category_names().len(),
        r is None ==> category_index(name@) is None,
{
    let table = categories();
    let mut i: usize = 0;
    while i < table.len()
        invariant
            table@.len() == category_names().len(),
            forall|k: int|
                0 <= k < table@.len() ==> (#[trigger] table@[k]).0@ == category_names()[k].0
                    && table@[k].1@ == category_names()[k].1,
            i <= table@.len(),
            category_index(name@) == category_index_from(name@, i as int),
        decreases table.len() - i,
    {
        let (zh, en) = table[i];
        if text_equal(zh, name) || text_equal(en, name) {
            return Some(i);
        }
        i = i + 1;
    }
    None
}

/// The label under which a stored category is shown in `language`.
pub fn category_label(language: Language, value: &str) -> (r: String)
    ensures
        r@ == category_label_text(language, value@),
{
    let table = categories();
    match find_category(value) {
        Some(i) => {
            let (zh, en) = table[i];
            match language {
                Language::Chinese => zh.to_owned(),
                Language::English => en.to_owned(),
            }
        },
        None => value.to_owned(),
    }
}

/// The stored category for a label the user picked.
pub fn category_value_from_label(label: &str) -> (r: String)
    ensures
        r@ == category_value_text(label@),
{
    let table = categories();
    match find_category(label) {
        Some(i) => table[i].0.to_owned(),
        None => label.to_owned(),
    }
}

/// The category names that the category picker offers in `language`.
pub fn category_choices(language: Language) -> (r: Vec<&'static str>)
    ensures
        r@.len() == category_names().len(),
        forall|i: int|
            0 <= i < r@.len() ==> (#[trigger] r@[i])@ == category_label_text(
                language,
                category_names()[i].0,
            ),
{
    let table = categories();
    let mut out: Vec<&'static str> = Vec::new();
    let mut i: usize = 0;
    while i < table.len()
        invariant
            table@.len() == category_names().len(),
            forall|k: int|
                0 <= k < table@.len() ==> (#[trigger] table@[k]).0@ == category_names()[k].0
                    && table@[k].1@ == category_names()[k].1,
            i <= table@.len(),
            out@.len() == i,
            forall|k: int|
                0 <= k < i ==> (#[trigger] out@[k])@ == category_label_text(
                    language,
                    category_names()[k].0,
                ),
        decreases table.len() - i,
    {
        let (zh, en) = table[i];
        proof {
            lemma_category_index_of_stored(i as int);
        }
        match language {
            Language::Chinese => out.push(zh),
            Language::English => out.push(en),
        }
        i = i + 1;
    }
    out
}

/// The stored name of the first category: the one a new form starts with.
pub fn default_category() -> (r: String)
    ensures
        r@ == category_names()[0].0,
{
    let table = categories();
    table[0].0.to_owned()
}

/// Each stored category name finds its own entry in the table.
pub proof fn lemma_category_index_of_stored(i: int)
    requires
        0 <= i < category_names().len(),
    ensures
        category_index(category_names()[i].0) == Some(i),
{
    lemma_category_names_distinct();
    lemma_category_index_scan(category_names()[i].0, i, 0);
}

/// Each English category name finds its own entry in the table.
pub proof fn lemma_category_index_of_english(i: int)
    requires
        0 <= i < category_names().len(),
    ensures
        category_index(category_names()[i].1) == Some(i),
{
    lemma_category_names_distinct();
    lemma_category_index_scan_english(category_names()[i].1, i, 0);
}

proof fn lemma_category_index_scan_english(name: Seq<char>, i: int, k: int)
    requires
        0 <= k <= i < category_names().len(),
        name == category_names()[i].1,
        forall|a: int, b: int|
            0 <= a < category_names().len() && 0 <= b < category_names().len() && a != b
                ==> category_names()[a].1 != category_names()[b].1,
        forall|a: int, b: int|
            0 <= a < category_names().len() && 0 <= b < category_names().len()
                ==> category_names()[a].1 != category_names()[b].0,
    ensures
        category_index_from(name, k) == Some(i),
    decreases i - k,
{
    if k < i {
        lemma_category_index_scan_english(name, i, k + 1);
    }
}

proof fn lemma_category_index_scan(name: Seq<char>, i: int, k: int)
    requires
        0 <= k <= i < category_names().len(),
        name == category_names()[i].0,
        forall|a: int, b: int|
            0 <= a < category_names().len() && 0 <= b < category_names().len() && a != b
                ==> category_names()[a].0 != category_names()[b].0 && category_names()[a].1
                != category_names()[b].0,
    ensures
        category_index_from(name, k) == Some(i),
    decreases i - k,
{
    if k < i {
        lemma_category_index_scan(name, i, k + 1);
    }
}

/// No category name is the stored or English name of another category, and
/// no English name is a stored name.
pub proof fn lemma_category_names_distinct()
    ensures
        forall|a: int, b: int|
            0 <= a < category_names().len() && 0 <= b < category_names().len() && a != b
                ==> category_names()[a].0 != category_names()[b].0 && category_names()[a].1
                != category_names()[b].0 && category_names()[a].1 != category_names()[b].1,
        forall|a: int, b: int|
            0 <= a < category_names().len() && 0 <= b < category_names().len()
                ==> category_names()[a].1 != category_names()[b].0,
{
    reveal_strlit("工作");
    reveal_strlit("学习");
    reveal_strlit("运动");
    reveal_strlit("休息");
    reveal_strlit("娱乐");
    reveal_strlit("其他");
    reveal_strlit("Work");
    reveal_strlit("Study");
    reveal_strlit("Exercise");
    reveal_strlit("Rest");
    reveal_strlit("Entertainment");
    reveal_strlit("Other");
    assert forall|a: int, b: int|
        0 <= a < category_names().len() && 0 <= b < category_names().len() && a != b implies
        category_names()[a].0 != category_names()[b].0 && category_names()[a].1
            != category_names()[b].0 && category_names()[a].1 != category_names()[b].1 by {
        let x = category_names()[a];
        let y = category_names()[b];
        assert(x.0[0] != y.0[0] || x.0[1] != y.0[1]);
        assert(x.1[0] != y.0[0]);
        assert(x.1[0] != y.1[0] || x.1[1] != y.1[1]);
    }
    assert forall|a: int, b: int|
        0 <= a < category_names().len() && 0 <= b < category_names().len() implies
        category_names()[a].1 != category_names()[b].0 by {
        let x = category_names()[a];
        let y = category_names()[b];
        assert(x.1[0] != y.0[0]);
    }
}

} // verus!
