use mytime::i18n::{
    categories, category_choices, category_label, category_value_from_label, default_category,
    tr, Language, TextKey,
};
use mytime::model::StatsView;

#[test]
fn toggling_the_language_twice_comes_back() {
    assert_eq!(Language::Chinese.toggled(), Language::English);
    assert_eq!(Language::English.toggled(), Language::Chinese);
    for l in [Language::Chinese, Language::English] {
        assert_eq!(l.toggled().toggled(), l);
        assert_ne!(l.toggled(), l);
    }
}

#[test]
fn texts_in_both_languages() {
    assert_eq!(tr(Language::Chinese, TextKey::Week), "周");
    assert_eq!(tr(Language::English, TextKey::Week), "Week");
    assert_eq!(tr(Language::Chinese, TextKey::EditEntry), "编辑记录");
    assert_eq!(tr(Language::English, TextKey::EditEntry), "Edit Entry");
    assert_eq!(tr(Language::Chinese, TextKey::InvalidDate), "日期格式应为 YYYY-MM-DD");
    assert_eq!(tr(Language::English, TextKey::EntrySaved), "Entry saved");
    assert_eq!(tr(Language::Chinese, TextKey::LanguageSwitch), "English");
    assert_eq!(tr(Language::English, TextKey::LanguageSwitch), "中文");
}

#[test]
fn stats_view_labels() {
    assert_eq!(StatsView::Week.label(Language::Chinese), "周");
    assert_eq!(StatsView::Month.label(Language::Chinese), "月");
    assert_eq!(StatsView::Year.label(Language::Chinese), "年");
    assert_eq!(StatsView::Week.label(Language::English), "Week");
    assert_eq!(StatsView::Month.label(Language::English), "Month");
    assert_eq!(StatsView::Year.label(Language::English), "Year");
}

#[test]
fn the_category_table() {
    let t = categories();
    assert_eq!(t.len(), 6);
    assert_eq!(t[0], ("工作", "Work"));
    assert_eq!(t[5], ("其他", "Other"));
    assert_eq!(default_category(), "工作");
}

#[test]
fn categories_are_shown_in_the_interface_language() {
    assert_eq!(category_label(Language::English, "工作"), "Work");
    assert_eq!(category_label(Language::Chinese, "工作"), "工作");
    assert_eq!(category_label(Language::Chinese, "Study"), "学习");
    assert_eq!(category_label(Language::English, "园艺"), "园艺");
    assert_eq!(category_label(Language::English, ""), "");
}

#[test]
fn picked_labels_are_stored_by_their_stored_name() {
    assert_eq!(category_value_from_label("Work"), "工作");
    assert_eq!(category_value_from_label("运动"), "运动");
    assert_eq!(category_value_from_label("Entertainment"), "娱乐");
    assert_eq!(category_value_from_label("Gardening"), "Gardening");
}

#[test]
fn category_label_round_trip_on_stored_values() {
    for l in [Language::Chinese, Language::English] {
        for v in ["工作", "学习", "运动", "休息", "娱乐", "其他", "园艺", "", "work"] {
            assert_eq!(category_value_from_label(&category_label(l, v)), v);
        }
    }
    assert_eq!(category_value_from_label(&category_label(Language::English, "Work")), "工作");
}

#[test]
fn category_choices_round_trip() {
    assert_eq!(
        category_choices(Language::English),
        vec!["Work", "Study", "Exercise", "Rest", "Entertainment", "Other"]
    );
    assert_eq!(category_choices(Language::Chinese), vec!["工作", "学习", "运动", "休息", "娱乐", "其他"]);
    for l in [Language::Chinese, Language::English] {
        for c in category_choices(l) {
            assert_eq!(category_label(l, &category_value_from_label(c)), c);
        }
    }
}
