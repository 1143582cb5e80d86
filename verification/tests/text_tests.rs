use mytime::text::{
    char_is_whitespace, character_display_width, digit, display_width, is_blank_text,
    push_decimal, push_signed, push_zero_padded, text_equal, trim, truncate_with_ellipsis,
};

#[test]
fn trimming_matches_str_trim() {
    assert_eq!(trim("  a b\t"), "a b");
    assert_eq!(trim(""), "");
    assert_eq!(trim("   "), "");
    assert_eq!(trim("\u{3000}工作\u{2003}"), "工作");
    assert_eq!(trim("\n\r x \u{85}"), "x");
    for s in [
        "plain",
        "  lead",
        "trail  ",
        "\t\n mixed \u{a0}",
        "\u{200b}zero width is not whitespace\u{200b}",
        "\u{1680}\u{2028}\u{2029}\u{202f}\u{205f}in\u{3000}",
        "中 文",
    ] {
        assert_eq!(trim(s), s.trim(), "text {:?}", s);
    }
}

#[test]
fn whitespace_is_unicode_white_space() {
    for c in ['\t', '\n', '\u{b}', '\u{c}', '\r', ' ', '\u{85}', '\u{a0}', '\u{1680}', '\u{2000}',
        '\u{200a}', '\u{2028}', '\u{2029}', '\u{202f}', '\u{205f}', '\u{3000}', 'a', '中',
        '\u{200b}', '\u{180e}', '\u{feff}']
    {
        assert_eq!(char_is_whitespace(c), c.is_whitespace(), "char {:?}", c);
    }
    for v in 0u32..0x3100 {
        if let Some(c) = char::from_u32(v) {
            assert_eq!(char_is_whitespace(c), c.is_whitespace(), "char {:?}", c);
        }
    }
}

#[test]
fn blank_texts() {
    assert!(is_blank_text(""));
    assert!(is_blank_text(" \t\u{3000}"));
    assert!(!is_blank_text(" a "));
}

#[test]
fn text_equality() {
    assert!(text_equal("工作", "工作"));
    assert!(!text_equal("工作", "学习"));
    assert!(!text_equal("ab", "abc"));
    assert!(text_equal("", ""));
}

#[test]
fn display_widths() {
    assert_eq!(character_display_width('a'), 1);
    assert_eq!(character_display_width('~'), 1);
    assert_eq!(character_display_width('中'), 2);
    assert_eq!(character_display_width('é'), 2);
    assert_eq!(display_width("ab中"), 4);
    assert_eq!(display_width(""), 0);
}

#[test]
fn truncation_with_an_ellipsis() {
    assert_eq!(truncate_with_ellipsis("hello", 10), "hello");
    assert_eq!(truncate_with_ellipsis("hello", 5), "hello");
    assert_eq!(truncate_with_ellipsis("hello world", 8), "hello...");
    assert_eq!(truncate_with_ellipsis("中文测试文字", 7), "中文...");
    assert_eq!(truncate_with_ellipsis("中文测试文字", 8), "中文...");
    assert_eq!(truncate_with_ellipsis("abc", 2), "...");
    assert_eq!(truncate_with_ellipsis("abcdef", 0), "...");
    assert_eq!(truncate_with_ellipsis("a中b", 4), "a中b");
    assert_eq!(truncate_with_ellipsis("a中bc", 4), "a...");
    for w in 3..30usize {
        let t = truncate_with_ellipsis("编写代码 and tests 代码审查", w);
        assert!(display_width(&t) <= w);
    }
}

#[test]
fn decimal_helpers() {
    assert_eq!(digit(0), '0');
    assert_eq!(digit(9), '9');
    let mut s = String::from("n=");
    push_decimal(&mut s, 0);
    push_decimal(&mut s, 1234567890123);
    assert_eq!(s, "n=01234567890123");
    let mut p = String::new();
    push_zero_padded(&mut p, 7, 2);
    push_zero_padded(&mut p, 123, 2);
    push_zero_padded(&mut p, 5, 4);
    push_zero_padded(&mut p, 0, 0);
    assert_eq!(p, "0712300050");
    let mut q = String::new();
    push_signed(&mut q, -42);
    push_signed(&mut q, i64::MIN);
    push_signed(&mut q, 0);
    assert_eq!(q, format!("-42{}0", i64::MIN));
}

#[test]
fn widths_add_up_and_are_bounded() {
    for (a, b) in [("ab", "中文"), ("", "x"), ("é", ""), ("工作 work", "\u{3000}!")] {
        let joined = format!("{a}{b}");
        assert_eq!(display_width(&joined), display_width(a) + display_width(b));
    }
    assert_eq!(display_width(""), 0);
    for s in ["plain", "中文", "mixé", "", "a中b"] {
        let n = s.chars().count();
        let w = display_width(s);
        assert!(n <= w && w <= 2 * n);
        assert_eq!(w == n, s.is_ascii());
    }
}
