use bluemap_renderer::text::{
    contains_text, decimal_text, is_blank_text, parse_u32_range, replace_char_with, split_lines,
    to_ascii_lowercase,
};

#[test]
fn decimal_text_writes_plain_digits() {
    assert_eq!(decimal_text(0), "0");
    assert_eq!(decimal_text(7), "7");
    assert_eq!(decimal_text(8100), "8100");
    assert_eq!(decimal_text(u64::MAX), "18446744073709551615");
}

#[test]
fn contains_text_finds_substrings() {
    assert!(contains_text("hello world", "lo w"));
    assert!(contains_text("abc", ""));
    assert!(contains_text("abc", "abc"));
    assert!(!contains_text("abc", "abcd"));
    assert!(!contains_text("aab", "abb"));
    assert!(contains_text("地图渲染完成", "渲染"));
}

#[test]
fn lowercase_touches_ascii_letters_only() {
    assert_eq!(to_ascii_lowercase("Hello WORLD 123 Ä"), "hello world 123 Ä");
    assert_eq!(to_ascii_lowercase(""), "");
}

#[test]
fn replace_char_replaces_every_occurrence() {
    assert_eq!(replace_char_with(r"C:\a\b", '\\', "/"), "C:/a/b");
    assert_eq!(replace_char_with("none", '\\', "/"), "none");
    assert_eq!(replace_char_with("x\"y", '"', "\\\""), "x\\\"y");
}

#[test]
fn blank_text_means_only_unicode_whitespace() {
    assert!(is_blank_text(""));
    assert!(is_blank_text(" \t\r\n"));
    assert!(is_blank_text("\u{3000}\u{a0}"));
    assert!(!is_blank_text("  x  "));
}

#[test]
fn parse_u32_range_follows_from_str() {
    assert_eq!(parse_u32_range("17", 0, 2), Some(17));
    assert_eq!(parse_u32_range("+5", 0, 2), Some(5));
    assert_eq!(parse_u32_range("+", 0, 1), None);
    assert_eq!(parse_u32_range("", 0, 0), None);
    assert_eq!(parse_u32_range("-1", 0, 2), None);
    assert_eq!(parse_u32_range("4294967295", 0, 10), Some(u32::MAX));
    assert_eq!(parse_u32_range("4294967296", 0, 10), None);
    assert_eq!(parse_u32_range("99999999999x", 0, 12), None);
    assert_eq!(parse_u32_range("1a", 0, 2), None);
    assert_eq!(parse_u32_range("x21y", 1, 3), Some(21));
    for n in ["0", "007", "123456", "4000000000"] {
        assert_eq!(parse_u32_range(n, 0, n.len()), n.parse::<u32>().ok());
    }
}

#[test]
fn split_lines_matches_str_lines() {
    for text in ["", "a", "a\n", "a\r\nb", "foo\r\nbar\n\nbaz\r", "\n\n", "x\ry\n", "\r\n"] {
        let expected: Vec<String> = text.lines().map(|l| l.to_string()).collect();
        assert_eq!(split_lines(text), expected, "text {:?}", text);
    }
}
