//! Text for the terminal.

use cruise::display::{bordered, truncate, wrap_line};
use cruise::span::{plain_text, Tone};

#[test]
fn wrap_line_short() {
    let result = wrap_line("hello world", 80);
    assert_eq!(result, vec!["hello world"]);
}

#[test]
fn wrap_line_empty() {
    let result = wrap_line("", 80);
    assert_eq!(result, vec![""]);
}

#[test]
fn wrap_line_exact_width() {
    let result = wrap_line("abcd", 4);
    assert_eq!(result, vec!["abcd"]);
}

#[test]
fn wrap_line_overflow() {
    let result = wrap_line("hello world foo", 10);
    assert_eq!(result.len(), 2);
    assert_eq!(result[0], "hello ");
    assert_eq!(result[1], "world foo");
}

#[test]
fn wrap_line_long_word() {
    let result = wrap_line("abcdefghij", 4);
    assert_eq!(result, vec!["abcd", "efgh", "ij"]);
}

#[test]
fn test_truncate_short_string() {
    assert_eq!(truncate("hello", 10), "hello");
}

#[test]
fn test_truncate_exact_length() {
    assert_eq!(truncate("hello", 5), "hello");
}

#[test]
fn test_truncate_long_string() {
    let result = truncate("hello world", 5);
    assert_eq!(result, "hello…");
}

#[test]
fn test_truncate_multiline() {
    let result = truncate("first line\nsecond line", 20);
    assert_eq!(result, "first line");
}

#[test]
fn test_truncate_short_single_line_returns_as_is() {
    let result = truncate("hello", 80);
    assert_eq!(result, "hello");
}

#[test]
fn test_truncate_long_single_line_appends_ellipsis() {
    let result = truncate("abcde", 3);
    assert_eq!(result, "abc…");
}

#[test]
fn test_truncate_multiline_returns_first_line_only() {
    let result = truncate("line1\nline2\nline3", 80);
    assert_eq!(result, "line1");
}

#[test]
fn test_truncate_multiline_long_first_line_truncated() {
    let first = "a".repeat(100);
    let input = format!("{first}\nshort");
    let result = truncate(&input, 10);
    assert_eq!(result, format!("{}…", "a".repeat(10)));
    assert!(!result.contains("short"));
}

#[test]
fn test_truncate_trims_leading_trailing_whitespace() {
    let result = truncate("  hello  ", 80);
    assert_eq!(result, "hello");
}

#[test]
fn wide_characters_take_two_columns() {
    assert_eq!(wrap_line("日本語", 4), vec!["日本", "語"]);
}

#[test]
fn a_frame_has_a_title() {
    let frame = bordered("hi\nthere", Some("T"), 0);
    assert_eq!(
        plain_text(&frame),
        "\n┌─ T ──────────────┐\n│ hi               │\n│ there            │\n\
         └──────────────────┘\n"
    );
    assert_eq!(frame[1].tone, Tone::Cyan);
    assert_eq!((frame[2].text.as_str(), frame[2].tone), (" T ", Tone::CyanBold));
}

#[test]
fn a_frame_wraps_its_text() {
    let frame = plain_text(&bordered("one two three four five six", None, 20));
    let rows: Vec<&str> = frame.lines().collect();
    assert_eq!(
        rows,
        vec![
            "",
            "┌──────────────────┐",
            "│ one two three    │",
            "│ four five six    │",
            "└──────────────────┘",
        ]
    );
    let wide = plain_text(&bordered("a", None, 300));
    assert!(wide.lines().skip(1).all(|l| l.chars().count() == 100));
}
