//! Texts, names, paths and the arguments of the program.

use cruise::clean_cmd::cleanup_notice;
use cruise::cli::Args;
use cruise::edges::EdgeCounts;
use cruise::names::NameMap;
use cruise::file_tracker::is_excluded;
use cruise::path::{
    is_absolute, is_under, joined_path, normalize_parts, parts_of, path_with_parts, to_absolute,
};
use cruise::platform::shell_command;
use cruise::session::CleanupReport;
use cruise::span::plain_text;
use cruise::text::{
    after_prefix, begins, blank, decimal_of, ends, front_of, has, in_order_of, joined, lines_of,
    padded_of, parse_number, parse_or_fault, replaced, signed_decimal_of, split_on,
    strip_leading, strip_trailing, trimmed, trimmed_end, trimmed_start, words_of,
};

#[test]
fn texts_are_trimmed_and_split() {
    assert_eq!(trimmed(" \u{2003}a b\n"), "a b");
    assert_eq!(trimmed_start(" a "), "a ");
    assert_eq!(trimmed_end(" a "), " a");
    assert!(blank(" \t\r\n") && !blank(" x"));
    assert_eq!(lines_of("a\r\nb\n\nc"), vec!["a", "b", "", "c"]);
    assert_eq!(lines_of("a\n"), vec!["a"]);
    assert!(lines_of("").is_empty());
    assert_eq!(split_on("a//b", '/'), vec!["a", "", "b"]);
    assert_eq!(words_of("  a \n bc "), vec!["a", "bc"]);
    assert_eq!(
        joined(&vec!["a".to_string(), "b".to_string()], ", "),
        "a, b"
    );
    assert_eq!(front_of("日本語", 2), "日本");
    assert_eq!(strip_trailing("a//", '/'), "a");
    assert_eq!(strip_leading("##a#", '#'), "a#");
}

#[test]
fn texts_are_searched() {
    assert!(has("abcd", "bc") && has("abc", "") && !has("abc", "ac"));
    assert!(begins("abc", "ab") && ends("abc", "bc"));
    assert_eq!(after_prefix("abc", "ab").as_deref(), Some("c"));
    assert_eq!(after_prefix("abc", "b"), None);
    assert_eq!(replaced("aXbX", "X", "YY"), "aYYbYY");
    assert_eq!(replaced("aaa", "aa", "b"), "ba");
}

#[test]
fn numbers_are_written_and_read() {
    assert_eq!(decimal_of(u64::MAX), u64::MAX.to_string());
    assert_eq!(decimal_of(0), "0");
    assert_eq!(signed_decimal_of(i32::MIN), i32::MIN.to_string());
    assert_eq!(padded_of(7, 2), "07");
    assert_eq!(parse_number("+12", 255), Some(12));
    for bad in ["", "+", "-1", "1x", "256"] {
        assert_eq!(parse_number(bad, 255), None, "{bad}");
        let std_says = bad.parse::<u8>().map_or_else(|e| e.to_string(), |n| n.to_string());
        let fault = parse_or_fault(bad, 255);
        assert_eq!(
            fault.map_or_else(|f| f.text().to_string(), |n| n.to_string()),
            std_says
        );
    }
}

#[test]
fn texts_are_put_in_order() {
    let keys: Vec<String> = ["b", "a", "ab", "", "日", "~"]
        .iter()
        .map(|s| s.to_string())
        .collect();
    let mut sorted = keys.clone();
    sorted.sort();
    assert_eq!(in_order_of(&keys), sorted);
}

#[test]
fn names_lead_to_values() {
    let mut m: NameMap<u8> = NameMap::new();
    assert!(m.is_empty());
    m.insert("b".to_string(), 1);
    m.insert("a".to_string(), 2);
    m.insert("b".to_string(), 3);
    assert_eq!(m.len(), 2);
    assert_eq!(m.get("b"), Some(&3));
    assert_eq!(m.get("c"), None);
    assert!(m.contains_key("a"));
    assert_eq!((m.name_at(0).as_str(), *m.value_at(0)), ("b", 3));
    m.clear();
    assert!(m.is_empty());
}

#[test]
fn edges_are_counted() {
    let mut edges = EdgeCounts::new();
    assert_eq!(edges.bump("a", "b"), 1);
    assert_eq!(edges.bump("b", "a"), 1);
    assert_eq!(edges.bump("b", "a"), 2);
    assert_eq!(edges.count("b", "a"), 2);
    assert_eq!(edges.count("b", "c"), 0);
    let table = edges.by_count();
    assert_eq!(table[0], ("b".to_string(), "a".to_string(), 2));
    assert_eq!(table[1], ("a".to_string(), "b".to_string(), 1));
    assert_eq!(table.len(), 2);
    edges.clear();
    assert_eq!(edges.count("b", "a"), 0);
}

#[test]
fn paths_are_joined_and_folded() {
    assert!(is_absolute("/a", false) && !is_absolute("a/b", false));
    assert_eq!(joined_path("/a", "b", false), "/a/b");
    assert_eq!(joined_path("/a/", "b", false), "/a/b");
    assert_eq!(joined_path("/a", "/b", false), "/b");
    assert_eq!(joined_path("", "b", false), "b");
    assert_eq!(joined_path("/a", "C:\\b", false), "/a/C:\\b");
    assert_eq!(to_absolute("a", Some("/cwd"), false), "/cwd/a");
    assert_eq!(to_absolute("/a", Some("/cwd"), false), "/a");
    assert_eq!(to_absolute("a", None, false), "a");
    let folded = |p: &str| normalize_parts(&parts_of(p, false));
    let under = |p: &str, dir: &str| is_under(p, &folded(p), dir, false);
    assert_eq!(folded("/a/./b/../c"), folded("/a/c"));
    assert!(under("/a/b/c", "/a/b"));
    assert!(!under("/a/bc", "/a/b"));
    assert!(!under("/a/b/../c", "/a/b"));
    assert!(!under("a/b", "/a"));
    assert_eq!(path_with_parts("/x", &folded("/a/./b/../c"), false), "/a/c");
    assert_eq!(path_with_parts("x", &folded("a//b/"), false), "a/b");
}

#[test]
fn paths_of_windows() {
    for (path, absolute) in [
        ("C:\\work\\a", true),
        ("c:/work", true),
        ("C:work", false),
        ("C:", false),
        ("\\work", false),
        ("/work", false),
        ("work", false),
        ("\\\\server\\share", true),
        ("\\\\server\\share\\a", true),
        ("\\\\server", false),
        ("\\\\?\\C:\\work", true),
        ("1:\\a", false),
    ] {
        assert_eq!(is_absolute(path, true), absolute, "{path}");
    }
    for (a, b, joined) in [
        ("C:\\work", "a.yaml", "C:\\work\\a.yaml"),
        ("C:\\work\\", "a", "C:\\work\\a"),
        ("C:/work/", "a", "C:/work/a"),
        ("C:", "a", "C:a"),
        ("C:\\work", "D:\\a", "D:\\a"),
        ("C:\\work", "D:a", "D:a"),
        ("C:\\work", "\\a", "C:\\a"),
        ("\\\\s\\t\\x", "/a", "\\\\s\\t/a"),
        ("\\\\?\\C:\\work", "..\\a/./b", "\\\\?\\C:\\a\\b"),
        ("\\\\?\\C:\\work", "\\a\\..\\..\\b", "\\\\?\\C:\\b"),
    ] {
        assert_eq!(joined_path(a, b, true), joined, "{a} {b}");
    }
    assert_eq!(
        to_absolute("C:\\cfg\\x.yaml", Some("D:\\work"), true),
        "C:\\cfg\\x.yaml"
    );
    assert_eq!(to_absolute("x.yaml", Some("D:\\work"), true), "D:\\work\\x.yaml");
    let folded = |p: &str| normalize_parts(&parts_of(p, true));
    let under = |p: &str, dir: &str| is_under(p, &folded(p), dir, true);
    assert_eq!(folded("C:\\a/b\\..\\.\\c"), vec!["a", "c"]);
    assert!(under("c:\\work\\a", "C:\\work"));
    assert!(under("\\\\s\\t\\a", "//s/t"));
    assert!(!under("D:\\work\\a", "C:\\work"));
    assert!(!under("C:\\work\\..\\a", "C:\\work"));
    assert_eq!(
        path_with_parts("C:/x", &folded("C:/work/../a/b"), true),
        "C:\\a\\b"
    );
    assert!(is_excluded("C:\\work\\.git\\HEAD", true));
    assert!(!is_excluded("C:\\work\\.git\\HEAD", false));
}

#[test]
fn piped_text_is_the_input() {
    let mut args = Args::default();
    args.complete(" \n");
    assert_eq!(args.input, None);
    args.complete("  add x\n");
    assert_eq!(args.input.as_deref(), Some("add x"));
    args.complete("other");
    assert_eq!(args.input.as_deref(), Some("add x"));
    assert_eq!((args.max_retries, args.rate_limit_retries), (10, 5));
    assert!(!args.dry_run && !args.worktree && !args.keep_worktree && !args.new_worktree);
}

#[test]
fn a_cleanup_is_told() {
    let (said, skipped) = cleanup_notice(&CleanupReport {
        deleted: 0,
        skipped: 0,
    });
    assert_eq!(plain_text(&said), "No sessions to clean up.");
    assert_eq!(skipped, None);
    let (said, skipped) = cleanup_notice(&CleanupReport {
        deleted: 2,
        skipped: 1,
    });
    assert_eq!(
        plain_text(&said),
        "✓ Removed 2 session(s) with closed/merged PRs."
    );
    assert_eq!(
        skipped.as_deref(),
        Some("  1 session(s) skipped (PR still open or check failed).")
    );
    assert_eq!(shell_command(false), ("sh", "-c"));
    assert_eq!(shell_command(true), ("cmd.exe", "/C"));
}
