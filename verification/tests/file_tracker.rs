//! Which files changed.

use cruise::file_tracker::{is_excluded, FileTracker, Snapshot};

fn setup() -> Snapshot {
    snapshot(&[("file1.txt", "content1"), ("file2.txt", "content2")])
}

fn snapshot(files: &[(&str, &str)]) -> Snapshot {
    let mut now = Snapshot::new();
    for (path, contents) in files {
        if !is_excluded(path, false) {
            now.add(path.to_string(), contents.as_bytes());
        }
    }
    now
}

#[test]
fn test_excluded_dirs() {
    let now = snapshot(&[(".git/config", "git config"), ("main.rs", "fn main() {}")]);
    assert!(!now.differs_from(&snapshot(&[("main.rs", "fn main() {}")])));
    assert!(is_excluded("a/node_modules/b.js", false));
    assert!(is_excluded("target/debug/cruise", false));
    assert!(!is_excluded("src/targets.rs", false));
}

#[test]
fn test_no_changes_detected() {
    let mut tracker = FileTracker::with_root("/repo".to_string());
    tracker.take_snapshot("step1", setup());
    assert!(!tracker.has_files_changed("step1", &setup()));
}

#[test]
fn test_file_modification_detected() {
    let mut tracker = FileTracker::with_root("/repo".to_string());
    tracker.take_snapshot("step1", setup());
    let now = snapshot(&[
        ("file1.txt", "modified content"),
        ("file2.txt", "content2"),
    ]);
    assert!(tracker.has_files_changed("step1", &now));
}

#[test]
fn test_file_addition_detected() {
    let mut tracker = FileTracker::with_root("/repo".to_string());
    tracker.take_snapshot("step1", setup());
    let mut now = setup();
    now.add("new_file.txt".to_string(), b"new content");
    assert!(tracker.has_files_changed("step1", &now));
}

#[test]
fn test_file_deletion_detected() {
    let mut tracker = FileTracker::with_root("/repo".to_string());
    tracker.take_snapshot("step1", setup());
    assert!(tracker.has_files_changed("step1", &snapshot(&[("file2.txt", "content2")])));
}

#[test]
fn test_no_snapshot_returns_false() {
    let tracker = FileTracker::new();
    assert!(!tracker.has_files_changed("nonexistent", &Snapshot::new()));
}

#[test]
fn snapshots_have_names_of_their_own() {
    let mut tracker = FileTracker::with_root("/repo".to_string());
    assert_eq!(tracker.root(), "/repo");
    tracker.take_snapshot("a", setup());
    tracker.take_snapshot("b", Snapshot::new());
    assert!(tracker.has_snapshot("a"));
    assert!(!tracker.has_snapshot("c"));
    assert!(!tracker.has_files_changed("a", &setup()));
    assert!(tracker.has_files_changed("b", &setup()));
}

#[test]
fn the_digest_tells_contents_apart() {
    let mut a = Snapshot::new();
    a.add("f".to_string(), b"");
    let mut b = Snapshot::new();
    b.add("f".to_string(), b"\0");
    assert!(a.differs_from(&b));
    assert!(!a.differs_from(&a.copy()));
}
