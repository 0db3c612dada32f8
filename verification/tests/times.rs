//! Times and durations.

use std::time::Duration;

use cruise::clock::{
    current_iso8601, current_timestamp_id, date_to_days, free_timestamp_id, is_leap_year, iso8601,
    new_timestamp_id, parse_iso8601_secs, seconds_to_datetime, timestamp_id,
};
use cruise::duration::{format_duration, log_step_result, workflow_complete};
use cruise::engine::ExecutionResult;
use cruise::notices::{command_line, jump_line, step_header};
use cruise::span::{plain_text, Tone};

#[test]
fn seconds_are_a_date_and_a_time() {
    assert_eq!(seconds_to_datetime(0), (1970, 1, 1, 0, 0, 0));
    assert_eq!(seconds_to_datetime(951_782_399), (2000, 2, 28, 23, 59, 59));
    assert_eq!(seconds_to_datetime(951_782_400), (2000, 2, 29, 0, 0, 0));
    assert_eq!(seconds_to_datetime(1_774_098_000), (2026, 3, 21, 13, 0, 0));
    assert_eq!(timestamp_id(1_774_098_000), "20260321130000");
    assert_eq!(iso8601(1_774_098_000), "2026-03-21T13:00:00Z");
}

#[test]
fn leap_years() {
    for (year, leap) in [(2000, true), (1900, false), (2024, true), (2025, false)] {
        assert_eq!(is_leap_year(year), leap, "{year}");
    }
    assert_eq!(date_to_days(1970, 1, 1), 0);
    assert_eq!(date_to_days(2000, 3, 1), 11_017);
}

#[test]
fn times_are_read_back() {
    for secs in [0, 1, 951_782_400, 1_774_098_000, 4_102_444_799] {
        assert_eq!(parse_iso8601_secs(&iso8601(secs)), Some(secs));
    }
    for bad in ["", "2026-03-21", "2026-03-21 13:00:00Z", "2026-03-21T13:00:00"] {
        assert_eq!(parse_iso8601_secs(bad), None, "{bad}");
    }
}

#[test]
fn identifiers_sort_by_time() {
    let mut times = vec![5_000_000_000, 0, 1_774_098_000, 951_782_400, 1_774_098_001];
    let mut ids: Vec<String> = times.iter().map(|t| timestamp_id(*t)).collect();
    times.sort();
    ids.sort();
    let sorted: Vec<String> = times.iter().map(|t| timestamp_id(*t)).collect();
    assert_eq!(ids, sorted);
}

#[test]
fn identifiers_in_use_are_passed_over() {
    let secs = 1_774_098_000;
    assert_eq!(free_timestamp_id(secs, &vec![]), "20260321130000");
    let mut in_use = vec!["20260321130001".to_string(), "notes".to_string()];
    assert_eq!(free_timestamp_id(secs, &in_use), "20260321130000");
    in_use.push("20260321130000".to_string());
    assert_eq!(free_timestamp_id(secs, &in_use), "20260321130002");

    let mut in_use = Vec::new();
    for _ in 0..5 {
        let id = new_timestamp_id(&in_use);
        assert!(!in_use.contains(&id));
        in_use.push(id);
    }
}

#[test]
fn different_seconds_have_different_identifiers() {
    let times = [0, 59, 60, 86_399, 86_400, 951_782_400, 1_774_098_000];
    for a in times {
        for b in times {
            assert_eq!(timestamp_id(a) == timestamp_id(b), a == b);
        }
    }
}

#[test]
fn the_clock_is_read() {
    let id = current_timestamp_id();
    assert_eq!(id.len(), 14);
    assert!(id.chars().all(|c| c.is_ascii_digit()));
    assert!(id.as_str() > "20240101000000");
    let now = current_iso8601();
    assert!(parse_iso8601_secs(&now).is_some_and(|secs| secs > 1_704_067_200));
}

#[test]
fn durations_are_read_by_people() {
    for (millis, text) in [
        (0, "0.0s"),
        (50, "0.1s"),
        (5_500, "5.5s"),
        (59_940, "59.9s"),
        (59_960, "60.0s"),
        (60_000, "1m 0.0s"),
        (125_000, "2m 5.0s"),
        (3_600_270, "60m 0.3s"),
    ] {
        let d = Duration::from_millis(millis);
        let seconds = format!("{:.1}", d.as_secs_f64() % 60.0);
        assert_eq!(format_duration(d.as_secs(), &seconds), text);
    }
}

#[test]
fn the_end_of_a_step_is_told() {
    let spans = log_step_result(1, "1.2", true);
    assert_eq!(plain_text(&spans), "  ✓ 1.2s");
    assert_eq!(spans[1].tone, Tone::Green);
    let spans = log_step_result(61, "1.0", false);
    assert_eq!(plain_text(&spans), "  ✗ 1m 1.0s");
    assert_eq!(spans[1].tone, Tone::Red);
    let result = ExecutionResult {
        run: 3,
        skipped: 2,
        failed: 1,
    };
    assert_eq!(
        plain_text(&workflow_complete(&result, 2, "2.0")),
        "\n✓ workflow complete (3 run, 2 skipped, 1 failed) [2.0s]"
    );
}

#[test]
fn steps_are_announced() {
    let header = step_header(2, 10, "edit");
    assert_eq!(plain_text(&header), "\n▶ [2/10] edit");
    assert_eq!(header[1].tone, Tone::CyanBold);
    assert_eq!(header[3].tone, Tone::Bold);
    let jump = jump_line("files changed, jumping to: test");
    assert_eq!(plain_text(&jump), "  ↻ files changed, jumping to: test");
    assert_eq!(jump[1].tone, Tone::Cyan);
    let command = command_line("make all");
    assert_eq!(plain_text(&command), "  $ make all");
    assert_eq!(command[3].tone, Tone::Dim);
}
