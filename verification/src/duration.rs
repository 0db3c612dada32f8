//! Durations as people read them.

use vstd::prelude::*;

use crate::engine::ExecutionResult;
use crate::span::{put, put_plain, span_views, Span, SpanView, Tone};
use crate::text::{decimal, decimal_of};

verus! {

/// A duration as people read it, given by its whole seconds and the text of its seconds above the
/// whole minutes: `5.5s` below a minute, `2m 5.0s` from there on.
pub open spec fn duration_text(secs: nat, seconds: Seq<char>) -> Seq<char> {
    if secs >= 60 {
        decimal(secs / 60) + "m "@ + seconds + "s"@
    } else {
        seconds + "s"@
    }
}

/// Format a duration as a human-readable string. It is given by its whole seconds, and by its
/// seconds above the whole minutes, written with one digit behind the point.
pub fn format_duration(secs: u64, seconds: &str) -> (r: String)
    ensures
        r@ == duration_text(secs as nat, seconds@),
{
    if secs >= 60 {
        decimal_of(secs / 60).concat("m ").concat(seconds).concat("s")
    } else {
        seconds.to_owned().concat("s")
    }
}

/// What is said of the end of a step.
pub open spec fn step_result_spans(secs: nat, seconds: Seq<char>, success: bool) -> Seq<SpanView> {
    seq![
        ("  "@, Tone::Plain),
        if success {
            ("✓ "@ + duration_text(secs, seconds), Tone::Green)
        } else {
            ("✗ "@ + duration_text(secs, seconds), Tone::Red)
        },
    ]
}

/// What is said of the end of a step that took the given time.
pub fn log_step_result(secs: u64, seconds: &str, success: bool) -> (r: Vec<Span>)
    ensures
        span_views(r@) == step_result_spans(secs as nat, seconds@, success),
{
    let time = format_duration(secs, seconds);
    let mut out: Vec<Span> = Vec::new();
    put_plain(&mut out, "  ");
    if success {
        put(&mut out, "✓ ".to_owned().concat(time.as_str()), Tone::Green);
    } else {
        put(&mut out, "✗ ".to_owned().concat(time.as_str()), Tone::Red);
    }
    assert(span_views(out@) =~= step_result_spans(secs as nat, seconds@, success));
    out
}

/// What is said of the end of a workflow.
pub open spec fn workflow_spans(result: ExecutionResult, secs: nat, seconds: Seq<char>) -> Seq<SpanView> {
    seq![
        ("\n"@, Tone::Plain),
        ("✓ workflow complete"@, Tone::GreenBold),
        (
            " ("@ + decimal(result.run as nat) + " run, "@ + decimal(result.skipped as nat)
                + " skipped, "@ + decimal(result.failed as nat) + " failed) ["@ + duration_text(
                secs,
                seconds,
            ) + "]"@,
            Tone::Plain,
        ),
    ]
}

/// What is said of the end of a workflow that took the given time.
pub fn workflow_complete(result: &ExecutionResult, secs: u64, seconds: &str) -> (r: Vec<Span>)
    ensures
        span_views(r@) == workflow_spans(*result, secs as nat, seconds@),
{
    let mut out: Vec<Span> = Vec::new();
    put_plain(&mut out, "\n");
    put(&mut out, "✓ workflow complete".to_owned(), Tone::GreenBold);
    put(
        &mut out,
        " (".to_owned().concat(decimal_of(result.run as u64).as_str()).concat(" run, ").concat(
            decimal_of(result.skipped as u64).as_str(),
        ).concat(" skipped, ").concat(decimal_of(result.failed as u64).as_str()).concat(
            " failed) [",
        ).concat(format_duration(secs, seconds).as_str()).concat("]"),
        Tone::Plain,
    );
    assert(span_views(out@) =~= workflow_spans(*result, secs as nat, seconds@));
    out
}

} // verus!
