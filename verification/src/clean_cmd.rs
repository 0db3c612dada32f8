//! What is said of a cleanup.

use vstd::prelude::*;

use crate::session::CleanupReport;
use crate::span::{put, put_plain, span_views, Span, SpanView, Tone};
use crate::text::{decimal, decimal_of};

verus! {

/// What is said of the sessions that were removed.
pub open spec fn removed_spans(deleted: nat) -> Seq<SpanView> {
    if deleted == 0 {
        seq![("No sessions to clean up."@, Tone::Plain)]
    } else {
        seq![
            ("✓"@, Tone::GreenBold),
            (
                " Removed "@ + decimal(deleted) + " session(s) with closed/merged PRs."@,
                Tone::Plain,
            ),
        ]
    }
}

/// What is said of the sessions that were left.
pub open spec fn skipped_text(skipped: nat) -> Option<Seq<char>> {
    if skipped > 0 {
        Some(
            "  "@ + decimal(skipped) + " session(s) skipped (PR still open or check failed)."@,
        )
    } else {
        None
    }
}

/// What is said of a cleanup: of the sessions that were removed, and of those that were left if
/// there are any.
pub fn cleanup_notice(report: &CleanupReport) -> (r: (Vec<Span>, Option<String>))
    ensures
        span_views(r.0@) == removed_spans(report.deleted as nat),
        crate::text::opt_view(r.1) == skipped_text(report.skipped as nat),
{
    let mut out: Vec<Span> = Vec::new();
    if report.deleted == 0 {
        put_plain(&mut out, "No sessions to clean up.");
    } else {
        put(&mut out, "✓".to_owned(), Tone::GreenBold);
        put(
            &mut out,
            " Removed ".to_owned().concat(decimal_of(report.deleted as u64).as_str()).concat(
                " session(s) with closed/merged PRs.",
            ),
            Tone::Plain,
        );
    }
    assert(span_views(out@) =~= removed_spans(report.deleted as nat));
    let skipped: Option<String> = if report.skipped > 0 {
        Some(
            "  ".to_owned().concat(decimal_of(report.skipped as u64).as_str()).concat(
                " session(s) skipped (PR still open or check failed).",
            ),
        )
    } else {
        None
    };
    (out, skipped)
}

} // verus!
