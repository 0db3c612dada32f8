//! What is said while a workflow runs.

use vstd::prelude::*;

use crate::span::{put, put_plain, span_views, Span, SpanView, Tone};
use crate::text::{decimal, decimal_of};

verus! {

/// What is said of a step that begins.
pub open spec fn header_spans(index: nat, total: nat, step: Seq<char>) -> Seq<SpanView> {
    seq![
        ("\n"@, Tone::Plain),
        ("▶"@, Tone::CyanBold),
        (" "@, Tone::Plain),
        ("["@ + decimal(index) + "/"@ + decimal(total) + "] "@ + step, Tone::Bold),
    ]
}

/// What is said of a step that begins as the given one of so many.
pub fn step_header(index: usize, total: usize, step: &str) -> (r: Vec<Span>)
    ensures
        span_views(r@) == header_spans(index as nat, total as nat, step@),
{
    let mut out: Vec<Span> = Vec::new();
    put_plain(&mut out, "\n");
    put(&mut out, "▶".to_owned(), Tone::CyanBold);
    put_plain(&mut out, " ");
    put(
        &mut out,
        "[".to_owned().concat(decimal_of(index as u64).as_str()).concat("/").concat(
            decimal_of(total as u64).as_str(),
        ).concat("] ").concat(step),
        Tone::Bold,
    );
    assert(span_views(out@) =~= header_spans(index as nat, total as nat, step@));
    out
}

/// A mark and what it stands before.
pub open spec fn marked_spans(
    mark: Seq<char>,
    tone: Tone,
    text: Seq<char>,
    text_tone: Tone,
) -> Seq<SpanView> {
    seq![("  "@, Tone::Plain), (mark, tone), (" "@, Tone::Plain), (text, text_tone)]
}

fn marked(mark: &str, tone: Tone, text: &str, text_tone: Tone) -> (r: Vec<Span>)
    ensures
        span_views(r@) == marked_spans(mark@, tone, text@, text_tone),
{
    let mut out: Vec<Span> = Vec::new();
    put_plain(&mut out, "  ");
    put(&mut out, mark.to_owned(), tone);
    put_plain(&mut out, " ");
    put(&mut out, text.to_owned(), text_tone);
    assert(span_views(out@) =~= marked_spans(mark@, tone, text@, text_tone));
    out
}

/// What is said where the run goes on at another step because files changed.
pub fn jump_line(notice: &str) -> (r: Vec<Span>)
    ensures
        span_views(r@) == marked_spans("↻"@, Tone::Cyan, notice@, Tone::Plain),
{
    marked("↻", Tone::Cyan, notice, Tone::Plain)
}

/// A command as it is shown before it is run.
pub fn command_line(command: &str) -> (r: Vec<Span>)
    ensures
        span_views(r@) == marked_spans("$"@, Tone::Dim, command@, Tone::Dim),
{
    marked("$", Tone::Dim, command, Tone::Dim)
}

} // verus!
