//! Workflows: what makes one valid, and what is shown of it.

use vstd::prelude::*;

use crate::cli::Args;
use crate::clock::{
    date_to_days, is_leap_year, iso8601, months_in_year, parse_iso8601_secs, seconds_to_datetime,
    timestamp_id,
};
use crate::config::{
    group_before, group_fault, group_of, group_seen, groups_are_valid, step_list, validate_groups,
    StepConfig, WorkflowConfig,
};
use crate::display::{
    bordered, concatenation, measured_words, repeated, truncate, wrap_line, WordView, Wrapping,
};
use crate::dry_run::{dry_run, overview, step_lines, steps_lines};
use crate::duration::format_duration;
use crate::error::CruiseError;
use crate::names::{distinct_names, lemma_position};
use crate::span::{span_views, Span, SpanView, Tone};
use crate::text::{decimal, is_blank, is_white_space, lines, text_lt, trim, views};
use crate::workflow::{compile, CompiledWorkflow};

use super::texts::{law_lines_end_at_breaks, law_trimmed_texts_stay};

verus! {

// ---------------------------------------------------------------------------
// Validity
// ---------------------------------------------------------------------------

/// Each group of a step is defined, a step of a group has no condition of its own, and between two
/// steps of a group there is none that does not belong to it.
pub open spec fn groups_are_in_order(config: WorkflowConfig) -> bool {
    let steps = step_list(config.steps);
    &&& forall|i: int|
        0 <= i < steps.len() && (#[trigger] steps[i]).1.group is Some ==> config.groups@.dom().contains(
            steps[i].1.group->0@,
        ) && steps[i].1.if_condition is None
    &&& forall|i: int, j: int, k: int|
        0 <= i < j < k < steps.len() && group_of((#[trigger] steps[i]).1) is Some && group_of(
            steps[i].1,
        ) == group_of((#[trigger] steps[k]).1) ==> group_of((#[trigger] steps[j]).1) == group_of(
            steps[i].1,
        )
}

/// A workflow is valid exactly if its groups are in order, and it is compiled exactly if it is valid.
pub proof fn law_workflows_with_groups_in_order_are_valid(
    config: WorkflowConfig,
    checked: Result<(), CruiseError>,
    r: Result<CompiledWorkflow, CruiseError>,
)
    requires
        call_ensures(validate_groups, (&config,), checked),
        call_ensures(compile, (config,), r),
    ensures
        checked is Ok <==> groups_are_in_order(config),
        r is Ok <==> checked is Ok,
{
    let steps = step_list(config.steps);
    let groups = config.groups@;
    if groups_are_valid(groups, steps, steps.len() as int) {
        assert forall|i: int| 0 <= i < steps.len() && (
        #[trigger] steps[i]).1.group is Some implies groups.dom().contains(steps[i].1.group->0@)
            && steps[i].1.if_condition is None by {
            assert(group_fault(groups, steps, i) is None);
        }
        assert forall|i: int, j: int, k: int|
            0 <= i < j < k < steps.len() && group_of((#[trigger] steps[i]).1) is Some && group_of(
                steps[i].1,
            ) == group_of((#[trigger] steps[k]).1) implies group_of((#[trigger] steps[j]).1)
            == group_of(steps[i].1) by {
            crate::config::law_groups_are_contiguous(
                groups,
                steps,
                group_of(steps[i].1)->0,
                i,
                j,
                k,
            );
        }
    }
    if groups_are_in_order(config) {
        assert forall|i: int| 0 <= i < steps.len() implies #[trigger] group_fault(
            groups,
            steps,
            i,
        ) is None by {
            if steps[i].1.group is Some {
                let g = group_of(steps[i].1)->0;
                if group_before(steps, i) != Some(g) && group_seen(steps, i, g) {
                    let j = choose|j: int|
                        0 <= j < i && group_of((#[trigger] steps[j]).1) == Some(g);
                    if j < i - 1 {
                        assert(group_of(steps[i - 1].1) == group_of(steps[j].1));
                    }
                }
            }
        }
    }
}

/// A workflow either is valid or has a fault, and not both.
pub proof fn lemma_checked_or_not(config: WorkflowConfig, checked: Result<(), CruiseError>)
    requires
        call_ensures(validate_groups, (&config,), checked),
    ensures
        checked is Ok <==> crate::config::config_is_valid(config),
{
    if checked is Err {
        let m = checked->Err_0->InvalidStepConfig_0@;
        let steps = step_list(config.steps);
        let i = choose|i: int|
            {
                &&& 0 <= i < steps.len()
                &&& groups_are_valid(config.groups@, steps, i)
                &&& #[trigger] group_fault(config.groups@, steps, i) == Some(m)
            };
        assert(group_fault(config.groups@, steps, i) is Some);
    }
}

/// A workflow is compiled as it was written: with its command, its models, its environment and its
/// steps.
pub proof fn law_workflows_are_compiled_as_written(config: WorkflowConfig, c: CompiledWorkflow)
    requires
        call_ensures(compile, (config,), Ok(c)),
    ensures
        c.command == config.command && c.model == config.model && c.plan_model == config.plan_model
            && c.env == config.env && c.steps == config.steps && c.after_pr == config.after_pr
            && c.pr_language == config.pr_language && c.llm_api == config.llm_api,
{
}

/// What follows the pull request is a workflow of its own: with its own steps, and the command, the
/// models and the environment of the first one. Nothing follows it.
pub proof fn law_later_steps_are_run_like_the_others(w: CompiledWorkflow, r: CompiledWorkflow)
    requires
        call_ensures(CompiledWorkflow::to_after_pr_compiled, (w,), r),
    ensures
        r.list() == step_list(w.after_pr),
        step_list(r.after_pr).len() == 0,
        r.command == w.command && r.model == w.model && r.env == w.env,
{
}

/// Input that was given is kept; without any, what was piped in is the input, if it holds anything.
pub proof fn law_piped_input_stands_in(args: &mut Args, piped: &str, done: ())
    requires
        call_ensures(Args::complete, (args, piped), done),
    ensures
        old(args).input matches Some(text) ==> (final(args).input matches Some(t) && t@ == text@),
        old(args).input is None && is_blank(piped@) ==> final(args).input is None,
        old(args).input is None && !is_blank(piped@) ==> (final(args).input matches Some(t) && t@
            == trim(piped@)),
        *final(args) == (Args { input: final(args).input, ..*old(args) }),
{
}

// ---------------------------------------------------------------------------
// What is shown
// ---------------------------------------------------------------------------

proof fn lemma_steps_lines(list: Seq<(Seq<char>, StepConfig)>, i: int, n: int)
    requires
        0 <= i <= n <= list.len(),
    ensures
        steps_lines(list, 0, n) == steps_lines(list, 0, i) + steps_lines(list, i, n),
    decreases n,
{
    if n == i {
        assert(steps_lines(list, i, n) =~= seq![]);
        assert(steps_lines(list, 0, i) + Seq::<SpanView>::empty() =~= steps_lines(list, 0, i));
    } else {
        lemma_steps_lines(list, i, n - 1);
        let a = steps_lines(list, 0, i);
        let b = steps_lines(list, i, n - 1);
        let c = step_lines(list[n - 1]);
        assert(a + b + c =~= a + (b + c));
    }
}

proof fn lemma_step_is_shown(list: Seq<(Seq<char>, StepConfig)>, i: int, n: int, k: int)
    requires
        0 <= i <= k < n <= list.len(),
    ensures
        steps_lines(list, i, n).contains((list[k].0, Tone::Bold)),
    decreases n,
{
    let mark = (list[k].0, Tone::Bold);
    let all = steps_lines(list, i, n);
    let before = steps_lines(list, i, n - 1);
    let last = step_lines(list[n - 1]);
    if k == n - 1 {
        assert(last[1] == mark);
        assert(all[before.len() + 1int] == mark);
    } else {
        lemma_step_is_shown(list, i, n - 1, k);
        let p = choose|p: int| 0 <= p < before.len() && before[p] == mark;
        assert(all[p] == mark);
    }
}

/// What would be run is shown with all steps, or from the step on that was named: what is left out
/// are the steps before it, and the others are all shown.
pub proof fn law_steps_are_shown_from_the_named_one(
    config: &WorkflowConfig,
    from: &str,
    i: int,
    all: Vec<Span>,
    r: Vec<Span>,
    k: int,
)
    requires
        call_ensures(dry_run, (config, None::<&str>), all),
        call_ensures(dry_run, (config, Some(from)), r),
        distinct_names(step_list(config.steps)),
        0 <= i < step_list(config.steps).len(),
        step_list(config.steps)[i].0 == from@,
    ensures
        exists|head: Seq<SpanView>, left_out: Seq<SpanView>, shown: Seq<SpanView>|
            {
                &&& span_views(all@) == #[trigger] (head + left_out + shown)
                &&& span_views(r@) == head + shown
                &&& i <= k < step_list(config.steps).len() ==> shown.contains(
                    (step_list(config.steps)[k].0, Tone::Bold),
                )
                &&& 0 <= k < i ==> left_out.contains((step_list(config.steps)[k].0, Tone::Bold))
            },
{
    let list = step_list(config.steps);
    let n = list.len() as int;
    lemma_position(list, i);
    lemma_steps_lines(list, i, n);
    let head = crate::dry_run::head_lines(*config) + crate::dry_run::group_section(
        config.groups.entries(),
    ) + crate::dry_run::plain("\nsteps:\n"@);
    let left_out = steps_lines(list, 0, i);
    let shown = steps_lines(list, i, n);
    assert(overview(*config, Some(from@)) =~= head + shown);
    assert(head + (left_out + shown) =~= head + left_out + shown);
    if i <= k < n {
        lemma_step_is_shown(list, i, n, k);
    }
    if 0 <= k < i {
        lemma_step_is_shown(list, 0, i, k);
    }
}

/// A text is shortened to its first line, and that to so many characters and an ellipsis; one that
/// is short enough is kept.
pub proof fn law_long_texts_are_shortened(
    line: Seq<char>,
    rest: Seq<char>,
    s: &str,
    max: usize,
    r: String,
)
    requires
        call_ensures(truncate, (s, max), r),
        line.len() > 0 && !is_white_space(line[0]) && !is_white_space(line.last()),
        forall|i: int| 0 <= i < line.len() ==> line[i] != '\n',
        s@ == line || (s@ == line + seq!['\n'] + rest && rest.len() > 0 && !is_white_space(
            rest.last(),
        )),
    ensures
        line.len() <= max ==> r@ == line,
        line.len() > max ==> r@.len() == max + 1 && r@.take(max as int) == line.take(max as int)
            && r@.last() == '…',
{
    reveal_strlit("…");
    law_trimmed_texts_stay(s@);
    law_lines_end_at_breaks(line, rest);
    assert(line.last() != '\r');
    assert(crate::text::strip_cr(line) == line);
    assert(lines(s@)[0] == line);
    if line.len() > max {
        assert(r@.take(max as int) =~= line.take(max as int));
    }
}

/// The columns that words take together.
pub open spec fn columns(words: Seq<WordView>) -> int
    decreases words.len(),
{
    if words.len() == 0 {
        0
    } else {
        columns(words.drop_last()) + words.last().width
    }
}

proof fn lemma_words_fit_on_one_line(words: Seq<WordView>, width: int)
    requires
        columns(words) <= width,
        forall|k: int| 0 <= k < words.len() ==> (#[trigger] words[k]).width >= 0,
    ensures
        columns(words) >= 0,
        Wrapping::start().plus_words(words, width).chunks.len() == 0,
        Wrapping::start().plus_words(words, width).used == columns(words),
    decreases words.len(),
{
    if words.len() > 0 {
        let front = words.drop_last();
        assert(words[words.len() - 1].width >= 0);
        lemma_columns(front);
        lemma_words_fit_on_one_line(front, width);
    }
}

proof fn lemma_columns(words: Seq<WordView>)
    requires
        forall|k: int| 0 <= k < words.len() ==> (#[trigger] words[k]).width >= 0,
    ensures
        columns(words) >= 0,
    decreases words.len(),
{
    if words.len() > 0 {
        assert(words[words.len() - 1].width >= 0);
        lemma_columns(words.drop_last());
    }
}

/// A line is wrapped into parts that make up the line again, and is not wrapped if its words fit
/// beside one another.
pub proof fn law_lines_are_wrapped_only_where_they_must(
    line: &str,
    width: usize,
    r: Vec<String>,
)
    requires
        call_ensures(wrap_line, (line, width), r),
    ensures
        concatenation(views(r@)) == line@,
        columns(measured_words(line@)) <= width ==> r@.len() == 1 && r@[0]@ == line@,
{
    crate::display::law_wrapping_keeps_the_line(line@, width as int);
    assert(views(r@).len() == r@.len());
    if columns(measured_words(line@)) <= width {
        let words = measured_words(line@);
        lemma_words_fit_on_one_line(words, width as int);
        let all = views(r@);
        if line@.len() == 0 {
            assert(all[0] == r@[0]@);
            assert(r@[0]@ =~= line@);
        } else {
            let w = Wrapping::start().plus_words(words, width as int);
            assert(w.flushed().chunks.len() <= 1);
            if all.len() == 0 {
                assert(concatenation(all).len() == 0);
            } else {
                assert(all.drop_last().len() == 0);
                assert(concatenation(all.drop_last()).len() == 0);
                assert(concatenation(all) =~= all.last());
                assert(all[0] == r@[0]@);
            }
        }
    }
}

/// A frame is as wide as the terminal, but not less than twenty columns and not more than a hundred;
/// its edges are that wide.
pub proof fn law_frames_are_as_wide_as_the_terminal(text: &str, term_width: usize, r: Vec<Span>)
    requires
        call_ensures(bordered, (text, None::<&str>, term_width), r),
    ensures
        ({
            let width: int = if term_width < 20 {
                20
            } else if term_width > 100 {
                100
            } else {
                term_width as int
            };
            let spans = span_views(r@);
            let n = spans.len() as int;
            &&& n >= 9
            &&& spans[1].0 == "┌"@ && spans[2].0 == repeated("─"@, width - 2) && spans[3].0 == "┐"@
            &&& spans[n - 4].0 == "└"@ && spans[n - 3].0 == repeated("─"@, width - 2) && spans[n
                - 2].0 == "┘"@
        }),
{
}

/// A duration of a minute or more is shown with its minutes, a shorter one by its seconds alone.
pub proof fn law_long_durations_have_minutes(secs: u64, seconds: &str, r: String)
    requires
        call_ensures(format_duration, (secs, seconds), r),
    ensures
        secs < 60 ==> r@ == seconds@ + "s"@,
        secs >= 60 ==> r@ == decimal((secs / 60) as nat) + "m "@ + seconds@ + "s"@,
{
}

// ---------------------------------------------------------------------------
// Time
// ---------------------------------------------------------------------------

/// A year has a leap day if it can be divided by four, but of the centuries only every fourth.
pub proof fn law_leap_years(year: u64, r: bool)
    requires
        call_ensures(is_leap_year, (year,), r),
    ensures
        year % 4 != 0 ==> !r,
        year % 100 == 0 ==> (r <==> year % 400 == 0),
        year % 4 == 0 && year % 100 != 0 ==> r,
{
    assert(year as int % 400 == 0 ==> year as int % 4 == 0 && year as int % 100 == 0);
}

/// The months are as long as they always are; only the second one has another day in a leap year.
#[verifier::spinoff_prover]
pub proof fn law_months(year: u64, r: bool, months: [u8; 12], i: int)
    requires
        call_ensures(is_leap_year, (year,), r),
        call_ensures(months_in_year, (year,), months),
        0 <= i < 12,
    ensures
        i == 1 && r ==> months@[i] == 29,
        i == 1 && !r ==> months@[i] == 28,
        i == 3 || i == 5 || i == 8 || i == 10 ==> months@[i] == 30,
        i == 0 || i == 2 || i == 4 || i == 6 || i == 7 || i == 9 || i == 11 ==> months@[i] == 31,
{
    assert(months@[i] == crate::clock::month_days(year as int, i + 1));
}

/// The time of day is what is left of the seconds after whole days, and its hours, minutes and
/// seconds make it up; the day is one of the month.
pub proof fn law_seconds_make_up_the_time(secs: u64, r: (u64, u8, u8, u8, u8, u8), months: [u8; 12])
    requires
        call_ensures(seconds_to_datetime, (secs,), r),
        call_ensures(months_in_year, (r.0,), months),
    ensures
        r.3 < 24 && r.4 < 60 && r.5 < 60,
        r.3 * 3600 + r.4 * 60 + r.5 == secs as int % 86400,
        r.0 >= 1970 && 1 <= r.1 <= 12 && 1 <= r.2 <= months@[r.1 - 1],
        secs < 86400 ==> r.0 == 1970 && r.1 == 1 && r.2 == 1,
{
    crate::clock::law_datetime_is_valid(secs as int);
    let t = crate::clock::datetime(secs as int);
    assert(t.seconds() == secs);
    assert(months@[r.1 - 1] == crate::clock::month_days(r.0 as int, r.1 as int));
}

/// The day that a number of seconds falls on is the same day again when it is counted.
pub proof fn law_days_are_counted_back(secs: u64, r: (u64, u8, u8, u8, u8, u8), days: u32)
    requires
        call_ensures(seconds_to_datetime, (secs,), r),
        r.0 <= 65535,
        call_ensures(date_to_days, (r.0 as u16, r.1, r.2), days),
    ensures
        days == secs as int / 86400,
{
    crate::clock::law_datetime_is_valid(secs as int);
    let t = crate::clock::datetime(secs as int);
    assert(t.seconds() == secs);
    assert(0 <= t.hour * 3600 + t.minute * 60 + t.second < 86400);
    assert(t.days() == secs as int / 86400) by (nonlinear_arith)
        requires
            t.days() * 86400 + (t.hour * 3600 + t.minute * 60 + t.second) == secs as int,
            0 <= t.hour * 3600 + t.minute * 60 + t.second < 86400,
    ;
}

/// What is written of a second is read as that second, up to the last year that the reader knows.
pub proof fn law_written_times_are_read_back(
    secs: u64,
    date: (u64, u8, u8, u8, u8, u8),
    text: String,
    written: &str,
    r: Option<u64>,
)
    requires
        call_ensures(seconds_to_datetime, (secs,), date),
        date.0 <= 65535,
        call_ensures(iso8601, (secs,), text),
        written@ == text@,
        call_ensures(parse_iso8601_secs, (written,), r),
    ensures
        r == Some(secs),
{
    crate::clock::law_iso8601_round_trip(secs);
}

/// Identifiers that are made of later seconds come later, up to the year 9999.
pub proof fn law_later_identifiers_come_later(a: u64, b: u64, x: String, y: String)
    requires
        a < b,
        crate::clock::datetime(b as int).year <= 9999,
        call_ensures(timestamp_id, (a,), x),
        call_ensures(timestamp_id, (b,), y),
    ensures
        text_lt(x@, y@),
        x@.len() == 14 && y@.len() == 14,
{
    crate::clock::law_timestamp_ids_sort_by_time(a as int, b as int);
}

} // verus!
