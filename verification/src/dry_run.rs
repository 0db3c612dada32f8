//! An overview of a workflow, shown in place of running it.

use vstd::prelude::*;

use crate::config::{
    step_at, step_list, step_name_at, steps_index_of, steps_len, GroupConfig, SkipCondition,
    StepConfig, WorkflowConfig,
};
use crate::names::{has_name, position, NameMap};
use crate::span::{put, put_plain, span_views, Span, SpanView, Tone};
use crate::step::{kind_label, kind_label_spec};
use crate::text::{
    decimal, decimal_of, join, joined, opt_str_view, order_of, sorted_order, views,
};

verus! {

/// A piece of text in the plain tone.
pub open spec fn plain(text: Seq<char>) -> Seq<SpanView> {
    seq![(text, Tone::Plain)]
}

/// The names of a map's entries.
pub open spec fn names_of<V>(e: Seq<(Seq<char>, V)>) -> Seq<Seq<char>> {
    e.map_values(|x: (Seq<char>, V)| x.0)
}

/// The positions of the entries in the order of their names.
pub open spec fn name_order<V>(e: Seq<(Seq<char>, V)>) -> Seq<usize> {
    sorted_order(names_of(e), e.len() as int)
}

/// The line for one environment variable.
pub open spec fn env_line(indent: Seq<char>, entry: (Seq<char>, String)) -> Seq<char> {
    indent + entry.0 + "="@ + entry.1@ + "\n"@
}

/// The lines for the first `n` environment variables in the order of their names.
pub open spec fn env_lines(e: Seq<(Seq<char>, String)>, indent: Seq<char>, n: int) -> Seq<SpanView>
    decreases n,
{
    if n <= 0 {
        seq![]
    } else {
        env_lines(e, indent, n - 1) + plain(env_line(indent, e[name_order(e)[n - 1] as int]))
    }
}

/// The line for one group.
pub open spec fn group_line(entry: (Seq<char>, GroupConfig)) -> Seq<SpanView> {
    let target = match entry.1.if_condition {
        Some(c) => c.file_changed,
        None => None,
    };
    plain("  "@) + seq![(entry.0, Tone::Bold)] + (match entry.1.max_retries {
        Some(max) => plain(" (max_retries: "@ + decimal(max as nat) + ")"@),
        None => seq![],
    }) + (match target {
        Some(t) => plain(" → retry from: "@) + seq![(t@, Tone::Green)],
        None => seq![],
    }) + plain("\n"@)
}

/// The lines for the first `n` groups in the order of their names.
pub open spec fn group_lines(e: Seq<(Seq<char>, GroupConfig)>, n: int) -> Seq<SpanView>
    decreases n,
{
    if n <= 0 {
        seq![]
    } else {
        group_lines(e, n - 1) + group_line(e[name_order(e)[n - 1] as int])
    }
}

/// The marks behind the kind of a step.
pub open spec fn step_marks(step: StepConfig) -> Seq<SpanView> {
    (match step.group {
        Some(g) => plain(" "@) + seq![("(group: "@ + g@ + ")"@, Tone::Magenta)],
        None => seq![],
    }) + (match step.skip {
        Some(SkipCondition::Static(true)) => plain(" "@) + seq![("(skip)"@, Tone::Yellow)],
        Some(SkipCondition::Variable(v)) => plain(" "@) + seq![
            ("(skip if "@ + v@ + ")"@, Tone::Yellow),
        ],
        _ => seq![],
    }) + (if step.if_condition is Some {
        plain(" "@) + seq![("(conditional)"@, Tone::Yellow)]
    } else {
        seq![]
    }) + (match step.next {
        Some(n) => plain(" → "@) + seq![(n@, Tone::Green)],
        None => seq![],
    })
}

/// The lines for one step.
pub open spec fn step_lines(entry: (Seq<char>, StepConfig)) -> Seq<SpanView> {
    plain("  "@) + seq![(entry.0, Tone::Bold)] + plain(" ["@) + seq![
        (kind_label_spec(entry.1), Tone::Cyan),
    ] + plain("]"@) + step_marks(entry.1) + plain("\n"@) + env_lines(
        entry.1.env.entries(),
        "    env: "@,
        entry.1.env.entries().len() as int,
    )
}

/// The lines for the steps from `from` up to `n`.
pub open spec fn steps_lines(list: Seq<(Seq<char>, StepConfig)>, from: int, n: int) -> Seq<SpanView>
    decreases n,
{
    if n <= from || n <= 0 {
        seq![]
    } else {
        steps_lines(list, from, n - 1) + step_lines(list[n - 1])
    }
}

/// The first step that is shown: the named one, or the first of all. A name that no step has
/// shows none.
pub open spec fn shown_from(list: Seq<(Seq<char>, StepConfig)>, from: Option<Seq<char>>) -> int {
    match from {
        None => 0,
        Some(name) => if has_name(list, name) {
            position(list, name)
        } else {
            list.len() as int
        },
    }
}

/// The lines for the command, the model and the environment.
pub open spec fn head_lines(config: WorkflowConfig) -> Seq<SpanView> {
    let env = config.env.entries();
    seq![("=== Dry Run: Workflow Flow ==="@, Tone::Bold)] + plain(
        "\ncommand: "@ + join(views(config.command@), " "@) + "\n"@,
    ) + (match config.model {
        Some(m) => plain("model: "@ + m@ + "\n"@),
        None => seq![],
    }) + (if env.len() > 0 {
        plain("env:\n"@) + env_lines(env, "  "@, env.len() as int)
    } else {
        seq![]
    })
}

/// The section for the groups, if there are any.
pub open spec fn group_section(groups: Seq<(Seq<char>, GroupConfig)>) -> Seq<SpanView> {
    if groups.len() > 0 {
        plain("\ngroups:\n"@) + group_lines(groups, groups.len() as int)
    } else {
        seq![]
    }
}

/// The overview of a workflow.
pub open spec fn overview(config: WorkflowConfig, from: Option<Seq<char>>) -> Seq<SpanView> {
    let list = step_list(config.steps);
    head_lines(config) + group_section(config.groups.entries()) + plain("\nsteps:\n"@)
        + steps_lines(list, shown_from(list, from), list.len() as int)
}

/// The positions of a map's entries in the order of their names.
fn order_by_name<V>(m: &NameMap<V>) -> (r: Vec<usize>)
    ensures
        r@ == name_order(m.entries()),
        r@.len() == m.entries().len(),
        forall|i: int| 0 <= i < r@.len() ==> #[trigger] r@[i] < m.entries().len(),
{
    let mut names: Vec<String> = Vec::new();
    let n = m.len();
    let mut i: usize = 0;
    while i < n
        invariant
            i <= n,
            n == m.entries().len(),
            views(names@) == names_of(m.entries()).take(i as int),
        decreases n - i,
    {
        let name = m.name_at(i).clone();
        let ghost done = views(names@);
        names.push(name);
        assert(views(names@) == done.push(name@));
        assert(names_of(m.entries()).take(i + 1) == names_of(m.entries()).take(i as int).push(
            m.entries()[i as int].0,
        ));
        i += 1;
    }
    assert(names_of(m.entries()).take(i as int) == names_of(m.entries()));
    assert(names@.len() == views(names@).len());
    order_of(&names)
}

/// Appends the lines for environment variables.
fn put_env(out: &mut Vec<Span>, env: &NameMap<String>, indent: &str)
    ensures
        span_views(final(out)@) == span_views(old(out)@) + env_lines(
            env.entries(),
            indent@,
            env.entries().len() as int,
        ),
{
    let order = order_by_name(env);
    let ghost start = span_views(out@);
    let mut i: usize = 0;
    assert(start + env_lines(env.entries(), indent@, 0) =~= start);
    while i < order.len()
        invariant
            i <= order@.len(),
            order@ == name_order(env.entries()),
            order@.len() == env.entries().len(),
            forall|k: int| 0 <= k < order@.len() ==> #[trigger] order@[k] < env.entries().len(),
            span_views(out@) == start + env_lines(env.entries(), indent@, i as int),
        decreases order@.len() - i,
    {
        let at: usize = order[i];
        let mut line = indent.to_owned();
        line.append(env.name_at(at).as_str());
        line.append("=");
        line.append(env.value_at(at).as_str());
        line.append("\n");
        put(out, line, Tone::Plain);
        i += 1;
        assert(span_views(out@) =~= start + env_lines(env.entries(), indent@, i as int));
    }
}

/// Appends the line for one group.
fn put_group(out: &mut Vec<Span>, name: &str, group: &GroupConfig)
    ensures
        span_views(final(out)@) == span_views(old(out)@) + group_line((name@, *group)),
{
    let ghost start = span_views(out@);
    put_plain(out, "  ");
    put(out, name.to_owned(), Tone::Bold);
    if let Some(max) = group.max_retries {
        let mut text = " (max_retries: ".to_owned();
        text.append(decimal_of(max as u64).as_str());
        text.append(")");
        put(out, text, Tone::Plain);
    }
    if let Some(c) = &group.if_condition {
        if let Some(target) = &c.file_changed {
            put_plain(out, " → retry from: ");
            put(out, target.clone(), Tone::Green);
        }
    }
    put_plain(out, "\n");
    assert(span_views(out@) =~= start + group_line((name@, *group)));
}

/// Appends the marks behind the kind of a step.
fn put_marks(out: &mut Vec<Span>, step: &StepConfig)
    ensures
        span_views(final(out)@) == span_views(old(out)@) + step_marks(*step),
{
    let ghost start = span_views(out@);
    if let Some(group) = &step.group {
        put_plain(out, " ");
        let mut text = "(group: ".to_owned();
        text.append(group.as_str());
        text.append(")");
        put(out, text, Tone::Magenta);
    }
    match &step.skip {
        Some(SkipCondition::Static(true)) => {
            put_plain(out, " ");
            put(out, "(skip)".to_owned(), Tone::Yellow);
        },
        Some(SkipCondition::Variable(v)) => {
            put_plain(out, " ");
            let mut text = "(skip if ".to_owned();
            text.append(v.as_str());
            text.append(")");
            put(out, text, Tone::Yellow);
        },
        _ => {},
    }
    if step.if_condition.is_some() {
        put_plain(out, " ");
        put(out, "(conditional)".to_owned(), Tone::Yellow);
    }
    if let Some(next) = &step.next {
        put_plain(out, " → ");
        put(out, next.clone(), Tone::Green);
    }
    assert(span_views(out@) =~= start + step_marks(*step));
}

/// Appends the lines for one step.
fn put_step(out: &mut Vec<Span>, name: &str, step: &StepConfig)
    ensures
        span_views(final(out)@) == span_views(old(out)@) + step_lines((name@, *step)),
{
    let ghost start = span_views(out@);
    put_plain(out, "  ");
    put(out, name.to_owned(), Tone::Bold);
    put_plain(out, " [");
    put(out, kind_label(step).to_owned(), Tone::Cyan);
    put_plain(out, "]");
    put_marks(out, step);
    put_plain(out, "\n");
    put_env(out, &step.env, "    env: ");
    assert(span_views(out@) =~= start + step_lines((name@, *step)));
}

/// Appends the lines for the command, the model and the environment.
fn put_head(out: &mut Vec<Span>, config: &WorkflowConfig)
    ensures
        span_views(final(out)@) == span_views(old(out)@) + head_lines(*config),
{
    let ghost start = span_views(out@);
    put(out, "=== Dry Run: Workflow Flow ===".to_owned(), Tone::Bold);
    let mut text = "\ncommand: ".to_owned();
    text.append(joined(&config.command, " ").as_str());
    text.append("\n");
    put(out, text, Tone::Plain);
    if let Some(model) = &config.model {
        let mut text = "model: ".to_owned();
        text.append(model.as_str());
        text.append("\n");
        put(out, text, Tone::Plain);
    }
    if !config.env.is_empty() {
        put_plain(out, "env:\n");
        put_env(out, &config.env, "  ");
    }
    assert(span_views(out@) =~= start + head_lines(*config));
}

/// Appends the section for the groups.
fn put_groups(out: &mut Vec<Span>, map: &NameMap<GroupConfig>)
    ensures
        span_views(final(out)@) == span_views(old(out)@) + group_section(map.entries()),
{
    let ghost before = span_views(out@);
    let ghost groups = map.entries();
    if map.is_empty() {
        assert(before + group_section(groups) =~= before);
        return ;
    }
    put_plain(out, "\ngroups:\n");
    let order = order_by_name(map);
    let ghost start = span_views(out@);
    let mut i: usize = 0;
    assert(start + group_lines(groups, 0) =~= start);
    while i < order.len()
        invariant
            i <= order@.len(),
            groups == map.entries(),
            order@ == name_order(groups),
            order@.len() == groups.len(),
            forall|k: int| 0 <= k < order@.len() ==> #[trigger] order@[k] < groups.len(),
            span_views(out@) == start + group_lines(groups, i as int),
        decreases order@.len() - i,
    {
        let at: usize = order[i];
        put_group(out, map.name_at(at).as_str(), map.value_at(at));
        i += 1;
        assert(span_views(out@) =~= start + group_lines(groups, i as int));
    }
    assert(span_views(out@) =~= before + group_section(groups));
}

/// Appends the lines for the steps from `from` on.
fn put_steps(out: &mut Vec<Span>, config: &WorkflowConfig, from: Option<&str>)
    ensures
        ({
            let list = step_list(config.steps);
            span_views(final(out)@) == span_views(old(out)@) + steps_lines(
                list,
                shown_from(list, opt_str_view(from)),
                list.len() as int,
            )
        }),
{
    let ghost list = step_list(config.steps);
    let n = steps_len(&config.steps);
    let first: usize = match from {
        None => 0,
        Some(name) => match steps_index_of(&config.steps, name) {
            Some(i) => {
                assert(list[i as int].0 == name@);
                assert(position(list, name@) == i);
                i
            },
            None => n,
        },
    };
    assert(first == shown_from(list, opt_str_view(from)));
    let ghost start = span_views(out@);
    let mut i: usize = first;
    assert(start + steps_lines(list, first as int, first as int) =~= start);
    while i < n
        invariant
            first <= i <= n,
            n == list.len(),
            list == step_list(config.steps),
            span_views(out@) == start + steps_lines(list, first as int, i as int),
        decreases n - i,
    {
        put_step(out, step_name_at(&config.steps, i).as_str(), step_at(&config.steps, i));
        i += 1;
        assert(span_views(out@) =~= start + steps_lines(list, first as int, i as int));
    }
}

/// The overview of a workflow from the step `from` on: its command, model, environment, groups
/// and steps.
pub fn dry_run(config: &WorkflowConfig, from: Option<&str>) -> (r: Vec<Span>)
    ensures
        span_views(r@) == overview(*config, opt_str_view(from)),
{
    let mut out: Vec<Span> = Vec::new();
    put_head(&mut out, config);
    put_groups(&mut out, &config.groups);
    put_plain(&mut out, "\nsteps:\n");
    put_steps(&mut out, config, from);
    assert(span_views(out@) =~= overview(*config, opt_str_view(from)));
    out
}

} // verus!
