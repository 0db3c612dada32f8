//! The LLM command and the model that it is called with.

use vstd::prelude::*;

use crate::text::{
    begins, clone_strings, contains, has, opt_str_view, opt_view, replace, replaced, same_text,
    starts_with, views,
};

verus! {

/// An argument with the placeholder for the model.
pub open spec fn has_model_slot(arg: Seq<char>) -> bool {
    contains(arg, "{model}"@)
}

/// A command with the placeholder for the model in one of its arguments.
pub open spec fn has_placeholder_spec(command: Seq<Seq<char>>) -> bool {
    exists|i: int| 0 <= i < command.len() && has_model_slot(#[trigger] command[i])
}

/// The command without the options that name a model.
pub open spec fn without_model(command: Seq<Seq<char>>) -> Seq<Seq<char>>
    decreases command.len(),
{
    if command.len() == 0 {
        seq![]
    } else if command[0] == "--model"@ {
        if command.len() > 1 && has_model_slot(command[1]) {
            without_model(command.skip(2))
        } else {
            seq![command[0]] + without_model(command.skip(1))
        }
    } else if starts_with(command[0], "--model="@) || has_model_slot(command[0]) {
        without_model(command.skip(1))
    } else {
        seq![command[0]] + without_model(command.skip(1))
    }
}

/// The command with the model in place of each placeholder, or without the options that name a
/// model if there is none.
pub open spec fn for_model(command: Seq<Seq<char>>, model: Option<Seq<char>>) -> Seq<Seq<char>> {
    match model {
        Some(m) => command.map_values(|arg: Seq<char>| replace(arg, "{model}"@, m)),
        None => without_model(command),
    }
}

/// Resolve the `{model}` placeholder in a command, or strip `--model {model}` if no model.
pub fn resolve_command_with_model(command: &Vec<String>, effective_model: Option<&str>) -> (r: Vec<
    String,
>)
    ensures
        views(r@) == for_model(views(command@), opt_str_view(effective_model)),
{
    let ghost all = views(command@);
    let mut result: Vec<String> = Vec::new();
    if let Some(model) = effective_model {
        let ghost want = for_model(all, Some(model@));
        let mut i: usize = 0;
        while i < command.len()
            invariant
                i <= command@.len(),
                all == views(command@),
                want == for_model(all, Some(model@)),
                views(result@) == want.take(i as int),
            decreases command@.len() - i,
        {
            proof {
                reveal_strlit("{model}");
            }
            let arg = replaced(command[i].as_str(), "{model}", model);
            let ghost done = views(result@);
            result.push(arg);
            assert(views(result@) == done.push(arg@));
            assert(want.take(i + 1) == want.take(i as int).push(want[i as int]));
            assert(want[i as int] == replace(all[i as int], "{model}"@, model@));
            i += 1;
        }
        assert(want.take(i as int) == want);
        return result;
    }
    let mut i: usize = 0;
    assert(all.skip(0) == all);
    assert(views(result@) + without_model(all) =~= without_model(all));
    while i < command.len()
        invariant
            i <= command@.len(),
            all == views(command@),
            views(result@) + without_model(all.skip(i as int)) == without_model(all),
        decreases command@.len() - i,
    {
        let ghost rest = all.skip(i as int);
        let ghost done = views(result@);
        assert(rest.skip(1) == all.skip(i + 1));
        assert(rest[0] == command@[i as int]@);
        let arg = command[i].as_str();
        let keep: bool;
        if same_text(arg, "--model") {
            if i + 1 < command.len() && has(command[i + 1].as_str(), "{model}") {
                assert(rest[1] == command@[i + 1]@);
                assert(rest.skip(2) == all.skip(i + 2));
                i += 2;
                continue ;
            }
            assert(rest.len() > 1 ==> rest[1] == command@[i + 1]@);
            keep = true;
        } else {
            keep = !(begins(arg, "--model=") || has(arg, "{model}"));
        }
        if keep {
            let copy = command[i].clone();
            result.push(copy);
            assert(views(result@) == done.push(rest[0]));
            assert(done + (seq![rest[0]] + without_model(all.skip(i + 1))) == done.push(rest[0])
                + without_model(all.skip(i + 1)));
        }
        i += 1;
    }
    assert(all.skip(i as int) =~= seq![]);
    assert(views(result@) + Seq::<Seq<char>>::empty() == views(result@));
    result
}

/// Whether an argument of the command has the placeholder for the model.
pub fn has_placeholder(command: &Vec<String>) -> (r: bool)
    ensures
        r == has_placeholder_spec(views(command@)),
{
    let ghost all = views(command@);
    let mut i: usize = 0;
    while i < command.len()
        invariant
            i <= command@.len(),
            all == views(command@),
            forall|k: int| 0 <= k < i ==> !has_model_slot(#[trigger] all[k]),
        decreases command@.len() - i,
    {
        assert(all[i as int] == command@[i as int]@);
        if has(command[i].as_str(), "{model}") {
            return true;
        }
        i += 1;
    }
    false
}

/// The command to call and the model to pass as an option of its own: a command with a
/// placeholder takes the model there, any other is passed the model.
pub fn select_command(command: &Vec<String>, model: Option<&str>) -> (r: (Vec<String>, Option<
    String,
>))
    ensures
        has_placeholder_spec(views(command@)) ==> views(r.0@) == for_model(
            views(command@),
            opt_str_view(model),
        ) && r.1 is None,
        !has_placeholder_spec(views(command@)) ==> r.0@ == command@ && opt_view(r.1)
            == opt_str_view(model),
{
    if has_placeholder(command) {
        (resolve_command_with_model(command, model), None)
    } else {
        let passed: Option<String> = match model {
            Some(m) => Some(m.to_owned()),
            None => None,
        };
        (clone_strings(command), passed)
    }
}

/// Without a model no placeholder is left over.
pub proof fn law_no_model_leaves_no_placeholder(command: Seq<Seq<char>>)
    ensures
        !has_placeholder_spec(without_model(command)),
    decreases command.len(),
{
    if command.len() > 0 {
        law_no_model_leaves_no_placeholder(command.skip(1));
        if command.len() > 1 {
            law_no_model_leaves_no_placeholder(command.skip(2));
        }
        let r = without_model(command);
        if has_placeholder_spec(r) {
            let i = choose|i: int| 0 <= i < r.len() && has_model_slot(#[trigger] r[i]);
            let rest = without_model(command.skip(1));
            if r == seq![command[0]] + rest {
                if i > 0 {
                    assert(r[i] == rest[i - 1]);
                } else if command[0] == "--model"@ {
                    reveal_strlit("--model");
                    reveal_strlit("{model}");
                    let p = choose|p: int| crate::text::matches_at(command[0], "{model}"@, p);
                    assert(command[0].subrange(p, p + 7)[0] == '{');
                    assert(p == 0);
                }
            }
        }
    }
}

/// A command without a placeholder and without a model option is called as it is.
pub proof fn law_command_without_model_is_kept(command: Seq<Seq<char>>)
    requires
        !has_placeholder_spec(command),
        forall|i: int| 0 <= i < command.len() ==> !starts_with(#[trigger] command[i], "--model="@),
    ensures
        without_model(command) == command,
    decreases command.len(),
{
    if command.len() > 0 {
        let rest = command.skip(1);
        assert forall|i: int| 0 <= i < rest.len() implies !starts_with(
            #[trigger] rest[i],
            "--model="@,
        ) && !has_model_slot(rest[i]) by {
            assert(rest[i] == command[i + 1]);
        }
        law_command_without_model_is_kept(rest);
        assert(!has_model_slot(command[0]));
        if command.len() > 1 {
            assert(!has_model_slot(command[1]));
        }
        assert(command =~= seq![command[0]] + rest);
    } else {
        assert(command =~= seq![]);
    }
}

} // verus!
