//! The variables of a workflow run and the templates that refer to them.

use vstd::prelude::*;

use crate::error::CruiseError;
use crate::names::NameMap;
use crate::text::{chars_of, clone_opt, same_text, string_of};

verus! {

/// A named variable value.
#[derive(Debug)]
pub enum NamedVariable {
    /// A file path: stands for the path itself, not for the file's contents.
    FilePath(String),
    /// A plain string value.
    Value(String),
}

impl NamedVariable {
    /// The text that the variable stands for.
    pub open spec fn text(self) -> Seq<char> {
        match self {
            NamedVariable::FilePath(path) => path@,
            NamedVariable::Value(value) => value@,
        }
    }
}

/// Holds all runtime variables for a workflow execution.
#[derive(Debug)]
pub struct VariableStore {
    /// Initial input from the command line or standard input.
    input: String,
    /// LLM output from the previous step.
    prev_output: Option<String>,
    /// User text input from the previous option step.
    prev_input: Option<String>,
    /// Standard error captured from the previous command step.
    prev_stderr: Option<String>,
    /// Exit status of the previous command step.
    prev_success: Option<bool>,
    /// Named variables (such as the plan file's path).
    named: NameMap<NamedVariable>,
}

/// What a store holds, as mathematical values.
#[verifier::ext_equal]
pub struct Variables {
    pub input: Seq<char>,
    pub prev_output: Option<Seq<char>>,
    pub prev_input: Option<Seq<char>>,
    pub prev_stderr: Option<Seq<char>>,
    pub prev_success: Option<bool>,
    pub named: Map<Seq<char>, NamedVariable>,
}

/// `true` or `false`, as a word.
pub open spec fn bool_word(b: bool) -> Seq<char> {
    if b {
        "true"@
    } else {
        "false"@
    }
}

/// The names that a store gives a meaning of its own.
pub open spec fn is_reserved(name: Seq<char>) -> bool {
    ||| name == "input"@
    ||| name == "prev.output"@
    ||| name == "prev.input"@
    ||| name == "prev.stderr"@
    ||| name == "prev.success"@
}

impl Variables {
    /// The value of the variable `name`, if it is defined.
    pub open spec fn lookup(self, name: Seq<char>) -> Option<Seq<char>> {
        if name == "input"@ {
            Some(self.input)
        } else if name == "prev.output"@ {
            self.prev_output
        } else if name == "prev.input"@ {
            self.prev_input
        } else if name == "prev.stderr"@ {
            self.prev_stderr
        } else if name == "prev.success"@ {
            match self.prev_success {
                Some(b) => Some(bool_word(b)),
                None => None,
            }
        } else if self.named.dom().contains(name) {
            Some(self.named[name].text())
        } else {
            None
        }
    }

    /// `template` with each `{name}` replaced by the variable's value, or the first name
    /// that is not defined.
    ///
    /// A brace that is never closed stands for itself, and so does all that follows it.
    pub open spec fn expand(self, template: Seq<char>) -> Result<Seq<char>, Seq<char>>
        decreases template.len(),
    {
        if template.len() == 0 {
            Ok(seq![])
        } else if template[0] != '{' {
            match self.expand(template.skip(1)) {
                Ok(rest) => Ok(seq![template[0]] + rest),
                Err(name) => Err(name),
            }
        } else {
            let end = close_index(template, 1);
            if end < 1 || end >= template.len() {
                Ok(template)
            } else {
                let name = template.subrange(1, end);
                match self.lookup(name) {
                    None => Err(name),
                    Some(value) => match self.expand(template.skip(end + 1)) {
                        Ok(rest) => Ok(value + rest),
                        Err(name) => Err(name),
                    },
                }
            }
        }
    }
}

/// The first index at or after `from` that holds `}`, or the length of `s`.
pub open spec fn close_index(s: Seq<char>, from: int) -> int
    decreases s.len() - from,
{
    if from >= s.len() {
        s.len() as int
    } else if from >= 0 && s[from] == '}' {
        from
    } else {
        close_index(s, from + 1)
    }
}

/// `close_index` lies between its start and the length, and marks the first `}`.
pub proof fn lemma_close_index(s: Seq<char>, from: int)
    requires
        0 <= from <= s.len(),
    ensures
        from <= close_index(s, from) <= s.len(),
        close_index(s, from) < s.len() ==> s[close_index(s, from)] == '}',
        forall|i: int| from <= i < close_index(s, from) ==> s[i] != '}',
    decreases s.len() - from,
{
    if from < s.len() && s[from] != '}' {
        lemma_close_index(s, from + 1);
    }
}

impl View for VariableStore {
    type V = Variables;

    closed spec fn view(&self) -> Variables {
        Variables {
            input: self.input@,
            prev_output: crate::text::opt_view(self.prev_output),
            prev_input: crate::text::opt_view(self.prev_input),
            prev_stderr: crate::text::opt_view(self.prev_stderr),
            prev_success: self.prev_success,
            named: self.named@,
        }
    }
}

impl VariableStore {
    /// A store that knows the input and nothing else.
    pub fn new(input: String) -> (r: Self)
        ensures
            r@ == (Variables {
                input: input@,
                prev_output: None,
                prev_input: None,
                prev_stderr: None,
                prev_success: None,
                named: Map::empty(),
            }),
    {
        VariableStore {
            input,
            prev_output: None,
            prev_input: None,
            prev_stderr: None,
            prev_success: None,
            named: NameMap::new(),
        }
    }

    /// Register a named variable backed by a file path.
    pub fn set_named_file(&mut self, name: &str, path: String)
        ensures
            final(self)@ == (Variables {
                named: old(self)@.named.insert(name@, NamedVariable::FilePath(path)),
                ..old(self)@
            }),
    {
        self.named.insert(name.to_owned(), NamedVariable::FilePath(path));
    }

    /// Register a named variable with a plain string value.
    pub fn set_named_value(&mut self, name: &str, value: String)
        ensures
            final(self)@ == (Variables {
                named: old(self)@.named.insert(name@, NamedVariable::Value(value)),
                ..old(self)@
            }),
    {
        self.named.insert(name.to_owned(), NamedVariable::Value(value));
    }

    /// Sets what `{prev.output}` stands for.
    pub fn set_prev_output(&mut self, output: Option<String>)
        ensures
            final(self)@ == (Variables {
                prev_output: crate::text::opt_view(output),
                ..old(self)@
            }),
    {
        self.prev_output = output;
    }

    /// Sets what `{prev.input}` stands for.
    pub fn set_prev_input(&mut self, input: Option<String>)
        ensures
            final(self)@ == (Variables {
                prev_input: crate::text::opt_view(input),
                ..old(self)@
            }),
    {
        self.prev_input = input;
    }

    /// Sets what `{prev.stderr}` stands for.
    pub fn set_prev_stderr(&mut self, stderr: Option<String>)
        ensures
            final(self)@ == (Variables {
                prev_stderr: crate::text::opt_view(stderr),
                ..old(self)@
            }),
    {
        self.prev_stderr = stderr;
    }

    /// Sets what `{prev.success}` stands for.
    pub fn set_prev_success(&mut self, success: Option<bool>)
        ensures
            final(self)@ == (Variables { prev_success: success, ..old(self)@ }),
    {
        self.prev_success = success;
    }

    /// Sets what `{input}` stands for.
    pub fn set_input(&mut self, input: String)
        ensures
            final(self)@ == (Variables { input: input@, ..old(self)@ }),
    {
        self.input = input;
    }

    /// Whether the input is the empty text.
    pub fn input_is_empty(&self) -> (r: bool)
        ensures
            r == (self@.input.len() == 0),
    {
        self.input.as_str().is_empty()
    }

    /// Resolve all `{variable_name}` placeholders in `template`.
    ///
    /// # Errors
    ///
    /// Returns `UndefinedVariable` with the first name that is not defined.
    pub fn resolve(&self, template: &str) -> (r: Result<String, CruiseError>)
        ensures
            match r {
                Ok(text) => self@.expand(template@) == Ok::<Seq<char>, Seq<char>>(text@),
                Err(CruiseError::UndefinedVariable(name)) => self@.expand(template@) == Err::<
                    Seq<char>,
                    Seq<char>,
                >(name@),
                Err(_) => false,
            },
    {
        let v = chars_of(template);
        let mut result = String::new();
        let mut i: usize = 0;
        assert(v@.skip(0) == v@);
        while i < v.len()
            invariant
                i <= v@.len(),
                v@ == template@,
                match self@.expand(v@.skip(i as int)) {
                    Ok(rest) => self@.expand(template@) == Ok::<Seq<char>, Seq<char>>(
                        result@ + rest,
                    ),
                    Err(name) => self@.expand(template@) == Err::<Seq<char>, Seq<char>>(name),
                },
            decreases v@.len() - i,
        {
            let ghost rest = v@.skip(i as int);
            let ghost done = result@;
            assert(rest.skip(1) == v@.skip(i + 1));
            if v[i] == '{' {
                let start: usize = i + 1;
                let mut end: usize = start;
                while end < v.len() && v[end] != '}'
                    invariant
                        start == i + 1,
                        start <= end <= v@.len(),
                        rest == v@.skip(i as int),
                        i < v@.len(),
                        close_index(rest, 1) == close_index(rest, end - i),
                    decreases v@.len() - end,
                {
                    end += 1;
                }
                if end < v.len() {
                    let name = string_of(v.as_slice(), start, end);
                    proof {
                        assert(name@ == rest.subrange(1, end - i));
                        assert(rest.skip(end - i + 1) == v@.skip(end + 1));
                    }
                    let value = self.get_variable(name.as_str())?;
                    result.append(value.as_str());
                    i = end + 1;
                    proof {
                        match self@.expand(v@.skip(i as int)) {
                            Ok(tail) => {
                                assert(done + (value@ + tail) == result@ + tail);
                            },
                            Err(_) => {},
                        }
                    }
                } else {
                    // No closing brace: emit literally.
                    let tail = string_of(v.as_slice(), i, end);
                    result.append(tail.as_str());
                    i = end;
                    assert(tail@ == rest);
                    assert(v@.skip(i as int) =~= seq![]);
                    assert(result@ + Seq::<char>::empty() == done + rest);
                }
            } else {
                result.push(v[i]);
                i += 1;
                proof {
                    match self@.expand(v@.skip(i as int)) {
                        Ok(tail) => {
                            assert(done + (seq![rest[0]] + tail) == result@ + tail);
                        },
                        Err(_) => {},
                    }
                }
            }
        }
        assert(v@.skip(i as int) =~= seq![]);
        assert(result@ + Seq::<char>::empty() == result@);
        Ok(result)
    }

    /// Look up a variable by name and return its value.
    ///
    /// # Errors
    ///
    /// Returns `UndefinedVariable` if `name` does not correspond to a defined variable.
    pub fn get_variable(&self, name: &str) -> (r: Result<String, CruiseError>)
        ensures
            match r {
                Ok(value) => self@.lookup(name@) == Some(value@),
                Err(CruiseError::UndefinedVariable(missing)) => missing@ == name@ && self@.lookup(
                    name@,
                ) is None,
                Err(_) => false,
            },
    {
        let found: Option<String> = if same_text(name, "input") {
            Some(self.input.clone())
        } else if same_text(name, "prev.output") {
            clone_opt(&self.prev_output)
        } else if same_text(name, "prev.input") {
            clone_opt(&self.prev_input)
        } else if same_text(name, "prev.stderr") {
            clone_opt(&self.prev_stderr)
        } else if same_text(name, "prev.success") {
            match self.prev_success {
                Some(true) => Some("true".to_owned()),
                Some(false) => Some("false".to_owned()),
                None => None,
            }
        } else {
            match self.named.get(name) {
                Some(NamedVariable::FilePath(path)) => Some(path.clone()),
                Some(NamedVariable::Value(value)) => Some(value.clone()),
                None => None,
            }
        };
        match found {
            Some(value) => Ok(value),
            None => Err(CruiseError::UndefinedVariable(name.to_owned())),
        }
    }
}

// ---------------------------------------------------------------------------
// Laws
// ---------------------------------------------------------------------------

/// A text without an opening brace stands for itself.
pub proof fn law_plain_text_is_kept(vars: Variables, template: Seq<char>)
    requires
        forall|i: int| 0 <= i < template.len() ==> template[i] != '{',
    ensures
        vars.expand(template) == Ok::<Seq<char>, Seq<char>>(template),
    decreases template.len(),
{
    if template.len() > 0 {
        law_plain_text_is_kept(vars, template.skip(1));
        assert(template =~= seq![template[0]] + template.skip(1));
    } else {
        assert(template =~= seq![]);
    }
}

/// Expansion goes piece by piece: if every brace of `a` is closed in `a`, then `a` followed by
/// `b` expands to the expansion of `a` followed by that of `b`.
pub proof fn law_expansion_of_concatenation(vars: Variables, a: Seq<char>, b: Seq<char>)
    requires
        braces_are_closed(a),
    ensures
        vars.expand(a + b) == (match vars.expand(a) {
            Err(name) => Err(name),
            Ok(x) => match vars.expand(b) {
                Err(name) => Err(name),
                Ok(y) => Ok(x + y),
            },
        }),
    decreases a.len(),
{
    let ab = a + b;
    if a.len() == 0 {
        assert(ab =~= b);
        match vars.expand(b) {
            Ok(y) => {
                assert(Seq::<char>::empty() + y =~= y);
            },
            Err(_) => {},
        }
    } else if a[0] != '{' {
        assert(ab.skip(1) =~= a.skip(1) + b);
        law_expansion_of_concatenation(vars, a.skip(1), b);
        match (vars.expand(a.skip(1)), vars.expand(b)) {
            (Ok(x), Ok(y)) => {
                assert(seq![a[0]] + (x + y) =~= (seq![a[0]] + x) + y);
            },
            _ => {},
        }
    } else {
        let end = close_index(a, 1);
        lemma_close_index(a, 1);
        lemma_close_index_of_prefix(a, b, 1);
        assert(close_index(ab, 1) == end);
        assert(ab.subrange(1, end) =~= a.subrange(1, end));
        assert(ab.skip(end + 1) =~= a.skip(end + 1) + b);
        law_expansion_of_concatenation(vars, a.skip(end + 1), b);
        match (vars.lookup(a.subrange(1, end)), vars.expand(a.skip(end + 1)), vars.expand(b)) {
            (Some(value), Ok(x), Ok(y)) => {
                assert(value + (x + y) =~= (value + x) + y);
            },
            _ => {},
        }
    }
}

/// Every opening brace that begins a placeholder of `s` has its closing brace in `s`.
pub open spec fn braces_are_closed(s: Seq<char>) -> bool
    decreases s.len(),
{
    if s.len() == 0 {
        true
    } else if s[0] != '{' {
        braces_are_closed(s.skip(1))
    } else {
        let end = close_index(s, 1);
        0 <= end < s.len() && braces_are_closed(s.skip(end + 1))
    }
}

proof fn lemma_close_index_of_prefix(a: Seq<char>, b: Seq<char>, from: int)
    requires
        0 <= from <= a.len(),
        close_index(a, from) < a.len(),
    ensures
        close_index(a + b, from) == close_index(a, from),
    decreases a.len() - from,
{
    if from < a.len() && a[from] != '}' {
        lemma_close_index_of_prefix(a, b, from + 1);
    }
}

/// A placeholder expands to the value of its variable and fails exactly if there is none.
pub proof fn law_placeholder_is_value(vars: Variables, name: Seq<char>)
    requires
        forall|i: int| 0 <= i < name.len() ==> name[i] != '}',
    ensures
        vars.expand(seq!['{'] + name + seq!['}']) == (match vars.lookup(name) {
            Some(value) => Ok(value),
            None => Err(name),
        }),
{
    let t = seq!['{'] + name + seq!['}'];
    lemma_close_index(t, 1);
    assert(t[t.len() - 1] == '}');
    assert forall|i: int| 1 <= i < t.len() - 1 implies t[i] != '}' by {
        assert(t[i] == name[i - 1]);
    }
    assert(close_index(t, 1) == t.len() - 1);
    assert(t.subrange(1, t.len() - 1) =~= name);
    assert(t.skip(t.len() as int) =~= seq![]);
    assert(vars.expand(t.skip(t.len() as int)) == Ok::<Seq<char>, Seq<char>>(seq![]));
    match vars.lookup(name) {
        Some(value) => {
            assert(value + Seq::<char>::empty() =~= value);
        },
        None => {},
    }
}

/// A named variable that was just set is found, and no other name is touched; the names with a
/// meaning of their own cannot be overridden.
pub proof fn law_named_variable_is_found(
    vars: Variables,
    name: Seq<char>,
    value: NamedVariable,
    other: Seq<char>,
)
    ensures
        ({
            let after = Variables { named: vars.named.insert(name, value), ..vars };
            &&& !is_reserved(name) ==> after.lookup(name) == Some(value.text())
            &&& is_reserved(name) ==> after.lookup(name) == vars.lookup(name)
            &&& other != name ==> after.lookup(other) == vars.lookup(other)
        }),
{
}

} // verus!
