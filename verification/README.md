# cruise

A workflow orchestrator for coding agents, driven by YAML files. A session has an input, a plan
that the user approves, and a workflow of prompt, command and option steps. The steps run in a
worktree of the repository or on its current branch, and a pull request is made of the result.

## Layout

- `src/` is the library. Its functions state in their contracts what they return or change, and
  Verus proves it. The exceptions are those that read or set a flag or a counter which other
  threads share (`CancellationToken`, `FirstChoiceOptionHandler`): they state nothing of its value.
  The library holds the step loop (`engine`, `workflow`, `step`, `step_run`), the values that
  templates name (`variable`), the watched files (`file_tracker`), the sessions (`session`,
  `clock`, `metadata`), the commands of the program as stages and outcomes (`plan_start`,
  `plan_talk`, `list_talk`, `run_cmd`, `cleanup`), the dialogue with a language model (`llm_api`),
  the texts on the terminal (`display`, `span`, `notices`) and what the graphical front end asks
  for (`gui`).
- `tests/` runs the library on concrete values.
- `app/` is the command line program around it: arguments, files, processes, HTTP and the
  terminal.

## How the parts meet

Where work on the outside and decisions alternate, the decisions are a function in `src/` from a
stage and the outcome of what was done there to the next stage. `app/` does what a stage asks for
and hands the outcome back. The proof functions named `law_` state what holds of such a run as a
whole, for instance that it ends, what it saves and what it leaves alone.
