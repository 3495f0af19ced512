//! The environment that a job's script runs in.
use vstd::prelude::*;

use crate::jobs::models;
use crate::jobs::models::{JobExecution, JobExecutionView};
use crate::json::JsonValue;
use crate::names;
use crate::names::NameMap;
use crate::text;

verus! {

/// Where a job's script looks for programs.
pub const DEFAULT_JOB_PATH: &'static str = "/usr/local/bin:/usr/bin:/bin";

/// How a character of an input's name stands in a variable's name.
pub open spec fn variable_char(c: char) -> char {
    if c == '-' {
        '_'
    } else {
        text::ascii_uppercase(c)
    }
}

/// The environment variable of an input.
pub open spec fn input_variable(name: Seq<char>) -> Seq<char> {
    "JOB_"@ + name.map_values(|c: char| variable_char(c))
}

pub fn normalize_input_env(name: &str) -> (r: String)
    ensures
        r@ == input_variable(name@),
{
    let chars = text::chars_of(name);
    let mut variable = "JOB_".to_owned();
    let ghost rule = |c: char| variable_char(c);
    assert("JOB_"@ + name@.take(0).map_values(rule) =~= "JOB_"@);
    let mut i: usize = 0;
    while i < chars.len()
        invariant
            i <= chars.len(),
            chars@ == name@,
            rule == (|c: char| variable_char(c)),
            variable@ == "JOB_"@ + name@.take(i as int).map_values(rule),
        decreases chars.len() - i,
    {
        let c = chars[i];
        if c == '-' {
            variable.push('_');
        } else {
            variable.push(c.to_ascii_uppercase());
        }
        assert(name@.take(i + 1).map_values(rule) =~= name@.take(i as int).map_values(rule).push(
            variable_char(c),
        ));
        assert(variable@ =~= "JOB_"@ + name@.take(i + 1).map_values(rule));
        i += 1;
    }
    assert(name@.take(i as int) =~= name@);
    variable
}

/// The variables that every job run gets.
pub open spec fn runner_environment(run: JobExecutionView) -> Seq<(Seq<char>, Seq<char>)> {
    let env = names::inserted(Seq::empty(), "JOB_ID"@, run.metadata.job_id);
    let env = names::inserted(env, "JOB_NAME"@, run.metadata.name);
    let env = names::inserted(env, "JOB_WORKDIR"@, run.work_dir);
    let env = names::inserted(env, "JOB_OUTPUT_DIR"@, run.output_dir);
    names::inserted(env, "JOB_METADATA_PATH"@, run.metadata_path)
}

/// What the environment carries for an input: an artifact's path, a string
/// bare, and any other value as compact JSON.
pub open spec fn input_text(
    resolved: Seq<(Seq<char>, Seq<char>)>,
    input: (Seq<char>, JsonValue),
) -> Seq<char> {
    match names::lookup(resolved, input.0) {
        Some(path) => path,
        None => input.1@.environment_text(),
    }
}

/// The environment with the first `n` inputs added, in name order; an input
/// replaces a variable of the same name.
pub open spec fn environment_with_inputs(
    base: Seq<(Seq<char>, Seq<char>)>,
    resolved: Seq<(Seq<char>, Seq<char>)>,
    inputs: Seq<(Seq<char>, JsonValue)>,
    n: nat,
) -> Seq<(Seq<char>, Seq<char>)>
    decreases n,
{
    if n == 0 {
        base
    } else {
        names::inserted(
            environment_with_inputs(base, resolved, inputs, (n - 1) as nat),
            input_variable(inputs[n - 1].0),
            input_text(resolved, inputs[n - 1]),
        )
    }
}

/// The environment of a job run, besides its `PATH`.
pub open spec fn job_environment(run: JobExecutionView) -> Seq<(Seq<char>, Seq<char>)> {
    environment_with_inputs(
        runner_environment(run),
        run.metadata.resolved_artifacts,
        run.raw_inputs,
        run.raw_inputs.len(),
    )
}

fn set_variable(env: &mut NameMap<String>, name: String, value: String)
    ensures
        names::with_values(final(env)@, models::text_model()) == names::inserted(
            names::with_values(old(env)@, models::text_model()),
            name@,
            value@,
        ),
{
    proof {
        names::with_values_inserted(env@, models::text_model(), name@, value);
    }
    env.insert(name, value);
}

pub fn build_job_env(execution: &JobExecution) -> (r: NameMap<String>)
    ensures
        names::with_values(r@, models::text_model()) == job_environment(execution@),
{
    let mut env: NameMap<String> = NameMap::new();
    assert(names::with_values(env@, models::text_model()) =~= Seq::empty());
    set_variable(&mut env, "JOB_ID".to_owned(), execution.metadata.job_id.clone());
    set_variable(&mut env, "JOB_NAME".to_owned(), execution.metadata.name.clone());
    set_variable(&mut env, "JOB_WORKDIR".to_owned(), execution.work_dir.clone());
    set_variable(&mut env, "JOB_OUTPUT_DIR".to_owned(), execution.output_dir.clone());
    set_variable(&mut env, "JOB_METADATA_PATH".to_owned(), execution.metadata_path.clone());
    let ghost resolved = execution@.metadata.resolved_artifacts;
    let n = execution.raw_inputs.len();
    let mut i: usize = 0;
    while i < n
        invariant
            i <= n,
            n == execution.raw_inputs@.len(),
            resolved == names::with_values(
                execution.metadata.resolved_artifacts@,
                models::text_model(),
            ),
            names::with_values(env@, models::text_model()) == environment_with_inputs(
                runner_environment(execution@),
                resolved,
                execution.raw_inputs@,
                i as nat,
            ),
        decreases n - i,
    {
        let name = execution.raw_inputs.name_at(i);
        let found = execution.metadata.resolved_artifacts.get(name.as_str());
        proof {
            names::with_values_lookup(
                execution.metadata.resolved_artifacts@,
                models::text_model(),
                name@,
            );
        }
        let value = match found {
            Some(path) => path.clone(),
            None => execution.raw_inputs.value_at(i).to_environment_text(),
        };
        set_variable(&mut env, normalize_input_env(name.as_str()), value);
        i += 1;
    }
    env
}

/// A variable that no input stands for keeps the value that the runner gave it.
pub proof fn inputs_leave_other_variables(
    base: Seq<(Seq<char>, Seq<char>)>,
    resolved: Seq<(Seq<char>, Seq<char>)>,
    inputs: Seq<(Seq<char>, JsonValue)>,
    n: nat,
    variable: Seq<char>,
)
    requires
        names::names_sorted(base),
        n <= inputs.len(),
        forall|i: int| 0 <= i < n ==> input_variable((#[trigger] inputs[i]).0) != variable,
    ensures
        names::names_sorted(environment_with_inputs(base, resolved, inputs, n)),
        names::lookup(environment_with_inputs(base, resolved, inputs, n), variable)
            == names::lookup(base, variable),
    decreases n,
{
    if n > 0 {
        let before = environment_with_inputs(base, resolved, inputs, (n - 1) as nat);
        inputs_leave_other_variables(base, resolved, inputs, (n - 1) as nat, variable);
        let name = input_variable(inputs[n - 1].0);
        let value = input_text(resolved, inputs[n - 1]);
        names::inserted_sorted(before, name, value);
        names::inserted_lookup(before, name, value, variable);
    }
}

/// An input whose variable no later input shares is found in the environment
/// with its own value.
pub proof fn input_is_in_environment(
    base: Seq<(Seq<char>, Seq<char>)>,
    resolved: Seq<(Seq<char>, Seq<char>)>,
    inputs: Seq<(Seq<char>, JsonValue)>,
    n: nat,
    k: int,
)
    requires
        names::names_sorted(base),
        n <= inputs.len(),
        0 <= k < n,
        forall|i: int|
            k < i < n ==> input_variable((#[trigger] inputs[i]).0) != input_variable(inputs[k].0),
    ensures
        names::lookup(
            environment_with_inputs(base, resolved, inputs, n),
            input_variable(inputs[k].0),
        ) == Some(input_text(resolved, inputs[k])),
    decreases n,
{
    let before = environment_with_inputs(base, resolved, inputs, (n - 1) as nat);
    let name = input_variable(inputs[n - 1].0);
    let value = input_text(resolved, inputs[n - 1]);
    environment_is_sorted(base, resolved, inputs, (n - 1) as nat);
    names::inserted_lookup(before, name, value, input_variable(inputs[k].0));
    if k < n - 1 {
        input_is_in_environment(base, resolved, inputs, (n - 1) as nat, k);
    }
}

/// A job run whose inputs stand for none of the runner's variables finds its
/// identity and its places in the environment.
pub proof fn runner_variables_are_kept(run: JobExecutionView)
    requires
        forall|i: int|
            0 <= i < run.raw_inputs.len() ==> !names::has_name(
                runner_environment(run),
                input_variable((#[trigger] run.raw_inputs[i]).0),
            ),
    ensures
        names::lookup(job_environment(run), "JOB_ID"@) == Some(run.metadata.job_id),
        names::lookup(job_environment(run), "JOB_NAME"@) == Some(run.metadata.name),
        names::lookup(job_environment(run), "JOB_WORKDIR"@) == Some(run.work_dir),
        names::lookup(job_environment(run), "JOB_OUTPUT_DIR"@) == Some(run.output_dir),
        names::lookup(job_environment(run), "JOB_METADATA_PATH"@) == Some(run.metadata_path),
{
    reveal_strlit("JOB_ID");
    reveal_strlit("JOB_NAME");
    reveal_strlit("JOB_WORKDIR");
    reveal_strlit("JOB_OUTPUT_DIR");
    reveal_strlit("JOB_METADATA_PATH");
    let (id, name, work, output, metadata) = (
        "JOB_ID"@,
        "JOB_NAME"@,
        "JOB_WORKDIR"@,
        "JOB_OUTPUT_DIR"@,
        "JOB_METADATA_PATH"@,
    );
    assert(id.len() < name.len() < work.len() < output.len() < metadata.len());
    variable_is_kept(run, id);
    variable_is_kept(run, name);
    variable_is_kept(run, work);
    variable_is_kept(run, output);
    variable_is_kept(run, metadata);
}

proof fn variable_is_kept(run: JobExecutionView, variable: Seq<char>)
    requires
        forall|i: int|
            0 <= i < run.raw_inputs.len() ==> !names::has_name(
                runner_environment(run),
                input_variable((#[trigger] run.raw_inputs[i]).0),
            ),
    ensures
        names::lookup(runner_environment(run), variable) is Some ==> names::lookup(
            job_environment(run),
            variable,
        ) == names::lookup(runner_environment(run), variable),
        names::lookup(runner_environment(run), variable) == set_by_runner(run, variable),
{
    runner_variable_is_set(run, variable);
    if names::has_name(runner_environment(run), variable) {
        inputs_leave_other_variables(
            runner_environment(run),
            run.metadata.resolved_artifacts,
            run.raw_inputs,
            run.raw_inputs.len(),
            variable,
        );
    }
}

/// What the runner itself sets a variable to.
pub open spec fn set_by_runner(run: JobExecutionView, variable: Seq<char>) -> Option<Seq<char>> {
    if variable == "JOB_METADATA_PATH"@ {
        Some(run.metadata_path)
    } else if variable == "JOB_OUTPUT_DIR"@ {
        Some(run.output_dir)
    } else if variable == "JOB_WORKDIR"@ {
        Some(run.work_dir)
    } else if variable == "JOB_NAME"@ {
        Some(run.metadata.name)
    } else if variable == "JOB_ID"@ {
        Some(run.metadata.job_id)
    } else {
        None
    }
}

proof fn runner_variable_is_set(run: JobExecutionView, variable: Seq<char>)
    ensures
        names::names_sorted(runner_environment(run)),
        names::lookup(runner_environment(run), variable) == set_by_runner(run, variable),
{
    let empty = Seq::<(Seq<char>, Seq<char>)>::empty();
    let id = names::inserted(empty, "JOB_ID"@, run.metadata.job_id);
    let name = names::inserted(id, "JOB_NAME"@, run.metadata.name);
    let work = names::inserted(name, "JOB_WORKDIR"@, run.work_dir);
    let output = names::inserted(work, "JOB_OUTPUT_DIR"@, run.output_dir);
    names::inserted_sorted(empty, "JOB_ID"@, run.metadata.job_id);
    names::inserted_sorted(id, "JOB_NAME"@, run.metadata.name);
    names::inserted_sorted(name, "JOB_WORKDIR"@, run.work_dir);
    names::inserted_sorted(work, "JOB_OUTPUT_DIR"@, run.output_dir);
    names::inserted_sorted(output, "JOB_METADATA_PATH"@, run.metadata_path);
    names::inserted_lookup(empty, "JOB_ID"@, run.metadata.job_id, variable);
    names::inserted_lookup(id, "JOB_NAME"@, run.metadata.name, variable);
    names::inserted_lookup(name, "JOB_WORKDIR"@, run.work_dir, variable);
    names::inserted_lookup(work, "JOB_OUTPUT_DIR"@, run.output_dir, variable);
    names::inserted_lookup(output, "JOB_METADATA_PATH"@, run.metadata_path, variable);
}

proof fn environment_is_sorted(
    base: Seq<(Seq<char>, Seq<char>)>,
    resolved: Seq<(Seq<char>, Seq<char>)>,
    inputs: Seq<(Seq<char>, JsonValue)>,
    n: nat,
)
    requires
        names::names_sorted(base),
    ensures
        names::names_sorted(environment_with_inputs(base, resolved, inputs, n)),
    decreases n,
{
    if n > 0 {
        environment_is_sorted(base, resolved, inputs, (n - 1) as nat);
        names::inserted_sorted(
            environment_with_inputs(base, resolved, inputs, (n - 1) as nat),
            input_variable(inputs[n - 1].0),
            input_text(resolved, inputs[n - 1]),
        );
    }
}

} // verus!
