//! What a job's script is told, and what becomes of the files that it leaves.
use vstd::prelude::*;

use crate::artifacts::error::ArtifactError;
use crate::artifacts::metadata::ArtifactMetadata;
use crate::job::JobOutput;
use crate::jobs::environment;
use crate::jobs::error::JobErrorView;
use crate::jobs::models::JobExecutionView;
use crate::jobs::outputs;
use crate::jobs::outputs::{FileProbe, OutputPlanView};
use crate::json::{JsonValue, JsonView};
use crate::manifest::laws;
use crate::manifest::spec::OutputSpec;
use crate::names;
use crate::paths;
use crate::text;

verus! {

/// What becomes of one declared output: a file is stored, an optional one may be
/// missing, and anything else fails the registration.
pub proof fn what_becomes_of_an_output(
    output_dir: Seq<char>,
    name: Seq<char>,
    output: OutputSpec,
    probe: FileProbe,
)
    ensures
        ({
            let judged = outputs::judged_output(output_dir, name, output, probe);
            let missing = |path: Seq<char>|
                Err::<Option<Seq<char>>, _>(JobErrorView::MissingOutput { name, path });
            let path = paths::joined(output_dir, output.path@);
            if !laws::plain_path(output.path@) {
                judged == missing(output.path@)
            } else {
                judged == match probe {
                    FileProbe::File => Ok(Some(path)),
                    FileProbe::Missing => if output.required {
                        missing(path)
                    } else {
                        Ok(None)
                    },
                    FileProbe::Other => missing(path),
                    FileProbe::Unreadable(source) => Err(
                        JobErrorView::ReadFile { path, source: source@ },
                    ),
                }
            }
        }),
{
    laws::which_output_paths_pass(output.path@, Seq::empty());
}

/// An output that is no reason to fail the registration.
pub open spec fn output_is_fine(output: OutputSpec, probe: FileProbe) -> bool {
    &&& laws::plain_path(output.path@)
    &&& probe == FileProbe::File || (probe == FileProbe::Missing && !output.required)
}

/// A plan has no failure exactly if every declared output is there or may be
/// missing. It then stores exactly the files that are there, each from below the
/// output directory.
pub proof fn which_outputs_are_planned(
    output_dir: Seq<char>,
    specs: Seq<(Seq<char>, OutputSpec)>,
    probes: Seq<FileProbe>,
    n: nat,
    entry: (Seq<char>, Seq<char>),
)
    requires
        n <= specs.len(),
    ensures
        ({
            let plan = outputs::planned(output_dir, specs, probes, n);
            &&& (plan.failure is None) == forall|k: int|
                0 <= k < n ==> output_is_fine((#[trigger] specs[k]).1, probes[k])
            &&& plan.failure is None ==> plan.stores.contains(entry) == exists|k: int|
                0 <= k < n && (#[trigger] specs[k]).0 == entry.0 && probes[k] == FileProbe::File
                    && entry.1 == paths::joined(output_dir, specs[k].1.path@)
        }),
    decreases n,
{
    if n > 0 {
        let m = (n - 1) as nat;
        let last = n - 1;
        which_outputs_are_planned(output_dir, specs, probes, m, entry);
        what_becomes_of_an_output(output_dir, specs[last].0, specs[last].1, probes[last]);
        let before = outputs::planned(output_dir, specs, probes, m);
        let plan = outputs::planned(output_dir, specs, probes, n);
        if plan.failure is None {
            assert(before.failure is None);
            assert forall|k: int| 0 <= k < n implies output_is_fine(
                (#[trigger] specs[k]).1,
                probes[k],
            ) by {
                if k == last {
                    assert(probes[last] is File || probes[last] is Missing);
                }
            }
            if before.stores.contains(entry) {
                let w = choose|w: int| 0 <= w < before.stores.len() && before.stores[w] == entry;
                assert(plan.stores[w] == entry);
            }
            if plan.stores.contains(entry) && !before.stores.contains(entry) {
                let w = choose|w: int| 0 <= w < plan.stores.len() && plan.stores[w] == entry;
                if w < before.stores.len() {
                    assert(before.stores[w] == entry);
                }
                assert(specs[last].0 == entry.0);
            }
            if specs[last].0 == entry.0 && probes[last] == FileProbe::File && entry.1
                == paths::joined(output_dir, specs[last].1.path@) {
                assert(plan.stores[before.stores.len() as int] == entry);
            }
        } else if forall|k: int|
            0 <= k < n ==> output_is_fine((#[trigger] specs[k]).1, probes[k]) {
            assert(output_is_fine(specs[last].1, probes[last]));
        }
    }
}

/// The first declared output, in name order, that is not fine is the failure
/// that the plan ends in; what comes before it is still stored, and nothing that
/// comes after it.
pub proof fn first_bad_output_is_reported(
    output_dir: Seq<char>,
    specs: Seq<(Seq<char>, OutputSpec)>,
    probes: Seq<FileProbe>,
    k: nat,
    n: nat,
)
    requires
        k < n <= specs.len(),
        forall|e: int| 0 <= e < k ==> output_is_fine((#[trigger] specs[e]).1, probes[e]),
        !output_is_fine(specs[k as int].1, probes[k as int]),
    ensures
        ({
            let plan = outputs::planned(output_dir, specs, probes, n);
            let (name, output) = specs[k as int];
            let path = paths::joined(output_dir, output.path@);
            &&& plan.failure == Some(
                match probes[k as int] {
                    FileProbe::Unreadable(source) => if laws::plain_path(output.path@) {
                        JobErrorView::ReadFile { path, source: source@ }
                    } else {
                        JobErrorView::MissingOutput { name, path: output.path@ }
                    },
                    _ => JobErrorView::MissingOutput {
                        name,
                        path: if laws::plain_path(output.path@) {
                            path
                        } else {
                            output.path@
                        },
                    },
                },
            )
            &&& plan.stores == outputs::planned(output_dir, specs, probes, k).stores
        }),
    decreases n,
{
    which_outputs_are_planned(output_dir, specs, probes, k, (Seq::empty(), Seq::empty()));
    what_becomes_of_an_output(
        output_dir,
        specs[k as int].0,
        specs[k as int].1,
        probes[k as int],
    );
    if n > k + 1 {
        first_bad_output_is_reported(output_dir, specs, probes, k, (n - 1) as nat);
    }
}

/// The first file that could not be stored is the failure of a registration,
/// before the failure that the plan ends in; a registration all of whose files
/// were stored fails as its plan does.
pub proof fn which_registrations_fail(
    plan: OutputPlanView,
    results: Seq<Result<ArtifactMetadata, ArtifactError>>,
    before: Seq<(Seq<char>, JobOutput)>,
    k: int,
)
    ensures
        0 <= k < results.len() && results[k] is Err && (forall|e: int|
            0 <= e < k ==> (#[trigger] results[e]) is Ok) ==> outputs::registration(
            plan,
            results,
            before,
        ).1 == Some(JobErrorView::Artifact(results[k]->Err_0@)),
        (forall|e: int| 0 <= e < results.len() ==> (#[trigger] results[e]) is Ok)
            ==> outputs::registration(plan, results, before).1 == plan.failure,
{
    if 0 <= k < results.len() && results[k] is Err && (forall|e: int|
        0 <= e < k ==> (#[trigger] results[e]) is Ok) {
        all_stored(plan.stores, results, before, k as nat);
        stays_failed(plan.stores, results, before, (k + 1) as nat, results.len());
    }
    if forall|e: int| 0 <= e < results.len() ==> (#[trigger] results[e]) is Ok {
        all_stored(plan.stores, results, before, results.len());
    }
}

proof fn all_stored(
    stores: Seq<(Seq<char>, Seq<char>)>,
    results: Seq<Result<ArtifactMetadata, ArtifactError>>,
    before: Seq<(Seq<char>, JobOutput)>,
    n: nat,
)
    requires
        n <= results.len(),
        forall|e: int| 0 <= e < n ==> (#[trigger] results[e]) is Ok,
    ensures
        outputs::registered(stores, results, before, n).1 is None,
    decreases n,
{
    if n > 0 {
        all_stored(stores, results, before, (n - 1) as nat);
        assert(results[n - 1] is Ok);
    }
}

proof fn stays_failed(
    stores: Seq<(Seq<char>, Seq<char>)>,
    results: Seq<Result<ArtifactMetadata, ArtifactError>>,
    before: Seq<(Seq<char>, JobOutput)>,
    k: nat,
    n: nat,
)
    requires
        k <= n,
        outputs::registered(stores, results, before, k).1 is Some,
    ensures
        outputs::registered(stores, results, before, n) == outputs::registered(
            stores,
            results,
            before,
            k,
        ),
    decreases n,
{
    if n > k {
        stays_failed(stores, results, before, k, (n - 1) as nat);
    }
}

/// A stored file is an output under its name, with the identifier, the digest and
/// the size that it was stored with.
pub proof fn what_a_stored_output_says(metadata: ArtifactMetadata)
    ensures
        outputs::stored_output(metadata) matches JobOutput::Artifact { artifact_id, sha256, size }
            && artifact_id == metadata.artifact_id && sha256 == metadata.sha256 && size
            == metadata.size,
{
}

/// The variable of an input: `JOB_` and the input's name, with ASCII letters in
/// upper case and `_` for `-`.
pub proof fn how_variables_are_named(name: Seq<char>)
    ensures
        ({
            let variable = environment::input_variable(name);
            &&& variable.len() == name.len() + 4
            &&& variable[0] == 'J' && variable[1] == 'O' && variable[2] == 'B' && variable[3] == '_'
            &&& forall|i: int|
                0 <= i < name.len() ==> if #[trigger] name[i] == '-' {
                    variable[i + 4] == '_'
                } else if 'a' <= name[i] <= 'z' {
                    variable[i + 4] as int == name[i] as int - 32
                } else {
                    variable[i + 4] == name[i]
                }
        }),
{
    reveal_strlit("JOB_");
}

/// A string stands in the environment as it is, a truth value, an integer and
/// nothing by their names, and any other value as its JSON text.
pub proof fn how_values_are_told(value: JsonView)
    ensures
        value.environment_text() == match value {
            JsonView::Text(t) => t,
            JsonView::Bool(b) => if b {
                "true"@
            } else {
                "false"@
            },
            JsonView::Null => "null"@,
            JsonView::Number { integer, text } => match integer {
                Some(n) => if n < 0 {
                    seq!['-'] + text::decimal((-n) as nat)
                } else {
                    text::decimal(n as nat)
                },
                None => text,
            },
            JsonView::Composite(t) => t,
        },
{
}

proof fn environment_ends_with(
    base: Seq<(Seq<char>, Seq<char>)>,
    resolved: Seq<(Seq<char>, Seq<char>)>,
    given: Seq<(Seq<char>, JsonValue)>,
    n: nat,
    q: Seq<char>,
)
    requires
        names::names_sorted(base),
        n <= given.len(),
    ensures
        names::names_sorted(environment::environment_with_inputs(base, resolved, given, n)),
        names::has_name(environment::environment_with_inputs(base, resolved, given, n), q)
            ==> names::has_name(base, q) || exists|k: int|
            0 <= k < n && environment::input_variable((#[trigger] given[k]).0) == q,
    decreases n,
{
    if n > 0 {
        let before = environment::environment_with_inputs(base, resolved, given, (n - 1) as nat);
        let (variable, value) = (
            environment::input_variable(given[n - 1].0),
            environment::input_text(resolved, given[n - 1]),
        );
        environment_ends_with(base, resolved, given, (n - 1) as nat, q);
        names::inserted_sorted(before, variable, value);
        names::inserted_lookup(before, variable, value, q);
    }
}

/// What a job's script finds in its environment: every input under its variable,
/// unless a later one has the same variable. An input that was resolved to an
/// artifact stands there as the path of its bytes.
pub proof fn what_a_script_is_told_of_an_input(run: JobExecutionView, k: int)
    requires
        names::names_sorted(run.metadata.resolved_artifacts),
        0 <= k < run.raw_inputs.len(),
        forall|i: int|
            k < i < run.raw_inputs.len() ==> environment::input_variable(
                (#[trigger] run.raw_inputs[i]).0,
            ) != environment::input_variable(run.raw_inputs[k].0),
    ensures
        ({
            let (name, value) = run.raw_inputs[k];
            let found = names::lookup(
                environment::job_environment(run),
                environment::input_variable(name),
            );
            &&& forall|a: int|
                0 <= a < run.metadata.resolved_artifacts.len() && (
                #[trigger] run.metadata.resolved_artifacts[a]).0 == name ==> found == Some(
                    run.metadata.resolved_artifacts[a].1,
                )
            &&& (forall|a: int|
                0 <= a < run.metadata.resolved_artifacts.len() ==> (
                #[trigger] run.metadata.resolved_artifacts[a]).0 != name) ==> found == Some(
                value@.environment_text(),
            )
        }),
{
    let base = environment::runner_environment(run);
    let resolved = run.metadata.resolved_artifacts;
    runner_environment_is_sorted(run);
    environment::input_is_in_environment(
        base,
        resolved,
        run.raw_inputs,
        run.raw_inputs.len(),
        k,
    );
    assert forall|a: int| 0 <= a < resolved.len() && (#[trigger] resolved[a]).0
        == run.raw_inputs[k].0 implies names::lookup(resolved, run.raw_inputs[k].0) == Some(
        resolved[a].1,
    ) by {
        names::lookup_at(resolved, a);
    }
}

proof fn runner_environment_is_sorted(run: JobExecutionView)
    ensures
        names::names_sorted(environment::runner_environment(run)),
{
    let e0 = Seq::<(Seq<char>, Seq<char>)>::empty();
    let e1 = names::inserted(e0, "JOB_ID"@, run.metadata.job_id);
    let e2 = names::inserted(e1, "JOB_NAME"@, run.metadata.name);
    let e3 = names::inserted(e2, "JOB_WORKDIR"@, run.work_dir);
    let e4 = names::inserted(e3, "JOB_OUTPUT_DIR"@, run.output_dir);
    names::inserted_sorted(e0, "JOB_ID"@, run.metadata.job_id);
    names::inserted_sorted(e1, "JOB_NAME"@, run.metadata.name);
    names::inserted_sorted(e2, "JOB_WORKDIR"@, run.work_dir);
    names::inserted_sorted(e3, "JOB_OUTPUT_DIR"@, run.output_dir);
    names::inserted_sorted(e4, "JOB_METADATA_PATH"@, run.metadata_path);
}

/// Five variables tell a script who and where it is, unless an input has one of
/// them, and no variable is there that is neither one of these nor an input's.
pub proof fn what_a_script_is_told_of_its_run(run: JobExecutionView, q: Seq<char>)
    ensures
        ({
            let env = environment::job_environment(run);
            let of_an_input = exists|k: int|
                0 <= k < run.raw_inputs.len() && environment::input_variable(
                    (#[trigger] run.raw_inputs[k]).0,
                ) == q;
            !of_an_input ==> {
                &&& q == "JOB_ID"@ ==> names::lookup(env, q) == Some(run.metadata.job_id)
                &&& q == "JOB_NAME"@ ==> names::lookup(env, q) == Some(run.metadata.name)
                &&& q == "JOB_WORKDIR"@ ==> names::lookup(env, q) == Some(run.work_dir)
                &&& q == "JOB_OUTPUT_DIR"@ ==> names::lookup(env, q) == Some(run.output_dir)
                &&& q == "JOB_METADATA_PATH"@ ==> names::lookup(env, q) == Some(run.metadata_path)
                &&& q != "JOB_ID"@ && q != "JOB_NAME"@ && q != "JOB_WORKDIR"@ && q
                    != "JOB_OUTPUT_DIR"@ && q != "JOB_METADATA_PATH"@ ==> !names::has_name(env, q)
            }
        }),
{
    runner_environment_is_sorted(run);
    let base = environment::runner_environment(run);
    if !(exists|k: int|
        0 <= k < run.raw_inputs.len() && environment::input_variable(
            (#[trigger] run.raw_inputs[k]).0,
        ) == q) {
        environment::inputs_leave_other_variables(
            base,
            run.metadata.resolved_artifacts,
            run.raw_inputs,
            run.raw_inputs.len(),
            q,
        );
        environment_ends_with(
            base,
            run.metadata.resolved_artifacts,
            run.raw_inputs,
            run.raw_inputs.len(),
            q,
        );
    }
    reveal_strlit("JOB_ID");
    reveal_strlit("JOB_NAME");
    reveal_strlit("JOB_WORKDIR");
    reveal_strlit("JOB_OUTPUT_DIR");
    reveal_strlit("JOB_METADATA_PATH");
    assert("JOB_ID"@.len() == 6 && "JOB_NAME"@.len() == 8 && "JOB_WORKDIR"@.len() == 11
        && "JOB_OUTPUT_DIR"@.len() == 14 && "JOB_METADATA_PATH"@.len() == 17);
    let e0 = Seq::<(Seq<char>, Seq<char>)>::empty();
    let e1 = names::inserted(e0, "JOB_ID"@, run.metadata.job_id);
    let e2 = names::inserted(e1, "JOB_NAME"@, run.metadata.name);
    let e3 = names::inserted(e2, "JOB_WORKDIR"@, run.work_dir);
    let e4 = names::inserted(e3, "JOB_OUTPUT_DIR"@, run.output_dir);
    names::inserted_sorted(e0, "JOB_ID"@, run.metadata.job_id);
    names::inserted_sorted(e1, "JOB_NAME"@, run.metadata.name);
    names::inserted_sorted(e2, "JOB_WORKDIR"@, run.work_dir);
    names::inserted_sorted(e3, "JOB_OUTPUT_DIR"@, run.output_dir);
    names::inserted_lookup(e0, "JOB_ID"@, run.metadata.job_id, q);
    names::inserted_lookup(e1, "JOB_NAME"@, run.metadata.name, q);
    names::inserted_lookup(e2, "JOB_WORKDIR"@, run.work_dir, q);
    names::inserted_lookup(e3, "JOB_OUTPUT_DIR"@, run.output_dir, q);
    names::inserted_lookup(e4, "JOB_METADATA_PATH"@, run.metadata_path, q);
}

} // verus!
