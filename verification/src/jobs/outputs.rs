//! Registering the files that a successful job run left behind.
use vstd::prelude::*;

use crate::artifacts::error::ArtifactError;
use crate::artifacts::metadata::ArtifactMetadata;
use crate::job::JobOutput;
use crate::jobs::error::{JobError, JobErrorView};
use crate::jobs::models::JobOutputArtifact;
use crate::manifest::spec::OutputSpec;
use crate::names;
use crate::names::NameMap;
use crate::paths;
use crate::text;

verus! {

/// What the file system says of a declared output's path.
#[derive(Debug)]
pub enum FileProbe {
    File,
    Other,
    Missing,
    Unreadable(String),
}

/// Where a declared output lies; nothing where its path would lead outside of
/// the output directory.
pub open spec fn output_location(output_dir: Seq<char>, relative_path: Seq<char>) -> Option<
    Seq<char>,
> {
    if paths::stays_below(relative_path) {
        Some(paths::joined(output_dir, relative_path))
    } else {
        None
    }
}

pub fn safe_output_path(output_dir: &str, relative_path: &str) -> (r: Option<String>)
    ensures
        match r {
            Some(path) => output_location(output_dir@, relative_path@) == Some(path@),
            None => output_location(output_dir@, relative_path@) is None,
        },
{
    if !paths::below(relative_path) {
        return None;
    }
    Some(paths::join(output_dir, relative_path))
}

/// What becomes of one declared output: the path of the file to store, nothing
/// to store, or the reason why registration fails.
pub open spec fn judged_output(
    output_dir: Seq<char>,
    name: Seq<char>,
    spec: OutputSpec,
    probe: FileProbe,
) -> Result<Option<Seq<char>>, JobErrorView> {
    match output_location(output_dir, spec.path@) {
        None => Err(JobErrorView::MissingOutput { name, path: spec.path@ }),
        Some(path) => match probe {
            FileProbe::File => Ok(Some(path)),
            FileProbe::Other => Err(JobErrorView::MissingOutput { name, path }),
            FileProbe::Missing => if spec.required {
                Err(JobErrorView::MissingOutput { name, path })
            } else {
                Ok(None)
            },
            FileProbe::Unreadable(source) => Err(
                JobErrorView::ReadFile { path, source: source@ },
            ),
        },
    }
}

fn judge_output(output_dir: &str, name: &str, spec: &OutputSpec, probe: &FileProbe) -> (r: Result<
    Option<String>,
    JobError,
>)
    ensures
        ({
            let expected = judged_output(output_dir@, name@, *spec, *probe);
            match r {
                Ok(Some(path)) => expected == Ok::<_, JobErrorView>(Some(path@)),
                Ok(None) => expected == Ok::<Option<Seq<char>>, JobErrorView>(None),
                Err(e) => expected == Err::<Option<Seq<char>>, _>(e@),
            }
        }),
{
    let path = match safe_output_path(output_dir, spec.path.as_str()) {
        Some(path) => path,
        None => {
            return Err(
                JobError::MissingOutput { name: name.to_owned(), path: spec.path.clone() },
            );
        },
    };
    match probe {
        FileProbe::File => Ok(Some(path)),
        FileProbe::Other => Err(JobError::MissingOutput { name: name.to_owned(), path }),
        FileProbe::Missing => {
            if spec.required {
                return Err(JobError::MissingOutput { name: name.to_owned(), path });
            }
            Ok(None)
        },
        FileProbe::Unreadable(source) => Err(JobError::ReadFile { path, source: source.clone() }),
    }
}

/// A declared output whose file is to be stored.
#[derive(Debug)]
pub struct PlannedOutput {
    pub name: String,
    pub path: String,
}

/// The files to store, in order, and the failure that ends registration.
#[derive(Debug)]
pub struct OutputPlan {
    pub stores: Vec<PlannedOutput>,
    pub failure: Option<JobError>,
}

/// The mathematical counterpart of `OutputPlan`.
pub struct OutputPlanView {
    pub stores: Seq<(Seq<char>, Seq<char>)>,
    pub failure: Option<JobErrorView>,
}

/// A planned output by its name and path.
pub open spec fn planned_model() -> spec_fn(PlannedOutput) -> (Seq<char>, Seq<char>) {
    |planned: PlannedOutput| (planned.name@, planned.path@)
}

/// An error by its mathematical counterpart.
pub open spec fn failure_view(failure: Option<JobError>) -> Option<JobErrorView> {
    match failure {
        Some(e) => Some(e@),
        None => None,
    }
}

impl View for OutputPlan {
    type V = OutputPlanView;

    open spec fn view(&self) -> OutputPlanView {
        OutputPlanView {
            stores: self.stores@.map_values(planned_model()),
            failure: failure_view(self.failure),
        }
    }
}

/// The plan for the first `n` declared outputs: their files are stored in name
/// order until one of them is missing or unusable.
pub open spec fn planned(
    output_dir: Seq<char>,
    specs: Seq<(Seq<char>, OutputSpec)>,
    probes: Seq<FileProbe>,
    n: nat,
) -> OutputPlanView
    decreases n,
{
    if n == 0 {
        OutputPlanView { stores: Seq::empty(), failure: None }
    } else {
        let before = planned(output_dir, specs, probes, (n - 1) as nat);
        let (name, spec) = specs[n - 1];
        if before.failure is Some {
            before
        } else {
            match judged_output(output_dir, name, spec, probes[n - 1]) {
                Err(problem) => OutputPlanView { failure: Some(problem), ..before },
                Ok(None) => before,
                Ok(Some(path)) => OutputPlanView {
                    stores: before.stores.push((name, path)),
                    ..before
                },
            }
        }
    }
}

proof fn plan_stops_at_failure(
    output_dir: Seq<char>,
    specs: Seq<(Seq<char>, OutputSpec)>,
    probes: Seq<FileProbe>,
    k: nat,
    n: nat,
)
    requires
        k <= n,
        planned(output_dir, specs, probes, k).failure is Some,
    ensures
        planned(output_dir, specs, probes, n) == planned(output_dir, specs, probes, k),
    decreases n,
{
    if k < n {
        plan_stops_at_failure(output_dir, specs, probes, k, (n - 1) as nat);
    }
}

/// Decides, from what the file system says of each declared output, which files
/// are stored.
pub fn plan_outputs(specs: &NameMap<OutputSpec>, output_dir: &str, probes: &Vec<FileProbe>) -> (r:
    OutputPlan)
    requires
        probes@.len() == specs@.len(),
    ensures
        r@ == planned(output_dir@, specs@, probes@, specs@.len()),
{
    let mut plan = OutputPlan { stores: Vec::new(), failure: None };
    assert(plan@.stores =~= Seq::empty());
    let n = specs.len();
    let mut i: usize = 0;
    while i < n
        invariant
            i <= n,
            n == specs@.len(),
            n == probes@.len(),
            plan.failure is None,
            plan@ == planned(output_dir@, specs@, probes@, i as nat),
        decreases n - i,
    {
        let name = specs.name_at(i);
        let ghost before = plan@;
        match judge_output(output_dir, name.as_str(), specs.value_at(i), &probes[i]) {
            Err(e) => {
                plan.failure = Some(e);
                proof {
                    assert(plan@ == planned(output_dir@, specs@, probes@, (i + 1) as nat));
                    plan_stops_at_failure(
                        output_dir@,
                        specs@,
                        probes@,
                        (i + 1) as nat,
                        specs@.len(),
                    );
                }
                return plan;
            },
            Ok(None) => {},
            Ok(Some(path)) => {
                plan.stores.push(PlannedOutput { name: name.clone(), path });
                assert(plan@.stores =~= before.stores.push((name@, path@)));
            },
        }
        i += 1;
    }
    plan
}

/// A stored file as an output of the job run.
pub open spec fn stored_output(metadata: ArtifactMetadata) -> JobOutput {
    JobOutput::Artifact {
        artifact_id: metadata.artifact_id,
        sha256: metadata.sha256,
        size: metadata.size,
    }
}

/// The outputs that a job run has, and the failure that ended registration.
#[derive(Debug)]
pub struct OutputRegistration {
    pub outputs: NameMap<JobOutput>,
    pub failure: Option<JobError>,
}

/// The outputs once the first `n` results of storing are in.
pub open spec fn registered(
    stores: Seq<(Seq<char>, Seq<char>)>,
    results: Seq<Result<ArtifactMetadata, ArtifactError>>,
    outputs: Seq<(Seq<char>, JobOutput)>,
    n: nat,
) -> (Seq<(Seq<char>, JobOutput)>, Option<JobErrorView>)
    decreases n,
{
    if n == 0 {
        (outputs, None)
    } else {
        let before = registered(stores, results, outputs, (n - 1) as nat);
        if before.1 is Some {
            before
        } else {
            match results[n - 1] {
                Ok(metadata) => (
                    names::inserted(before.0, stores[n - 1].0, stored_output(metadata)),
                    None,
                ),
                Err(e) => (before.0, Some(JobErrorView::Artifact(e@))),
            }
        }
    }
}

proof fn registration_stops_at_failure(
    stores: Seq<(Seq<char>, Seq<char>)>,
    results: Seq<Result<ArtifactMetadata, ArtifactError>>,
    outputs: Seq<(Seq<char>, JobOutput)>,
    k: nat,
    n: nat,
)
    requires
        k <= n,
        registered(stores, results, outputs, k).1 is Some,
    ensures
        registered(stores, results, outputs, n) == registered(stores, results, outputs, k),
    decreases n,
{
    if k < n {
        registration_stops_at_failure(stores, results, outputs, k, (n - 1) as nat);
    }
}

/// The outcome of registration: a file that could not be stored counts before
/// the failure that the plan ends in.
pub open spec fn registration(
    plan: OutputPlanView,
    results: Seq<Result<ArtifactMetadata, ArtifactError>>,
    outputs: Seq<(Seq<char>, JobOutput)>,
) -> (Seq<(Seq<char>, JobOutput)>, Option<JobErrorView>) {
    let stored = registered(plan.stores, results, outputs, results.len());
    if stored.1 is Some {
        stored
    } else {
        (stored.0, plan.failure)
    }
}

/// The results of storing some files, one after the other: of all of them, or up
/// to the first that could not be stored.
pub open spec fn stored_in_order(
    files: nat,
    results: Seq<Result<ArtifactMetadata, ArtifactError>>,
) -> bool {
    ||| results.len() == files
    ||| 0 < results.len() < files && results.last() is Err
}

/// Adds the stored files to the outputs. `results` holds what storing the
/// planned files gave, in order, up to the first failure. Where no failure is
/// reported, every planned file was stored.
#[verifier::loop_isolation(false)]
pub fn register_outputs(
    plan: OutputPlan,
    results: Vec<Result<ArtifactMetadata, ArtifactError>>,
    outputs: NameMap<JobOutput>,
) -> (r: OutputRegistration)
    requires
        stored_in_order(plan.stores@.len(), results@),
    ensures
        (r.outputs@, failure_view(r.failure)) == registration(plan@, results@, outputs@),
        r.failure is None ==> plan.failure is None && results@.len() == plan.stores@.len()
            && forall|i: int| 0 <= i < results@.len() ==> (#[trigger] results@[i]) is Ok,
{
    proof {
        no_failure_stores_all(plan@, results@, outputs@);
    }
    let ghost initial = outputs@;
    let ghost all = results@;
    let ghost stores = plan@.stores;
    let mut outputs = outputs;
    let mut results = results;
    let mut stored: usize = 0;
    let total = results.len();
    while stored < total
        invariant
            stored <= total,
            total == all.len(),
            total <= plan.stores@.len(),
            stores == plan.stores@.map_values(planned_model()),
            results@ == all.skip(stored as int),
            registered(stores, all, initial, stored as nat) == (outputs@, None::<JobErrorView>),
        decreases total - stored,
    {
        let result = results.remove(0);
        assert(result == all[stored as int]);
        assert(results@ =~= all.skip(stored + 1));
        match result {
            Ok(metadata) => {
                let output = JobOutput::from(JobOutputArtifact::from(metadata));
                assert(stores[stored as int].0 == plan.stores@[stored as int].name@);
                outputs.insert(plan.stores[stored].name.clone(), output);
            },
            Err(e) => {
                proof {
                    registration_stops_at_failure(
                        stores,
                        all,
                        initial,
                        (stored + 1) as nat,
                        all.len(),
                    );
                }
                return OutputRegistration { outputs, failure: Some(JobError::Artifact(e)) };
            },
        }
        stored += 1;
    }
    OutputRegistration { outputs, failure: plan.failure }
}

proof fn registered_prefix(
    stores: Seq<(Seq<char>, Seq<char>)>,
    results: Seq<Result<ArtifactMetadata, ArtifactError>>,
    outputs: Seq<(Seq<char>, JobOutput)>,
    n: nat,
)
    requires
        registered(stores, results, outputs, n).1 is None,
    ensures
        forall|i: int| 0 <= i < n ==> (#[trigger] results[i]) is Ok,
    decreases n,
{
    if n > 0 {
        registered_prefix(stores, results, outputs, (n - 1) as nat);
    }
}

/// A registration without a failure is one whose plan has none and whose every
/// planned file was stored.
pub proof fn no_failure_stores_all(
    plan: OutputPlanView,
    results: Seq<Result<ArtifactMetadata, ArtifactError>>,
    outputs: Seq<(Seq<char>, JobOutput)>,
)
    requires
        stored_in_order(plan.stores.len(), results),
    ensures
        registration(plan, results, outputs).1 is None ==> {
            &&& plan.failure is None
            &&& results.len() == plan.stores.len()
            &&& forall|i: int| 0 <= i < results.len() ==> (#[trigger] results[i]) is Ok
        },
{
    if registration(plan, results, outputs).1 is None {
        registered_prefix(plan.stores, results, outputs, results.len());
        if results.len() > 0 {
            assert(results[results.len() - 1] is Ok);
        }
    }
}

proof fn registered_outputs(
    stores: Seq<(Seq<char>, Seq<char>)>,
    results: Seq<Result<ArtifactMetadata, ArtifactError>>,
    outputs: Seq<(Seq<char>, JobOutput)>,
    n: nat,
    name: Seq<char>,
)
    requires
        names::names_sorted(stores),
        names::names_sorted(outputs),
        n <= stores.len(),
        registered(stores, results, outputs, n).1 is None,
    ensures
        names::names_sorted(registered(stores, results, outputs, n).0),
        forall|i: int|
            0 <= i < n && (#[trigger] stores[i]).0 == name ==> names::lookup(
                registered(stores, results, outputs, n).0,
                name,
            ) == Some(stored_output(results[i]->Ok_0)),
        (forall|i: int| 0 <= i < n ==> (#[trigger] stores[i]).0 != name) ==> names::lookup(
            registered(stores, results, outputs, n).0,
            name,
        ) == names::lookup(outputs, name),
    decreases n,
{
    if n > 0 {
        let before = registered(stores, results, outputs, (n - 1) as nat).0;
        registered_outputs(stores, results, outputs, (n - 1) as nat, name);
        let output = stored_output(results[n - 1]->Ok_0);
        names::inserted_sorted(before, stores[n - 1].0, output);
        names::inserted_lookup(before, stores[n - 1].0, output, name);
        assert forall|i: int| 0 <= i < n && (#[trigger] stores[i]).0 == name implies names::lookup(
            registered(stores, results, outputs, n).0,
            name,
        ) == Some(stored_output(results[i]->Ok_0)) by {
            if stores[n - 1].0 == name {
                names::name_occurs_once(stores, i, n - 1);
            }
        }
    }
}

/// Where registration reports no failure, each planned file is among the outputs
/// as the artifact that it was stored as, and every other output is as it was.
pub proof fn no_failure_registers_every_planned_output(
    plan: OutputPlanView,
    results: Seq<Result<ArtifactMetadata, ArtifactError>>,
    outputs: Seq<(Seq<char>, JobOutput)>,
    name: Seq<char>,
)
    requires
        names::names_sorted(plan.stores),
        names::names_sorted(outputs),
        stored_in_order(plan.stores.len(), results),
        registration(plan, results, outputs).1 is None,
    ensures
        forall|i: int|
            0 <= i < plan.stores.len() && (#[trigger] plan.stores[i]).0 == name ==> results[i] is Ok
                && names::lookup(registration(plan, results, outputs).0, name) == Some(
                stored_output(results[i]->Ok_0),
            ),
        !names::has_name(plan.stores, name) ==> names::lookup(
            registration(plan, results, outputs).0,
            name,
        ) == names::lookup(outputs, name),
{
    no_failure_stores_all(plan, results, outputs);
    registered_outputs(plan.stores, results, outputs, results.len(), name);
    if !names::has_name(plan.stores, name) {
        assert forall|i: int| 0 <= i < results.len() implies (#[trigger] plan.stores[i]).0
            != name by {}
    }
}

/// A plan stores files in the order of the outputs' names, each name once.
pub proof fn plan_is_in_name_order(
    output_dir: Seq<char>,
    specs: Seq<(Seq<char>, OutputSpec)>,
    probes: Seq<FileProbe>,
    n: nat,
)
    requires
        names::names_sorted(specs),
        n <= specs.len(),
    ensures
        names::names_sorted(planned(output_dir, specs, probes, n).stores),
        forall|i: int|
            0 <= i < planned(output_dir, specs, probes, n).stores.len() ==> exists|k: int|
                0 <= k < n && (#[trigger] specs[k]).0 == (#[trigger] planned(
                    output_dir,
                    specs,
                    probes,
                    n,
                ).stores[i]).0,
    decreases n,
{
    let after = planned(output_dir, specs, probes, n).stores;
    if n > 0 {
        plan_is_in_name_order(output_dir, specs, probes, (n - 1) as nat);
        let before = planned(output_dir, specs, probes, (n - 1) as nat).stores;
        assert forall|i: int| 0 <= i < after.len() implies exists|k: int|
            0 <= k < n && (#[trigger] specs[k]).0 == (#[trigger] after[i]).0 by {
            if i < before.len() {
                assert(after[i] == before[i]);
                let k = choose|k: int|
                    0 <= k < n - 1 && (#[trigger] specs[k]).0 == before[i].0;
                assert(specs[k].0 == after[i].0);
            } else {
                assert(specs[n - 1].0 == after[i].0);
            }
        }
        assert forall|i: int, j: int| 0 <= i < j < after.len() implies #[trigger] text::text_lt(
            after[i].0,
            after[j].0,
        ) by {
            assert(after[i] == before[i]);
            if j < before.len() {
                assert(after[j] == before[j]);
                assert(text::text_lt(before[i].0, before[j].0));
            } else {
                let k = choose|k: int|
                    0 <= k < n - 1 && (#[trigger] specs[k]).0 == before[i].0;
                assert(text::text_lt(specs[k].0, specs[n - 1].0));
            }
        }
    }
}

/// A plan without a failure stores every declared output whose file is there.
pub proof fn plan_stores_every_file(
    output_dir: Seq<char>,
    specs: Seq<(Seq<char>, OutputSpec)>,
    probes: Seq<FileProbe>,
    n: nat,
    k: int,
)
    requires
        n <= specs.len(),
        0 <= k < n,
        planned(output_dir, specs, probes, n).failure is None,
    ensures
        probes[k] is File || (probes[k] is Missing && !specs[k].1.required),
        probes[k] is File ==> exists|i: int|
            0 <= i < planned(output_dir, specs, probes, n).stores.len() && (#[trigger] planned(
                output_dir,
                specs,
                probes,
                n,
            ).stores[i]) == (specs[k].0, paths::joined(output_dir, specs[k].1.path@)),
    decreases n,
{
    let before = planned(output_dir, specs, probes, (n - 1) as nat).stores;
    let after = planned(output_dir, specs, probes, n).stores;
    if k < n - 1 {
        plan_stores_every_file(output_dir, specs, probes, (n - 1) as nat, k);
        if probes[k] is File {
            let i = choose|i: int|
                0 <= i < before.len() && (#[trigger] before[i]) == (
                    specs[k].0,
                    paths::joined(output_dir, specs[k].1.path@),
                );
            assert(after[i] == before[i]);
        }
    } else if probes[k] is File {
        assert(after[after.len() - 1] == (
            specs[k].0,
            paths::joined(output_dir, specs[k].1.path@),
        ));
    }
}

/// Where registration reports no failure, every declared output whose file is
/// there is among the outputs, and that is every required one.
pub proof fn no_failure_registers_every_required_output(
    output_dir: Seq<char>,
    specs: Seq<(Seq<char>, OutputSpec)>,
    probes: Seq<FileProbe>,
    results: Seq<Result<ArtifactMetadata, ArtifactError>>,
    outputs: Seq<(Seq<char>, JobOutput)>,
    k: int,
)
    requires
        names::names_sorted(specs),
        names::names_sorted(outputs),
        0 <= k < specs.len(),
        ({
            let plan = planned(output_dir, specs, probes, specs.len());
            &&& stored_in_order(plan.stores.len(), results)
            &&& registration(plan, results, outputs).1 is None
        }),
    ensures
        specs[k].1.required ==> probes[k] is File,
        probes[k] is File ==> names::has_name(
            registration(planned(output_dir, specs, probes, specs.len()), results, outputs).0,
            specs[k].0,
        ),
{
    let plan = planned(output_dir, specs, probes, specs.len());
    no_failure_stores_all(plan, results, outputs);
    plan_is_in_name_order(output_dir, specs, probes, specs.len());
    plan_stores_every_file(output_dir, specs, probes, specs.len(), k);
    no_failure_registers_every_planned_output(plan, results, outputs, specs[k].0);
}

/// Only files below the output directory are ever stored.
pub proof fn stored_files_stay_below(
    output_dir: Seq<char>,
    specs: Seq<(Seq<char>, OutputSpec)>,
    probes: Seq<FileProbe>,
    n: nat,
    i: int,
)
    requires
        output_dir.len() > 0,
        n <= specs.len(),
        0 <= i < planned(output_dir, specs, probes, n).stores.len(),
    ensures
        exists|k: int|
            0 <= k < n && planned(output_dir, specs, probes, n).stores[i] == (
                (#[trigger] specs[k]).0,
                paths::joined(output_dir, specs[k].1.path@),
            ) && paths::stays_below(specs[k].1.path@),
        output_dir.is_prefix_of(planned(output_dir, specs, probes, n).stores[i].1),
    decreases n,
{
    let before = planned(output_dir, specs, probes, (n - 1) as nat);
    if i < before.stores.len() {
        stored_files_stay_below(output_dir, specs, probes, (n - 1) as nat, i);
    } else {
        paths::joined_stays_under(output_dir, specs[n - 1].1.path@);
    }
}

/// A required output whose file is missing fails the registration.
pub proof fn missing_required_output_fails(
    output_dir: Seq<char>,
    specs: Seq<(Seq<char>, OutputSpec)>,
    probes: Seq<FileProbe>,
    i: int,
)
    requires
        0 <= i < specs.len(),
        specs[i].1.required,
        probes[i] is Missing,
    ensures
        planned(output_dir, specs, probes, specs.len()).failure is Some,
{
    let step = planned(output_dir, specs, probes, (i + 1) as nat);
    assert(step.failure is Some);
    plan_stops_at_failure(output_dir, specs, probes, (i + 1) as nat, specs.len());
}

} // verus!
