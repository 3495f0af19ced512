//! What a report on a workflow says of the jobs that its runners advertise.
use vstd::prelude::*;

use crate::names;
use crate::schema::JobDefinitionResponse;
use crate::schema_diff;
use crate::schema_diff::{
    DiffView, WorkflowDefinition, WorkflowInputBinding, WorkflowSchemaDiffKind,
    WorkflowSchemaStatus,
};
use crate::text;

verus! {

proof fn collected_contains<A>(s: Seq<A>, f: spec_fn(A) -> Seq<DiffView>, x: DiffView)
    ensures
        schema_diff::collected(s, f).contains(x) == (exists|i: int|
            0 <= i < s.len() && f(#[trigger] s[i]).contains(x)),
    decreases s.len(),
{
    let whole = schema_diff::collected(s, f);
    if s.len() > 0 {
        let rest = s.drop_last();
        let (front, back) = (schema_diff::collected(rest, f), f(s.last()));
        collected_contains(rest, f, x);
        assert(whole == front + back);
        if whole.contains(x) {
            let w = choose|w: int| 0 <= w < whole.len() && whole[w] == x;
            if w < front.len() {
                assert(front[w] == x);
                let i = choose|i: int| 0 <= i < rest.len() && f(#[trigger] rest[i]).contains(x);
                assert(f(s[i]).contains(x));
            } else {
                assert(back[w - front.len()] == x);
                assert(f(s[s.len() - 1]).contains(x));
            }
        }
        if exists|i: int| 0 <= i < s.len() && f(#[trigger] s[i]).contains(x) {
            let i = choose|i: int| 0 <= i < s.len() && f(#[trigger] s[i]).contains(x);
            if i < rest.len() {
                assert(f(rest[i]).contains(x));
                let w = choose|w: int| 0 <= w < front.len() && front[w] == x;
                assert(whole[w] == x);
            } else {
                let w = choose|w: int| 0 <= w < back.len() && back[w] == x;
                assert(whole[front.len() + w] == x);
            }
        }
    }
}

proof fn joined_contains(a: Seq<DiffView>, b: Seq<DiffView>, x: DiffView)
    ensures
        (a + b).contains(x) == (a.contains(x) || b.contains(x)),
{
    let c = a + b;
    if a.contains(x) {
        let w = choose|w: int| 0 <= w < a.len() && a[w] == x;
        assert(c[w] == x);
    }
    if b.contains(x) {
        let w = choose|w: int| 0 <= w < b.len() && b[w] == x;
        assert(c[a.len() + w] == x);
    }
    if c.contains(x) {
        let w = choose|w: int| 0 <= w < c.len() && c[w] == x;
        if w < a.len() {
            assert(a[w] == x);
        } else {
            assert(b[w - a.len()] == x);
        }
    }
}

proof fn job_contains(
    job_index: usize,
    job_name: Seq<char>,
    saved: JobDefinitionResponse,
    current: JobDefinitionResponse,
    bound: spec_fn(Seq<char>) -> bool,
    referenced: spec_fn(Seq<char>) -> bool,
    x: DiffView,
)
    ensures
        ({
            let a = schema_diff::added_input(job_index, job_name, saved.inputs@);
            let b = schema_diff::changed_input(job_index, job_name, current.inputs@, bound);
            let c = schema_diff::added_output(job_index, job_name, saved.outputs@);
            let d = schema_diff::changed_output(job_index, job_name, current.outputs@, referenced);
            schema_diff::job_diff(job_index, job_name, saved, current, bound, referenced).contains(
                x,
            ) == {
                ||| exists|i: int|
                    0 <= i < current.inputs@.len() && a(#[trigger] current.inputs@[i]).contains(x)
                ||| exists|i: int|
                    0 <= i < saved.inputs@.len() && b(#[trigger] saved.inputs@[i]).contains(x)
                ||| exists|i: int|
                    0 <= i < current.outputs@.len() && c(#[trigger] current.outputs@[i]).contains(x)
                ||| exists|i: int|
                    0 <= i < saved.outputs@.len() && d(#[trigger] saved.outputs@[i]).contains(x)
            }
        }),
{
    let a = schema_diff::added_input(job_index, job_name, saved.inputs@);
    let b = schema_diff::changed_input(job_index, job_name, current.inputs@, bound);
    let c = schema_diff::added_output(job_index, job_name, saved.outputs@);
    let d = schema_diff::changed_output(job_index, job_name, current.outputs@, referenced);
    collected_contains(current.inputs@, a, x);
    collected_contains(saved.inputs@, b, x);
    collected_contains(current.outputs@, c, x);
    collected_contains(saved.outputs@, d, x);
    let sa = schema_diff::collected(current.inputs@, a);
    let sb = schema_diff::collected(saved.inputs@, b);
    let sc = schema_diff::collected(current.outputs@, c);
    let sd = schema_diff::collected(saved.outputs@, d);
    joined_contains(sa, sb, x);
    joined_contains(sa + sb, sc, x);
    joined_contains(sa + sb + sc, sd, x);
}

proof fn jobs_contain(
    definition: WorkflowDefinition,
    snapshot: Seq<JobDefinitionResponse>,
    advertised: Seq<Vec<JobDefinitionResponse>>,
    n: nat,
    x: DiffView,
)
    ensures
        schema_diff::jobs_diff(definition, snapshot, advertised, n).contains(x) == (exists|i: int|
            0 <= i < n && (#[trigger] schema_diff::workflow_job_diff(
                definition,
                snapshot,
                advertised,
                i,
            )).contains(x)),
    decreases n,
{
    if n > 0 {
        let m = (n - 1) as nat;
        jobs_contain(definition, snapshot, advertised, m, x);
        joined_contains(
            schema_diff::jobs_diff(definition, snapshot, advertised, m),
            schema_diff::workflow_job_diff(definition, snapshot, advertised, n - 1),
            x,
        );
    }
}

proof fn extras_contain(snapshot: Seq<JobDefinitionResponse>, first: nat, n: nat, x: DiffView)
    ensures
        schema_diff::extra_jobs(snapshot, first, n).contains(x) == (exists|k: int|
            first <= k < n && x == #[trigger] schema_diff::removed_job(
                k as usize,
                snapshot[k].name@,
                snapshot[k].name@,
                " exists in the saved schema snapshot but not in the workflow definition"@,
            )),
    decreases n,
{
    if n > first {
        let m = (n - 1) as nat;
        extras_contain(snapshot, first, m, x);
        let last = schema_diff::removed_job(
            m as usize,
            snapshot[m as int].name@,
            snapshot[m as int].name@,
            " exists in the saved schema snapshot but not in the workflow definition"@,
        );
        let before = schema_diff::extra_jobs(snapshot, first, m);
        joined_contains(before, seq![last], x);
        assert(before + seq![last] =~= schema_diff::extra_jobs(snapshot, first, n));
        if x == last {
            assert(seq![last][0] == x);
        }
        if exists|k: int|
            first <= k < n && x == #[trigger] schema_diff::removed_job(
                k as usize,
                snapshot[k].name@,
                snapshot[k].name@,
                " exists in the saved schema snapshot but not in the workflow definition"@,
            ) {
            let k = choose|k: int|
                first <= k < n && x == #[trigger] schema_diff::removed_job(
                    k as usize,
                    snapshot[k].name@,
                    snapshot[k].name@,
                    " exists in the saved schema snapshot but not in the workflow definition"@,
                );
            if k == m {
                assert(seq![last][0] == x);
            }
        }
    }
}

proof fn job_difference_is_reported(
    definition: WorkflowDefinition,
    snapshot: Seq<JobDefinitionResponse>,
    advertised: Seq<Vec<JobDefinitionResponse>>,
    i: int,
    x: DiffView,
)
    requires
        0 <= i < definition.jobs@.len(),
        schema_diff::workflow_job_diff(definition, snapshot, advertised, i).contains(x),
    ensures
        schema_diff::workflow_diff(definition, snapshot, advertised).contains(x),
{
    let n = definition.jobs@.len();
    jobs_contain(definition, snapshot, advertised, n, x);
    joined_contains(
        schema_diff::jobs_diff(definition, snapshot, advertised, n),
        schema_diff::extra_jobs(snapshot, n, snapshot.len()),
        x,
    );
}

proof fn first_advertised(advertised: Seq<JobDefinitionResponse>, name: Seq<char>, j: int)
    requires
        0 <= j < advertised.len(),
        advertised[j].name@ == name,
        forall|e: int| 0 <= e < j ==> (#[trigger] advertised[e]).name@ != name,
    ensures
        schema_diff::advertised_job(advertised, name) == Some(advertised[j]),
    decreases j,
{
    if j > 0 {
        assert(advertised[0].name@ != name);
        let rest = advertised.drop_first();
        assert forall|e: int| 0 <= e < j - 1 implies (#[trigger] rest[e]).name@ != name by {
            assert(rest[e] == advertised[e + 1]);
        }
        first_advertised(rest, name, j - 1);
    }
}

proof fn never_advertised(advertised: Seq<JobDefinitionResponse>, name: Seq<char>)
    requires
        forall|e: int| 0 <= e < advertised.len() ==> (#[trigger] advertised[e]).name@ != name,
    ensures
        schema_diff::advertised_job(advertised, name) is None,
    decreases advertised.len(),
{
    if advertised.len() > 0 {
        assert(advertised[0].name@ != name);
        let rest = advertised.drop_first();
        assert forall|e: int| 0 <= e < rest.len() implies (#[trigger] rest[e]).name@ != name by {
            assert(rest[e] == advertised[e + 1]);
        }
        never_advertised(rest, name);
    }
}

proof fn found_under_its_name<T>(s: Seq<(Seq<char>, T)>, name: Seq<char>, c: int)
    requires
        names::names_sorted(s),
        0 <= c < s.len(),
        s[c].0 == name,
    ensures
        names::lookup(s, name) == Some(s[c].1),
{
    names::lookup_at(s, c);
}

proof fn reported_difference_shows(diff: Seq<DiffView>, x: DiffView)
    requires
        diff.contains(x),
    ensures
        x.incompatible ==> schema_diff::status_of(diff) == WorkflowSchemaStatus::Incompatible,
        x.stale() ==> schema_diff::status_of(diff) != WorkflowSchemaStatus::Current,
{
    let w = choose|w: int| 0 <= w < diff.len() && diff[w] == x;
    assert(diff[w].incompatible == x.incompatible);
    assert(diff[w].stale() == x.stale());
}

proof fn taken_is_referenced(definition: WorkflowDefinition, i: int, name: Seq<char>)
    requires
        0 <= i <= usize::MAX,
    ensures
        schema_diff::referenced_output(definition, i as usize)(name) == (exists|d: int, b: int|
            0 <= d < definition.jobs@.len() && 0 <= b < definition.jobs@[d].inputs@.len()
                && ((#[trigger] definition.jobs@[d].inputs@[b]).1 matches WorkflowInputBinding::JobOutput {
                job_index,
                output_name,
            } && job_index == i && output_name@ == name)),
{
    let jobs = definition.jobs@;
    if exists|d: int, b: int|
        0 <= d < jobs.len() && 0 <= b < jobs[d].inputs@.len()
            && ((#[trigger] jobs[d].inputs@[b]).1 matches WorkflowInputBinding::JobOutput {
            job_index,
            output_name,
        } && job_index == i && output_name@ == name) {
        let (d, b) = choose|d: int, b: int|
            0 <= d < jobs.len() && 0 <= b < jobs[d].inputs@.len()
                && ((#[trigger] jobs[d].inputs@[b]).1 matches WorkflowInputBinding::JobOutput {
                job_index,
                output_name,
            } && job_index == i && output_name@ == name);
        assert(schema_diff::refers_to(jobs[d].inputs@[b].1, i as usize, name));
        assert(schema_diff::referenced_in(
            jobs[d].inputs@,
            jobs[d].inputs@.len() as int,
            i as usize,
            name,
        ));
    }
    if schema_diff::referenced_output(definition, i as usize)(name) {
        let d = choose|d: int|
            0 <= d < jobs.len() && schema_diff::referenced_in(
                (#[trigger] jobs[d]).inputs@,
                jobs[d].inputs@.len() as int,
                i as usize,
                name,
            );
        let b = choose|b: int|
            0 <= b < jobs[d].inputs@.len() && schema_diff::refers_to(
                (#[trigger] jobs[d].inputs@[b]).1,
                i as usize,
                name,
            );
        assert(schema_diff::refers_to(jobs[d].inputs@[b].1, i as usize, name));
    }
}

proof fn given_is_bound(definition: WorkflowDefinition, i: int, name: Seq<char>)
    requires
        0 <= i < definition.jobs@.len() <= usize::MAX,
    ensures
        schema_diff::bound_input(definition, i as usize)(name) == (exists|b: int|
            0 <= b < definition.jobs@[i].inputs@.len() && (
            #[trigger] definition.jobs@[i].inputs@[b]).0 == name),
{
    let inputs = definition.jobs@[i].inputs@;
    if exists|b: int| 0 <= b < inputs.len() && (#[trigger] inputs[b]).0 == name {
        assert(names::has_name(inputs, name));
    }
}

/// An output whose type changed breaks the workflow exactly if it was required
/// or some job of the workflow takes it. Either way it is reported.
pub proof fn changed_output_type_is_reported(
    definition: WorkflowDefinition,
    snapshot: Seq<JobDefinitionResponse>,
    advertised: Seq<Vec<JobDefinitionResponse>>,
    i: int,
    j: int,
    o: int,
    c: int,
)
    requires
        0 <= i < definition.jobs@.len() <= usize::MAX,
        i < snapshot.len(),
        0 <= j < advertised[i]@.len(),
        advertised[i]@[j].name@ == definition.jobs@[i].runner_job_name@,
        forall|e: int|
            0 <= e < j ==> (#[trigger] advertised[i]@[e]).name@
                != definition.jobs@[i].runner_job_name@,
        0 <= c < advertised[i]@[j].outputs@.len(),
        0 <= o < snapshot[i].outputs@.len(),
        names::names_sorted(advertised[i]@[j].outputs@),
        advertised[i]@[j].outputs@[c].0 == snapshot[i].outputs@[o].0,
        advertised[i]@[j].outputs@[c].1.kind != snapshot[i].outputs@[o].1.kind,
    ensures
        ({
            let diff = schema_diff::workflow_diff(definition, snapshot, advertised);
            let (name, saved) = snapshot[i].outputs@[o];
            let current = advertised[i]@[j].outputs@[c].1;
            let breaks = saved.required || exists|d: int, b: int|
                0 <= d < definition.jobs@.len() && 0 <= b < definition.jobs@[d].inputs@.len()
                    && ((#[trigger] definition.jobs@[d].inputs@[b]).1 matches WorkflowInputBinding::JobOutput {
                    job_index,
                    output_name,
                } && job_index == i && output_name@ == name);
            &&& diff.contains(DiffView {
                kind: WorkflowSchemaDiffKind::OutputTypeChanged,
                job_index: i as usize,
                job_name: definition.jobs@[i].runner_job_name@,
                field_name: Some(name),
                saved: Some(saved.kind.label()),
                current: Some(current.kind.label()),
                incompatible: breaks,
                message: "job-"@ + text::decimal((i + 1) as nat) + " output "@ + name
                    + " changed type from "@
                    + saved.kind.label() + " to "@ + current.kind.label(),
            })
            &&& breaks ==> schema_diff::status_of(diff) == WorkflowSchemaStatus::Incompatible
            &&& schema_diff::status_of(diff) != WorkflowSchemaStatus::Current
        }),
{
    let diff = schema_diff::workflow_diff(definition, snapshot, advertised);
    let (saved_job, job) = (snapshot[i], advertised[i]@[j]);
    let job_name = definition.jobs@[i].runner_job_name@;
    let bound = schema_diff::bound_input(definition, i as usize);
    let referenced = schema_diff::referenced_output(definition, i as usize);
    let (name, saved) = snapshot[i].outputs@[o];
    let current = advertised[i]@[j].outputs@[c].1;
    let breaks = saved.required || exists|d: int, b: int|
        0 <= d < definition.jobs@.len() && 0 <= b < definition.jobs@[d].inputs@.len()
            && ((#[trigger] definition.jobs@[d].inputs@[b]).1 matches WorkflowInputBinding::JobOutput {
            job_index,
            output_name,
        } && job_index == i && output_name@ == name);
    let x = DiffView {
        kind: WorkflowSchemaDiffKind::OutputTypeChanged,
        job_index: i as usize,
        job_name: definition.jobs@[i].runner_job_name@,
        field_name: Some(name),
        saved: Some(saved.kind.label()),
        current: Some(current.kind.label()),
        incompatible: breaks,
        message: "job-"@ + text::decimal((i + 1) as nat) + " output "@ + name
            + " changed type from "@
            + saved.kind.label() + " to "@ + current.kind.label(),
    };
    first_advertised(advertised[i]@, job_name, j);
    taken_is_referenced(definition, i, name);
    given_is_bound(definition, i, name);
    found_under_its_name(job.outputs@, name, c);
    let rule = schema_diff::changed_output(i as usize, job_name, job.outputs@, referenced);
    let first = schema_diff::output_type_change(
        i as usize,
        job_name,
        name,
        saved,
        current,
        referenced(name),
    );
    let second = schema_diff::output_requiredness_change(i as usize, job_name, name, saved, current);
    assert(first[0] == x);
    joined_contains(first, second, x);
    assert(rule(saved_job.outputs@[o]) == first + second);
    assert(rule(saved_job.outputs@[o]).contains(x));
    job_contains(i as usize, job_name, saved_job, job, bound, referenced, x);
    assert(schema_diff::workflow_job_diff(definition, snapshot, advertised, i).contains(x));
    job_difference_is_reported(definition, snapshot, advertised, i, x);
    reported_difference_shows(diff, x);
}

/// An input whose type changed breaks the workflow exactly if it was required
/// or the workflow gives it. Either way it is reported.
pub proof fn changed_input_type_is_reported(
    definition: WorkflowDefinition,
    snapshot: Seq<JobDefinitionResponse>,
    advertised: Seq<Vec<JobDefinitionResponse>>,
    i: int,
    j: int,
    o: int,
    c: int,
)
    requires
        0 <= i < definition.jobs@.len() <= usize::MAX,
        i < snapshot.len(),
        0 <= j < advertised[i]@.len(),
        advertised[i]@[j].name@ == definition.jobs@[i].runner_job_name@,
        forall|e: int|
            0 <= e < j ==> (#[trigger] advertised[i]@[e]).name@
                != definition.jobs@[i].runner_job_name@,
        0 <= c < advertised[i]@[j].inputs@.len(),
        0 <= o < snapshot[i].inputs@.len(),
        names::names_sorted(advertised[i]@[j].inputs@),
        advertised[i]@[j].inputs@[c].0 == snapshot[i].inputs@[o].0,
        advertised[i]@[j].inputs@[c].1.kind != snapshot[i].inputs@[o].1.kind,
    ensures
        ({
            let diff = schema_diff::workflow_diff(definition, snapshot, advertised);
            let (name, saved) = snapshot[i].inputs@[o];
            let current = advertised[i]@[j].inputs@[c].1;
            let breaks = saved.required || exists|b: int|
                0 <= b < definition.jobs@[i].inputs@.len() && (
                #[trigger] definition.jobs@[i].inputs@[b]).0 == name;
            &&& diff.contains(DiffView {
                kind: WorkflowSchemaDiffKind::InputTypeChanged,
                job_index: i as usize,
                job_name: definition.jobs@[i].runner_job_name@,
                field_name: Some(name),
                saved: Some(saved.kind.label()),
                current: Some(current.kind.label()),
                incompatible: breaks,
                message: "job-"@ + text::decimal((i + 1) as nat) + " input "@ + name
                    + " changed type from "@
                    + saved.kind.label() + " to "@ + current.kind.label(),
            })
            &&& breaks ==> schema_diff::status_of(diff) == WorkflowSchemaStatus::Incompatible
            &&& schema_diff::status_of(diff) != WorkflowSchemaStatus::Current
        }),
{
    let diff = schema_diff::workflow_diff(definition, snapshot, advertised);
    let (saved_job, job) = (snapshot[i], advertised[i]@[j]);
    let job_name = definition.jobs@[i].runner_job_name@;
    let bound = schema_diff::bound_input(definition, i as usize);
    let referenced = schema_diff::referenced_output(definition, i as usize);
    let (name, saved) = snapshot[i].inputs@[o];
    let current = advertised[i]@[j].inputs@[c].1;
    let breaks = saved.required || exists|b: int|
        0 <= b < definition.jobs@[i].inputs@.len() && (
        #[trigger] definition.jobs@[i].inputs@[b]).0 == name;
    let x = DiffView {
        kind: WorkflowSchemaDiffKind::InputTypeChanged,
        job_index: i as usize,
        job_name: definition.jobs@[i].runner_job_name@,
        field_name: Some(name),
        saved: Some(saved.kind.label()),
        current: Some(current.kind.label()),
        incompatible: breaks,
        message: "job-"@ + text::decimal((i + 1) as nat) + " input "@ + name
            + " changed type from "@
            + saved.kind.label() + " to "@ + current.kind.label(),
    };
    first_advertised(advertised[i]@, job_name, j);
    taken_is_referenced(definition, i, name);
    given_is_bound(definition, i, name);
    found_under_its_name(job.inputs@, name, c);
    let rule = schema_diff::changed_input(i as usize, job_name, job.inputs@, bound);
    let first = schema_diff::input_type_change(
        i as usize,
        job_name,
        name,
        saved,
        current,
        bound(name),
    );
    let second = schema_diff::input_requiredness_change(i as usize, job_name, name, saved, current);
    assert(first[0] == x);
    joined_contains(first, second, x);
    assert(rule(saved_job.inputs@[o]) == first + second);
    assert(rule(saved_job.inputs@[o]).contains(x));
    job_contains(i as usize, job_name, saved_job, job, bound, referenced, x);
    assert(schema_diff::workflow_job_diff(definition, snapshot, advertised, i).contains(x));
    job_difference_is_reported(definition, snapshot, advertised, i, x);
    reported_difference_shows(diff, x);
}

/// An output that is gone breaks the workflow exactly if it was required or
/// some job of the workflow takes it. Either way it is reported.
pub proof fn removed_output_is_reported(
    definition: WorkflowDefinition,
    snapshot: Seq<JobDefinitionResponse>,
    advertised: Seq<Vec<JobDefinitionResponse>>,
    i: int,
    j: int,
    o: int,
)
    requires
        0 <= i < definition.jobs@.len() <= usize::MAX,
        i < snapshot.len(),
        0 <= j < advertised[i]@.len(),
        advertised[i]@[j].name@ == definition.jobs@[i].runner_job_name@,
        forall|e: int|
            0 <= e < j ==> (#[trigger] advertised[i]@[e]).name@
                != definition.jobs@[i].runner_job_name@,
        0 <= o < snapshot[i].outputs@.len(),
        forall|c: int|
            0 <= c < advertised[i]@[j].outputs@.len() ==> (#[trigger] advertised[i]@[j].outputs@[c]).0
                != snapshot[i].outputs@[o].0,
    ensures
        ({
            let diff = schema_diff::workflow_diff(definition, snapshot, advertised);
            let (name, saved) = snapshot[i].outputs@[o];
            let breaks = saved.required || exists|d: int, b: int|
                0 <= d < definition.jobs@.len() && 0 <= b < definition.jobs@[d].inputs@.len()
                    && ((#[trigger] definition.jobs@[d].inputs@[b]).1 matches WorkflowInputBinding::JobOutput {
                    job_index,
                    output_name,
                } && job_index == i && output_name@ == name);
            &&& diff.contains(DiffView {
                kind: WorkflowSchemaDiffKind::OutputRemoved,
                job_index: i as usize,
                job_name: definition.jobs@[i].runner_job_name@,
                field_name: Some(name),
                saved: Some(saved.kind.label()),
                current: None,
                incompatible: breaks,
                message: "job-"@ + text::decimal((i + 1) as nat) + " output "@ + name
                    + " was removed"@,
            })
            &&& breaks ==> schema_diff::status_of(diff) == WorkflowSchemaStatus::Incompatible
            &&& schema_diff::status_of(diff) != WorkflowSchemaStatus::Current
        }),
{
    let diff = schema_diff::workflow_diff(definition, snapshot, advertised);
    let (saved_job, job) = (snapshot[i], advertised[i]@[j]);
    let job_name = definition.jobs@[i].runner_job_name@;
    let bound = schema_diff::bound_input(definition, i as usize);
    let referenced = schema_diff::referenced_output(definition, i as usize);
    let (name, saved) = snapshot[i].outputs@[o];
    let breaks = saved.required || exists|d: int, b: int|
        0 <= d < definition.jobs@.len() && 0 <= b < definition.jobs@[d].inputs@.len()
            && ((#[trigger] definition.jobs@[d].inputs@[b]).1 matches WorkflowInputBinding::JobOutput {
            job_index,
            output_name,
        } && job_index == i && output_name@ == name);
    let x = DiffView {
        kind: WorkflowSchemaDiffKind::OutputRemoved,
        job_index: i as usize,
        job_name: definition.jobs@[i].runner_job_name@,
        field_name: Some(name),
        saved: Some(saved.kind.label()),
        current: None,
        incompatible: breaks,
        message: "job-"@ + text::decimal((i + 1) as nat) + " output "@ + name
            + " was removed"@,
    };
    first_advertised(advertised[i]@, job_name, j);
    taken_is_referenced(definition, i, name);
    given_is_bound(definition, i, name);
    if names::has_name(job.outputs@, name) {
        let c = names::position_of(job.outputs@, name);
        assert(job.outputs@[c].0 == name);
    }
    let rule = schema_diff::changed_output(i as usize, job_name, job.outputs@, referenced);
    assert(rule(saved_job.outputs@[o])[0] == x);
    assert(rule(saved_job.outputs@[o]).contains(x));
    job_contains(i as usize, job_name, saved_job, job, bound, referenced, x);
    assert(schema_diff::workflow_job_diff(definition, snapshot, advertised, i).contains(x));
    job_difference_is_reported(definition, snapshot, advertised, i, x);
    reported_difference_shows(diff, x);
}

/// An input that is gone breaks the workflow exactly if it was required or the
/// workflow gives it. Either way it is reported.
pub proof fn removed_input_is_reported(
    definition: WorkflowDefinition,
    snapshot: Seq<JobDefinitionResponse>,
    advertised: Seq<Vec<JobDefinitionResponse>>,
    i: int,
    j: int,
    o: int,
)
    requires
        0 <= i < definition.jobs@.len() <= usize::MAX,
        i < snapshot.len(),
        0 <= j < advertised[i]@.len(),
        advertised[i]@[j].name@ == definition.jobs@[i].runner_job_name@,
        forall|e: int|
            0 <= e < j ==> (#[trigger] advertised[i]@[e]).name@
                != definition.jobs@[i].runner_job_name@,
        0 <= o < snapshot[i].inputs@.len(),
        forall|c: int|
            0 <= c < advertised[i]@[j].inputs@.len() ==> (#[trigger] advertised[i]@[j].inputs@[c]).0
                != snapshot[i].inputs@[o].0,
    ensures
        ({
            let diff = schema_diff::workflow_diff(definition, snapshot, advertised);
            let (name, saved) = snapshot[i].inputs@[o];
            let breaks = saved.required || exists|b: int|
                0 <= b < definition.jobs@[i].inputs@.len() && (
                #[trigger] definition.jobs@[i].inputs@[b]).0 == name;
            &&& diff.contains(DiffView {
                kind: WorkflowSchemaDiffKind::InputRemoved,
                job_index: i as usize,
                job_name: definition.jobs@[i].runner_job_name@,
                field_name: Some(name),
                saved: Some(saved.kind.label()),
                current: None,
                incompatible: breaks,
                message: "job-"@ + text::decimal((i + 1) as nat) + " input "@ + name
                    + " was removed"@,
            })
            &&& breaks ==> schema_diff::status_of(diff) == WorkflowSchemaStatus::Incompatible
            &&& schema_diff::status_of(diff) != WorkflowSchemaStatus::Current
        }),
{
    let diff = schema_diff::workflow_diff(definition, snapshot, advertised);
    let (saved_job, job) = (snapshot[i], advertised[i]@[j]);
    let job_name = definition.jobs@[i].runner_job_name@;
    let bound = schema_diff::bound_input(definition, i as usize);
    let referenced = schema_diff::referenced_output(definition, i as usize);
    let (name, saved) = snapshot[i].inputs@[o];
    let breaks = saved.required || exists|b: int|
        0 <= b < definition.jobs@[i].inputs@.len() && (
        #[trigger] definition.jobs@[i].inputs@[b]).0 == name;
    let x = DiffView {
        kind: WorkflowSchemaDiffKind::InputRemoved,
        job_index: i as usize,
        job_name: definition.jobs@[i].runner_job_name@,
        field_name: Some(name),
        saved: Some(saved.kind.label()),
        current: None,
        incompatible: breaks,
        message: "job-"@ + text::decimal((i + 1) as nat) + " input "@ + name
            + " was removed"@,
    };
    first_advertised(advertised[i]@, job_name, j);
    taken_is_referenced(definition, i, name);
    given_is_bound(definition, i, name);
    if names::has_name(job.inputs@, name) {
        let c = names::position_of(job.inputs@, name);
        assert(job.inputs@[c].0 == name);
    }
    let rule = schema_diff::changed_input(i as usize, job_name, job.inputs@, bound);
    assert(rule(saved_job.inputs@[o])[0] == x);
    assert(rule(saved_job.inputs@[o]).contains(x));
    job_contains(i as usize, job_name, saved_job, job, bound, referenced, x);
    assert(schema_diff::workflow_job_diff(definition, snapshot, advertised, i).contains(x));
    job_difference_is_reported(definition, snapshot, advertised, i, x);
    reported_difference_shows(diff, x);
}

/// An input that has to be given now and did not before breaks the workflow;
/// one that has not to be given any more is reported and breaks nothing.
pub proof fn changed_input_requiredness_is_reported(
    definition: WorkflowDefinition,
    snapshot: Seq<JobDefinitionResponse>,
    advertised: Seq<Vec<JobDefinitionResponse>>,
    i: int,
    j: int,
    o: int,
    c: int,
)
    requires
        0 <= i < definition.jobs@.len() <= usize::MAX,
        i < snapshot.len(),
        0 <= j < advertised[i]@.len(),
        advertised[i]@[j].name@ == definition.jobs@[i].runner_job_name@,
        forall|e: int|
            0 <= e < j ==> (#[trigger] advertised[i]@[e]).name@
                != definition.jobs@[i].runner_job_name@,
        0 <= c < advertised[i]@[j].inputs@.len(),
        0 <= o < snapshot[i].inputs@.len(),
        names::names_sorted(advertised[i]@[j].inputs@),
        advertised[i]@[j].inputs@[c].0 == snapshot[i].inputs@[o].0,
        advertised[i]@[j].inputs@[c].1.required != snapshot[i].inputs@[o].1.required,
    ensures
        ({
            let diff = schema_diff::workflow_diff(definition, snapshot, advertised);
            let (name, saved) = snapshot[i].inputs@[o];
            let current = advertised[i]@[j].inputs@[c].1;
            let breaks = current.required;
            &&& diff.contains(DiffView {
                kind: WorkflowSchemaDiffKind::InputRequirednessChanged,
                job_index: i as usize,
                job_name: definition.jobs@[i].runner_job_name@,
                field_name: Some(name),
                saved: Some(schema_diff::requiredness_label(saved.required)),
                current: Some(schema_diff::requiredness_label(current.required)),
                incompatible: breaks,
                message: "job-"@ + text::decimal((i + 1) as nat) + " input "@ + name
                    + " changed requiredness from "@
                    + schema_diff::requiredness_label(saved.required) + " to "@
                    + schema_diff::requiredness_label(current.required),
            })
            &&& breaks ==> schema_diff::status_of(diff) == WorkflowSchemaStatus::Incompatible
            &&& schema_diff::status_of(diff) != WorkflowSchemaStatus::Current
        }),
{
    let diff = schema_diff::workflow_diff(definition, snapshot, advertised);
    let (saved_job, job) = (snapshot[i], advertised[i]@[j]);
    let job_name = definition.jobs@[i].runner_job_name@;
    let bound = schema_diff::bound_input(definition, i as usize);
    let referenced = schema_diff::referenced_output(definition, i as usize);
    let (name, saved) = snapshot[i].inputs@[o];
    let current = advertised[i]@[j].inputs@[c].1;
    let breaks = current.required;
    let x = DiffView {
        kind: WorkflowSchemaDiffKind::InputRequirednessChanged,
        job_index: i as usize,
        job_name: definition.jobs@[i].runner_job_name@,
        field_name: Some(name),
        saved: Some(schema_diff::requiredness_label(saved.required)),
        current: Some(schema_diff::requiredness_label(current.required)),
        incompatible: breaks,
        message: "job-"@ + text::decimal((i + 1) as nat) + " input "@ + name
            + " changed requiredness from "@
            + schema_diff::requiredness_label(saved.required) + " to "@
            + schema_diff::requiredness_label(current.required),
    };
    first_advertised(advertised[i]@, job_name, j);
    taken_is_referenced(definition, i, name);
    given_is_bound(definition, i, name);
    found_under_its_name(job.inputs@, name, c);
    let rule = schema_diff::changed_input(i as usize, job_name, job.inputs@, bound);
    let first = schema_diff::input_type_change(
        i as usize,
        job_name,
        name,
        saved,
        current,
        bound(name),
    );
    let second = schema_diff::input_requiredness_change(i as usize, job_name, name, saved, current);
    assert(second[0] == x);
    joined_contains(first, second, x);
    assert(rule(saved_job.inputs@[o]) == first + second);
    assert(rule(saved_job.inputs@[o]).contains(x));
    job_contains(i as usize, job_name, saved_job, job, bound, referenced, x);
    assert(schema_diff::workflow_job_diff(definition, snapshot, advertised, i).contains(x));
    job_difference_is_reported(definition, snapshot, advertised, i, x);
    reported_difference_shows(diff, x);
}

/// An output that was sure to be left and is not any more breaks the workflow;
/// one that is sure to be left from now on is reported and breaks nothing.
pub proof fn changed_output_requiredness_is_reported(
    definition: WorkflowDefinition,
    snapshot: Seq<JobDefinitionResponse>,
    advertised: Seq<Vec<JobDefinitionResponse>>,
    i: int,
    j: int,
    o: int,
    c: int,
)
    requires
        0 <= i < definition.jobs@.len() <= usize::MAX,
        i < snapshot.len(),
        0 <= j < advertised[i]@.len(),
        advertised[i]@[j].name@ == definition.jobs@[i].runner_job_name@,
        forall|e: int|
            0 <= e < j ==> (#[trigger] advertised[i]@[e]).name@
                != definition.jobs@[i].runner_job_name@,
        0 <= c < advertised[i]@[j].outputs@.len(),
        0 <= o < snapshot[i].outputs@.len(),
        names::names_sorted(advertised[i]@[j].outputs@),
        advertised[i]@[j].outputs@[c].0 == snapshot[i].outputs@[o].0,
        advertised[i]@[j].outputs@[c].1.required != snapshot[i].outputs@[o].1.required,
    ensures
        ({
            let diff = schema_diff::workflow_diff(definition, snapshot, advertised);
            let (name, saved) = snapshot[i].outputs@[o];
            let current = advertised[i]@[j].outputs@[c].1;
            let breaks = saved.required;
            &&& diff.contains(DiffView {
                kind: WorkflowSchemaDiffKind::OutputRequirednessChanged,
                job_index: i as usize,
                job_name: definition.jobs@[i].runner_job_name@,
                field_name: Some(name),
                saved: Some(schema_diff::requiredness_label(saved.required)),
                current: Some(schema_diff::requiredness_label(current.required)),
                incompatible: breaks,
                message: "job-"@ + text::decimal((i + 1) as nat) + " output "@ + name
                    + " changed requiredness from "@
                    + schema_diff::requiredness_label(saved.required) + " to "@
                    + schema_diff::requiredness_label(current.required),
            })
            &&& breaks ==> schema_diff::status_of(diff) == WorkflowSchemaStatus::Incompatible
            &&& schema_diff::status_of(diff) != WorkflowSchemaStatus::Current
        }),
{
    let diff = schema_diff::workflow_diff(definition, snapshot, advertised);
    let (saved_job, job) = (snapshot[i], advertised[i]@[j]);
    let job_name = definition.jobs@[i].runner_job_name@;
    let bound = schema_diff::bound_input(definition, i as usize);
    let referenced = schema_diff::referenced_output(definition, i as usize);
    let (name, saved) = snapshot[i].outputs@[o];
    let current = advertised[i]@[j].outputs@[c].1;
    let breaks = saved.required;
    let x = DiffView {
        kind: WorkflowSchemaDiffKind::OutputRequirednessChanged,
        job_index: i as usize,
        job_name: definition.jobs@[i].runner_job_name@,
        field_name: Some(name),
        saved: Some(schema_diff::requiredness_label(saved.required)),
        current: Some(schema_diff::requiredness_label(current.required)),
        incompatible: breaks,
        message: "job-"@ + text::decimal((i + 1) as nat) + " output "@ + name
            + " changed requiredness from "@
            + schema_diff::requiredness_label(saved.required) + " to "@
            + schema_diff::requiredness_label(current.required),
    };
    first_advertised(advertised[i]@, job_name, j);
    taken_is_referenced(definition, i, name);
    given_is_bound(definition, i, name);
    found_under_its_name(job.outputs@, name, c);
    let rule = schema_diff::changed_output(i as usize, job_name, job.outputs@, referenced);
    let first = schema_diff::output_type_change(
        i as usize,
        job_name,
        name,
        saved,
        current,
        referenced(name),
    );
    let second = schema_diff::output_requiredness_change(i as usize, job_name, name, saved, current);
    assert(second[0] == x);
    joined_contains(first, second, x);
    assert(rule(saved_job.outputs@[o]) == first + second);
    assert(rule(saved_job.outputs@[o]).contains(x));
    job_contains(i as usize, job_name, saved_job, job, bound, referenced, x);
    assert(schema_diff::workflow_job_diff(definition, snapshot, advertised, i).contains(x));
    job_difference_is_reported(definition, snapshot, advertised, i, x);
    reported_difference_shows(diff, x);
}

/// A new input is reported, and breaks the workflow exactly if it has to be
/// given.
pub proof fn added_input_is_reported(
    definition: WorkflowDefinition,
    snapshot: Seq<JobDefinitionResponse>,
    advertised: Seq<Vec<JobDefinitionResponse>>,
    i: int,
    j: int,
    c: int,
)
    requires
        0 <= i < definition.jobs@.len() <= usize::MAX,
        i < snapshot.len(),
        0 <= j < advertised[i]@.len(),
        advertised[i]@[j].name@ == definition.jobs@[i].runner_job_name@,
        forall|e: int|
            0 <= e < j ==> (#[trigger] advertised[i]@[e]).name@
                != definition.jobs@[i].runner_job_name@,
        0 <= c < advertised[i]@[j].inputs@.len(),
        forall|o: int|
            0 <= o < snapshot[i].inputs@.len() ==> (#[trigger] snapshot[i].inputs@[o]).0
                != advertised[i]@[j].inputs@[c].0,
    ensures
        ({
            let diff = schema_diff::workflow_diff(definition, snapshot, advertised);
            let (name, current) = advertised[i]@[j].inputs@[c];
            let breaks = current.required;
            &&& diff.contains(DiffView {
                kind: WorkflowSchemaDiffKind::InputAdded,
                job_index: i as usize,
                job_name: definition.jobs@[i].runner_job_name@,
                field_name: Some(name),
                saved: None,
                current: Some(schema_diff::requiredness_label(current.required)),
                incompatible: breaks,
                message: "job-"@ + text::decimal((i + 1) as nat) + " input "@ + name
                    + if current.required {
                    " was added and is required"@
                } else {
                    " was added and is optional"@
                },
            })
            &&& breaks ==> schema_diff::status_of(diff) == WorkflowSchemaStatus::Incompatible
        }),
{
    let diff = schema_diff::workflow_diff(definition, snapshot, advertised);
    let (saved_job, job) = (snapshot[i], advertised[i]@[j]);
    let job_name = definition.jobs@[i].runner_job_name@;
    let bound = schema_diff::bound_input(definition, i as usize);
    let referenced = schema_diff::referenced_output(definition, i as usize);
    let (name, current) = advertised[i]@[j].inputs@[c];
    let breaks = current.required;
    let x = DiffView {
        kind: WorkflowSchemaDiffKind::InputAdded,
        job_index: i as usize,
        job_name: definition.jobs@[i].runner_job_name@,
        field_name: Some(name),
        saved: None,
        current: Some(schema_diff::requiredness_label(current.required)),
        incompatible: breaks,
        message: "job-"@ + text::decimal((i + 1) as nat) + " input "@ + name
            + if current.required {
            " was added and is required"@
        } else {
            " was added and is optional"@
        },
    };
    first_advertised(advertised[i]@, job_name, j);
    taken_is_referenced(definition, i, name);
    given_is_bound(definition, i, name);
    if names::has_name(saved_job.inputs@, name) {
        let o = names::position_of(saved_job.inputs@, name);
        assert(saved_job.inputs@[o].0 == name);
    }
    let rule = schema_diff::added_input(i as usize, job_name, saved_job.inputs@);
    assert(rule(job.inputs@[c])[0] == x);
    assert(rule(job.inputs@[c]).contains(x));
    job_contains(i as usize, job_name, saved_job, job, bound, referenced, x);
    assert(schema_diff::workflow_job_diff(definition, snapshot, advertised, i).contains(x));
    job_difference_is_reported(definition, snapshot, advertised, i, x);
    reported_difference_shows(diff, x);
}

/// A new output is reported and breaks nothing.
pub proof fn added_output_is_reported(
    definition: WorkflowDefinition,
    snapshot: Seq<JobDefinitionResponse>,
    advertised: Seq<Vec<JobDefinitionResponse>>,
    i: int,
    j: int,
    c: int,
)
    requires
        0 <= i < definition.jobs@.len() <= usize::MAX,
        i < snapshot.len(),
        0 <= j < advertised[i]@.len(),
        advertised[i]@[j].name@ == definition.jobs@[i].runner_job_name@,
        forall|e: int|
            0 <= e < j ==> (#[trigger] advertised[i]@[e]).name@
                != definition.jobs@[i].runner_job_name@,
        0 <= c < advertised[i]@[j].outputs@.len(),
        forall|o: int|
            0 <= o < snapshot[i].outputs@.len() ==> (#[trigger] snapshot[i].outputs@[o]).0
                != advertised[i]@[j].outputs@[c].0,
    ensures
        ({
            let diff = schema_diff::workflow_diff(definition, snapshot, advertised);
            let (name, current) = advertised[i]@[j].outputs@[c];
            let breaks = false;
            &&& diff.contains(DiffView {
                kind: WorkflowSchemaDiffKind::OutputAdded,
                job_index: i as usize,
                job_name: definition.jobs@[i].runner_job_name@,
                field_name: Some(name),
                saved: None,
                current: Some(
                    current.kind.label() + " "@ + schema_diff::requiredness_label(current.required),
                ),
                incompatible: breaks,
                message: "job-"@ + text::decimal((i + 1) as nat) + " output "@ + name
                    + " was added"@,
            })
            &&& breaks ==> schema_diff::status_of(diff) == WorkflowSchemaStatus::Incompatible
        }),
{
    let diff = schema_diff::workflow_diff(definition, snapshot, advertised);
    let (saved_job, job) = (snapshot[i], advertised[i]@[j]);
    let job_name = definition.jobs@[i].runner_job_name@;
    let bound = schema_diff::bound_input(definition, i as usize);
    let referenced = schema_diff::referenced_output(definition, i as usize);
    let (name, current) = advertised[i]@[j].outputs@[c];
    let breaks = false;
    let x = DiffView {
        kind: WorkflowSchemaDiffKind::OutputAdded,
        job_index: i as usize,
        job_name: definition.jobs@[i].runner_job_name@,
        field_name: Some(name),
        saved: None,
        current: Some(
            current.kind.label() + " "@ + schema_diff::requiredness_label(current.required),
        ),
        incompatible: breaks,
        message: "job-"@ + text::decimal((i + 1) as nat) + " output "@ + name
            + " was added"@,
    };
    first_advertised(advertised[i]@, job_name, j);
    taken_is_referenced(definition, i, name);
    given_is_bound(definition, i, name);
    if names::has_name(saved_job.outputs@, name) {
        let o = names::position_of(saved_job.outputs@, name);
        assert(saved_job.outputs@[o].0 == name);
    }
    let rule = schema_diff::added_output(i as usize, job_name, saved_job.outputs@);
    assert(rule(job.outputs@[c])[0] == x);
    assert(rule(job.outputs@[c]).contains(x));
    job_contains(i as usize, job_name, saved_job, job, bound, referenced, x);
    assert(schema_diff::workflow_job_diff(definition, snapshot, advertised, i).contains(x));
    job_difference_is_reported(definition, snapshot, advertised, i, x);
    reported_difference_shows(diff, x);
}

/// A job of the workflow without a saved schema is reported and breaks it.
pub proof fn unsaved_job_breaks(
    definition: WorkflowDefinition,
    snapshot: Seq<JobDefinitionResponse>,
    advertised: Seq<Vec<JobDefinitionResponse>>,
    i: int,
)
    requires
        snapshot.len() <= i < definition.jobs@.len() <= usize::MAX,
    ensures
        ({
            let diff = schema_diff::workflow_diff(definition, snapshot, advertised);
            &&& diff.contains(DiffView {
                kind: WorkflowSchemaDiffKind::JobRemoved,
                job_index: i as usize,
                job_name: definition.jobs@[i].runner_job_name@,
                field_name: None,
                saved: Some(definition.jobs@[i].runner_job_name@),
                current: None,
                incompatible: true,
                message: "job-"@ + text::decimal((i + 1) as nat) + " "@ + definition.jobs@[i].runner_job_name@
                    + " is missing from the saved schema snapshot"@,
            })
            &&& schema_diff::status_of(diff) == WorkflowSchemaStatus::Incompatible
        }),
{
    let diff = schema_diff::workflow_diff(definition, snapshot, advertised);
    let x = DiffView {
        kind: WorkflowSchemaDiffKind::JobRemoved,
        job_index: i as usize,
        job_name: definition.jobs@[i].runner_job_name@,
        field_name: None,
        saved: Some(definition.jobs@[i].runner_job_name@),
        current: None,
        incompatible: true,
        message: "job-"@ + text::decimal((i + 1) as nat) + " "@ + definition.jobs@[i].runner_job_name@
            + " is missing from the saved schema snapshot"@,
    };
    let here = schema_diff::workflow_job_diff(definition, snapshot, advertised, i);
    assert(here[0] == x);
    job_difference_is_reported(definition, snapshot, advertised, i, x);
    reported_difference_shows(diff, x);
}

/// A job that its runner does not advertise any more is reported and breaks the
/// workflow.
pub proof fn unadvertised_job_breaks(
    definition: WorkflowDefinition,
    snapshot: Seq<JobDefinitionResponse>,
    advertised: Seq<Vec<JobDefinitionResponse>>,
    i: int,
)
    requires
        0 <= i < definition.jobs@.len() <= usize::MAX,
        i < snapshot.len(),
        forall|e: int|
            0 <= e < advertised[i]@.len() ==> (#[trigger] advertised[i]@[e]).name@
                != definition.jobs@[i].runner_job_name@,
    ensures
        ({
            let diff = schema_diff::workflow_diff(definition, snapshot, advertised);
            &&& diff.contains(DiffView {
                kind: WorkflowSchemaDiffKind::JobRemoved,
                job_index: i as usize,
                job_name: definition.jobs@[i].runner_job_name@,
                field_name: None,
                saved: Some(snapshot[i].name@),
                current: None,
                incompatible: true,
                message: "job-"@ + text::decimal((i + 1) as nat) + " "@ + definition.jobs@[i].runner_job_name@
                    + " is no longer advertised by its runner"@,
            })
            &&& schema_diff::status_of(diff) == WorkflowSchemaStatus::Incompatible
        }),
{
    let diff = schema_diff::workflow_diff(definition, snapshot, advertised);
    let x = DiffView {
        kind: WorkflowSchemaDiffKind::JobRemoved,
        job_index: i as usize,
        job_name: definition.jobs@[i].runner_job_name@,
        field_name: None,
        saved: Some(snapshot[i].name@),
        current: None,
        incompatible: true,
        message: "job-"@ + text::decimal((i + 1) as nat) + " "@ + definition.jobs@[i].runner_job_name@
            + " is no longer advertised by its runner"@,
    };
    never_advertised(advertised[i]@, definition.jobs@[i].runner_job_name@);
    let here = schema_diff::workflow_job_diff(definition, snapshot, advertised, i);
    assert(here[0] == x);
    job_difference_is_reported(definition, snapshot, advertised, i, x);
    reported_difference_shows(diff, x);
}

/// A saved schema of a job that the workflow does not have is reported and
/// breaks the workflow.
pub proof fn surplus_saved_job_breaks(
    definition: WorkflowDefinition,
    snapshot: Seq<JobDefinitionResponse>,
    advertised: Seq<Vec<JobDefinitionResponse>>,
    i: int,
)
    requires
        definition.jobs@.len() <= i < snapshot.len() <= usize::MAX,
    ensures
        ({
            let diff = schema_diff::workflow_diff(definition, snapshot, advertised);
            &&& diff.contains(DiffView {
                kind: WorkflowSchemaDiffKind::JobRemoved,
                job_index: i as usize,
                job_name: snapshot[i].name@,
                field_name: None,
                saved: Some(snapshot[i].name@),
                current: None,
                incompatible: true,
                message: "job-"@ + text::decimal((i + 1) as nat) + " "@ + snapshot[i].name@
                    + " exists in the saved schema snapshot but not in the workflow definition"@,
            })
            &&& schema_diff::status_of(diff) == WorkflowSchemaStatus::Incompatible
        }),
{
    let diff = schema_diff::workflow_diff(definition, snapshot, advertised);
    let x = DiffView {
        kind: WorkflowSchemaDiffKind::JobRemoved,
        job_index: i as usize,
        job_name: snapshot[i].name@,
        field_name: None,
        saved: Some(snapshot[i].name@),
        current: None,
        incompatible: true,
        message: "job-"@ + text::decimal((i + 1) as nat) + " "@ + snapshot[i].name@
            + " exists in the saved schema snapshot but not in the workflow definition"@,
    };
    let n = definition.jobs@.len();
    extras_contain(snapshot, n, snapshot.len(), x);
    assert(x == schema_diff::removed_job(
        i as usize,
        snapshot[i].name@,
        snapshot[i].name@,
        " exists in the saved schema snapshot but not in the workflow definition"@,
    ));
    joined_contains(
        schema_diff::jobs_diff(definition, snapshot, advertised, n),
        schema_diff::extra_jobs(snapshot, n, snapshot.len()),
        x,
    );
    reported_difference_shows(diff, x);
}

proof fn advertised_job_is_first(advertised: Seq<JobDefinitionResponse>, name: Seq<char>) -> (j: int)
    requires
        schema_diff::advertised_job(advertised, name) is Some,
    ensures
        0 <= j < advertised.len(),
        advertised[j].name@ == name,
        forall|e: int| 0 <= e < j ==> (#[trigger] advertised[e]).name@ != name,
        schema_diff::advertised_job(advertised, name) == Some(advertised[j]),
    decreases advertised.len(),
{
    if advertised[0].name@ == name {
        0
    } else {
        let rest = advertised.drop_first();
        let k = advertised_job_is_first(rest, name);
        assert forall|e: int| 0 <= e < k + 1 implies (#[trigger] advertised[e]).name@ != name by {
            if e > 0 {
                assert(advertised[e] == rest[e - 1]);
            }
        }
        k + 1
    }
}

proof fn absent_job_is_not_advertised(advertised: Seq<JobDefinitionResponse>, name: Seq<char>)
    requires
        schema_diff::advertised_job(advertised, name) is None,
    ensures
        forall|e: int| 0 <= e < advertised.len() ==> (#[trigger] advertised[e]).name@ != name,
    decreases advertised.len(),
{
    if advertised.len() > 0 {
        let rest = advertised.drop_first();
        absent_job_is_not_advertised(rest, name);
        assert forall|e: int| 0 <= e < advertised.len() implies (#[trigger] advertised[e]).name@
            != name by {
            if e > 0 {
                assert(advertised[e] == rest[e - 1]);
            }
        }
    }
}

proof fn field_of_difference(
    definition: WorkflowDefinition,
    i: int,
    name: Seq<char>,
    saved: JobDefinitionResponse,
    current: JobDefinitionResponse,
    x: DiffView,
) -> (f: int)
    requires
        0 <= i < definition.jobs@.len() <= usize::MAX,
        schema_diff::job_diff(
            i as usize,
            name,
            saved,
            current,
            schema_diff::bound_input(definition, i as usize),
            schema_diff::referenced_output(definition, i as usize),
        ).contains(x),
    ensures
        x.job_index == i,
        x.job_name == name,
        match x.kind {
            WorkflowSchemaDiffKind::JobRemoved => false,
            WorkflowSchemaDiffKind::InputAdded => {
                &&& 0 <= f < current.inputs@.len()
                &&& x.field_name == Some(current.inputs@[f].0)
                &&& x.incompatible == current.inputs@[f].1.required
                &&& forall|o: int|
                    0 <= o < saved.inputs@.len() ==> (#[trigger] saved.inputs@[o]).0
                        != current.inputs@[f].0
            },
            WorkflowSchemaDiffKind::InputRemoved => {
                &&& 0 <= f < saved.inputs@.len()
                &&& x.field_name == Some(saved.inputs@[f].0)
                &&& x.incompatible == (saved.inputs@[f].1.required || exists|b: int|
                    0 <= b < definition.jobs@[i].inputs@.len() && (
                        #[trigger] definition.jobs@[i].inputs@[b]).0 == saved.inputs@[f].0)
                &&& forall|c: int|
                    0 <= c < current.inputs@.len() ==> (#[trigger] current.inputs@[c]).0
                        != saved.inputs@[f].0
            },
            WorkflowSchemaDiffKind::InputTypeChanged => {
                &&& 0 <= f < saved.inputs@.len()
                &&& x.field_name == Some(saved.inputs@[f].0)
                &&& x.incompatible == (saved.inputs@[f].1.required || exists|b: int|
                    0 <= b < definition.jobs@[i].inputs@.len() && (
                        #[trigger] definition.jobs@[i].inputs@[b]).0 == saved.inputs@[f].0)
                &&& exists|c: int|
                    0 <= c < current.inputs@.len() && (#[trigger] current.inputs@[c]).0
                        == saved.inputs@[f].0 && current.inputs@[c].1.kind
                        != saved.inputs@[f].1.kind
            },
            WorkflowSchemaDiffKind::InputRequirednessChanged => {
                &&& 0 <= f < saved.inputs@.len()
                &&& x.field_name == Some(saved.inputs@[f].0)
                &&& x.incompatible == !saved.inputs@[f].1.required
                &&& exists|c: int|
                    0 <= c < current.inputs@.len() && (#[trigger] current.inputs@[c]).0
                        == saved.inputs@[f].0 && current.inputs@[c].1.required
                        != saved.inputs@[f].1.required
            },
            WorkflowSchemaDiffKind::OutputAdded => {
                &&& 0 <= f < current.outputs@.len()
                &&& x.field_name == Some(current.outputs@[f].0)
                &&& x.incompatible == false
                &&& forall|o: int|
                    0 <= o < saved.outputs@.len() ==> (#[trigger] saved.outputs@[o]).0
                        != current.outputs@[f].0
            },
            WorkflowSchemaDiffKind::OutputRemoved => {
                &&& 0 <= f < saved.outputs@.len()
                &&& x.field_name == Some(saved.outputs@[f].0)
                &&& x.incompatible == (saved.outputs@[f].1.required || exists|d: int, b: int|
                    0 <= d < definition.jobs@.len() && 0 <= b < definition.jobs@[d].inputs@.len()
                        && ((#[trigger] definition.jobs@[d].inputs@[b]).1 matches
                        WorkflowInputBinding::JobOutput { job_index, output_name } && job_index == i
                        && output_name@ == saved.outputs@[f].0))
                &&& forall|c: int|
                    0 <= c < current.outputs@.len() ==> (#[trigger] current.outputs@[c]).0
                        != saved.outputs@[f].0
            },
            WorkflowSchemaDiffKind::OutputTypeChanged => {
                &&& 0 <= f < saved.outputs@.len()
                &&& x.field_name == Some(saved.outputs@[f].0)
                &&& x.incompatible == (saved.outputs@[f].1.required || exists|d: int, b: int|
                    0 <= d < definition.jobs@.len() && 0 <= b < definition.jobs@[d].inputs@.len()
                        && ((#[trigger] definition.jobs@[d].inputs@[b]).1 matches
                        WorkflowInputBinding::JobOutput { job_index, output_name } && job_index == i
                        && output_name@ == saved.outputs@[f].0))
                &&& exists|c: int|
                    0 <= c < current.outputs@.len() && (#[trigger] current.outputs@[c]).0
                        == saved.outputs@[f].0 && current.outputs@[c].1.kind
                        != saved.outputs@[f].1.kind
            },
            WorkflowSchemaDiffKind::OutputRequirednessChanged => {
                &&& 0 <= f < saved.outputs@.len()
                &&& x.field_name == Some(saved.outputs@[f].0)
                &&& x.incompatible == saved.outputs@[f].1.required
                &&& exists|c: int|
                    0 <= c < current.outputs@.len() && (#[trigger] current.outputs@[c]).0
                        == saved.outputs@[f].0 && current.outputs@[c].1.required
                        != saved.outputs@[f].1.required
            },
        },
{
    let bound = schema_diff::bound_input(definition, i as usize);
    let referenced = schema_diff::referenced_output(definition, i as usize);
    job_contains(i as usize, name, saved, current, bound, referenced, x);
    let a = schema_diff::added_input(i as usize, name, saved.inputs@);
    let b = schema_diff::changed_input(i as usize, name, current.inputs@, bound);
    let c = schema_diff::added_output(i as usize, name, saved.outputs@);
    let d = schema_diff::changed_output(i as usize, name, current.outputs@, referenced);
    if exists|k: int| 0 <= k < current.inputs@.len() && a(#[trigger] current.inputs@[k]).contains(x) {
        let k = choose|k: int|
            0 <= k < current.inputs@.len() && a(#[trigger] current.inputs@[k]).contains(x);
        assert forall|o: int| 0 <= o < saved.inputs@.len() implies (#[trigger] saved.inputs@[o]).0
            != current.inputs@[k].0 by {
            assert(!names::has_name(saved.inputs@, current.inputs@[k].0));
        }
        k
    } else if exists|k: int|
        0 <= k < saved.inputs@.len() && b(#[trigger] saved.inputs@[k]).contains(x) {
        let k = choose|k: int|
            0 <= k < saved.inputs@.len() && b(#[trigger] saved.inputs@[k]).contains(x);
        let field = saved.inputs@[k].0;
        given_is_bound(definition, i, field);
        if names::has_name(current.inputs@, field) {
            let e = names::position_of(current.inputs@, field);
            assert(current.inputs@[e].0 == field);
            joined_contains(
                schema_diff::input_type_change(
                    i as usize,
                    name,
                    field,
                    saved.inputs@[k].1,
                    current.inputs@[e].1,
                    bound(field),
                ),
                schema_diff::input_requiredness_change(
                    i as usize,
                    name,
                    field,
                    saved.inputs@[k].1,
                    current.inputs@[e].1,
                ),
                x,
            );
        }
        k
    } else if exists|k: int|
        0 <= k < current.outputs@.len() && c(#[trigger] current.outputs@[k]).contains(x) {
        let k = choose|k: int|
            0 <= k < current.outputs@.len() && c(#[trigger] current.outputs@[k]).contains(x);
        assert forall|o: int| 0 <= o < saved.outputs@.len() implies (#[trigger] saved.outputs@[o]).0
            != current.outputs@[k].0 by {
            assert(!names::has_name(saved.outputs@, current.outputs@[k].0));
        }
        k
    } else {
        let k = choose|k: int|
            0 <= k < saved.outputs@.len() && d(#[trigger] saved.outputs@[k]).contains(x);
        let field = saved.outputs@[k].0;
        taken_is_referenced(definition, i, field);
        if names::has_name(current.outputs@, field) {
            let e = names::position_of(current.outputs@, field);
            assert(current.outputs@[e].0 == field);
            joined_contains(
                schema_diff::output_type_change(
                    i as usize,
                    name,
                    field,
                    saved.outputs@[k].1,
                    current.outputs@[e].1,
                    referenced(field),
                ),
                schema_diff::output_requiredness_change(
                    i as usize,
                    name,
                    field,
                    saved.outputs@[k].1,
                    current.outputs@[e].1,
                ),
                x,
            );
        }
        k
    }
}

/// Nothing is reported without a cause: of every difference in a report, this
/// gives the job it is about, the job that is advertised in its place, and the
/// input or output, and says what became of it.
pub proof fn every_difference_has_a_cause(
    definition: WorkflowDefinition,
    snapshot: Seq<JobDefinitionResponse>,
    advertised: Seq<Vec<JobDefinitionResponse>>,
    w: int,
) -> (at: (int, int, int))
    requires
        definition.jobs@.len() <= usize::MAX,
        snapshot.len() <= usize::MAX,
        0 <= w < schema_diff::workflow_diff(definition, snapshot, advertised).len(),
    ensures
        ({
            let x = schema_diff::workflow_diff(definition, snapshot, advertised)[w];
            let (i, j, f) = at;
            let name = definition.jobs@[i].runner_job_name@;
            &&& x.job_index == i
            &&& 0 <= i < definition.jobs@.len() || 0 <= i < snapshot.len()
            &&& if x.kind is JobRemoved {
                &&& x.incompatible
                &&& i >= snapshot.len() || i >= definition.jobs@.len() || forall|e: int|
                    0 <= e < advertised[i]@.len() ==> (#[trigger] advertised[i]@[e]).name@ != name
            } else {
                let (saved, current) = (snapshot[i], advertised[i]@[j]);
                &&& i < definition.jobs@.len()
                &&& i < snapshot.len()
                &&& x.job_name == name
                &&& 0 <= j < advertised[i]@.len()
                &&& current.name@ == name
                &&& forall|e: int| 0 <= e < j ==> (#[trigger] advertised[i]@[e]).name@ != name
                &&& match x.kind {
                    WorkflowSchemaDiffKind::JobRemoved => false,
                    WorkflowSchemaDiffKind::InputAdded => {
                        &&& 0 <= f < current.inputs@.len()
                        &&& x.field_name == Some(current.inputs@[f].0)
                        &&& x.incompatible == current.inputs@[f].1.required
                        &&& forall|o: int|
                            0 <= o < saved.inputs@.len() ==> (#[trigger] saved.inputs@[o]).0
                                != current.inputs@[f].0
                    },
                    WorkflowSchemaDiffKind::InputRemoved => {
                        &&& 0 <= f < saved.inputs@.len()
                        &&& x.field_name == Some(saved.inputs@[f].0)
                        &&& x.incompatible == (saved.inputs@[f].1.required || exists|b: int|
                            0 <= b < definition.jobs@[i].inputs@.len() && (
                                #[trigger] definition.jobs@[i].inputs@[b]).0 == saved.inputs@[f].0)
                        &&& forall|c: int|
                            0 <= c < current.inputs@.len() ==> (#[trigger] current.inputs@[c]).0
                                != saved.inputs@[f].0
                    },
                    WorkflowSchemaDiffKind::InputTypeChanged => {
                        &&& 0 <= f < saved.inputs@.len()
                        &&& x.field_name == Some(saved.inputs@[f].0)
                        &&& x.incompatible == (saved.inputs@[f].1.required || exists|b: int|
                            0 <= b < definition.jobs@[i].inputs@.len() && (
                                #[trigger] definition.jobs@[i].inputs@[b]).0 == saved.inputs@[f].0)
                        &&& exists|c: int|
                            0 <= c < current.inputs@.len() && (#[trigger] current.inputs@[c]).0
                                == saved.inputs@[f].0 && current.inputs@[c].1.kind
                                != saved.inputs@[f].1.kind
                    },
                    WorkflowSchemaDiffKind::InputRequirednessChanged => {
                        &&& 0 <= f < saved.inputs@.len()
                        &&& x.field_name == Some(saved.inputs@[f].0)
                        &&& x.incompatible == !saved.inputs@[f].1.required
                        &&& exists|c: int|
                            0 <= c < current.inputs@.len() && (#[trigger] current.inputs@[c]).0
                                == saved.inputs@[f].0 && current.inputs@[c].1.required
                                != saved.inputs@[f].1.required
                    },
                    WorkflowSchemaDiffKind::OutputAdded => {
                        &&& 0 <= f < current.outputs@.len()
                        &&& x.field_name == Some(current.outputs@[f].0)
                        &&& x.incompatible == false
                        &&& forall|o: int|
                            0 <= o < saved.outputs@.len() ==> (#[trigger] saved.outputs@[o]).0
                                != current.outputs@[f].0
                    },
                    WorkflowSchemaDiffKind::OutputRemoved => {
                        &&& 0 <= f < saved.outputs@.len()
                        &&& x.field_name == Some(saved.outputs@[f].0)
                        &&& x.incompatible == (saved.outputs@[f].1.required || exists|d: int, b: int|
                            0 <= d < definition.jobs@.len() && 0 <= b < definition.jobs@[d].inputs@.len()
                                && ((#[trigger] definition.jobs@[d].inputs@[b]).1 matches
                                WorkflowInputBinding::JobOutput { job_index, output_name } && job_index == i
                                && output_name@ == saved.outputs@[f].0))
                        &&& forall|c: int|
                            0 <= c < current.outputs@.len() ==> (#[trigger] current.outputs@[c]).0
                                != saved.outputs@[f].0
                    },
                    WorkflowSchemaDiffKind::OutputTypeChanged => {
                        &&& 0 <= f < saved.outputs@.len()
                        &&& x.field_name == Some(saved.outputs@[f].0)
                        &&& x.incompatible == (saved.outputs@[f].1.required || exists|d: int, b: int|
                            0 <= d < definition.jobs@.len() && 0 <= b < definition.jobs@[d].inputs@.len()
                                && ((#[trigger] definition.jobs@[d].inputs@[b]).1 matches
                                WorkflowInputBinding::JobOutput { job_index, output_name } && job_index == i
                                && output_name@ == saved.outputs@[f].0))
                        &&& exists|c: int|
                            0 <= c < current.outputs@.len() && (#[trigger] current.outputs@[c]).0
                                == saved.outputs@[f].0 && current.outputs@[c].1.kind
                                != saved.outputs@[f].1.kind
                    },
                    WorkflowSchemaDiffKind::OutputRequirednessChanged => {
                        &&& 0 <= f < saved.outputs@.len()
                        &&& x.field_name == Some(saved.outputs@[f].0)
                        &&& x.incompatible == saved.outputs@[f].1.required
                        &&& exists|c: int|
                            0 <= c < current.outputs@.len() && (#[trigger] current.outputs@[c]).0
                                == saved.outputs@[f].0 && current.outputs@[c].1.required
                                != saved.outputs@[f].1.required
                    },
                }
            }
        }),
{
    let n = definition.jobs@.len();
    let diff = schema_diff::workflow_diff(definition, snapshot, advertised);
    let x = diff[w];
    assert(diff.contains(x));
    joined_contains(
        schema_diff::jobs_diff(definition, snapshot, advertised, n),
        schema_diff::extra_jobs(snapshot, n, snapshot.len()),
        x,
    );
    jobs_contain(definition, snapshot, advertised, n, x);
    extras_contain(snapshot, n, snapshot.len(), x);
    if !schema_diff::jobs_diff(definition, snapshot, advertised, n).contains(x) {
        let k = choose|k: int|
            n <= k < snapshot.len() && x == #[trigger] schema_diff::removed_job(
                k as usize,
                snapshot[k].name@,
                snapshot[k].name@,
                " exists in the saved schema snapshot but not in the workflow definition"@,
            );
        (k, 0, 0)
    } else {
        let i = choose|i: int|
            0 <= i < n && (#[trigger] schema_diff::workflow_job_diff(
                definition,
                snapshot,
                advertised,
                i,
            )).contains(x);
        let name = definition.jobs@[i].runner_job_name@;
        if i >= snapshot.len() {
            (i, 0, 0)
        } else if schema_diff::advertised_job(advertised[i]@, name) is None {
            absent_job_is_not_advertised(advertised[i]@, name);
            (i, 0, 0)
        } else {
            let j = advertised_job_is_first(advertised[i]@, name);
            let f = field_of_difference(definition, i, name, snapshot[i], advertised[i]@[j], x);
            (i, j, f)
        }
    }
}

/// A workflow is incompatible exactly if some reported difference breaks it, and
/// current exactly if all that is reported are additions that break nothing.
pub proof fn the_worst_difference_decides(
    definition: WorkflowDefinition,
    snapshot: Seq<JobDefinitionResponse>,
    advertised: Seq<Vec<JobDefinitionResponse>>,
)
    ensures
        ({
            let diff = schema_diff::workflow_diff(definition, snapshot, advertised);
            let status = schema_diff::status_of(diff);
            &&& (status == WorkflowSchemaStatus::Incompatible) == exists|w: int|
                0 <= w < diff.len() && (#[trigger] diff[w]).incompatible
            &&& (status == WorkflowSchemaStatus::Current) == forall|w: int|
                0 <= w < diff.len() ==> !(#[trigger] diff[w]).incompatible && (
                diff[w].kind is InputAdded || diff[w].kind is OutputAdded)
        }),
{
    let diff = schema_diff::workflow_diff(definition, snapshot, advertised);
    if schema_diff::status_of(diff) == WorkflowSchemaStatus::Current {
        assert forall|w: int| 0 <= w < diff.len() implies !(#[trigger] diff[w]).incompatible && (
        diff[w].kind is InputAdded || diff[w].kind is OutputAdded) by {
            assert(!diff[w].stale());
        }
    }
}

/// Where a difference of this kind stands in the report on its job.
pub open spec fn turn(kind: WorkflowSchemaDiffKind) -> int {
    match kind {
        WorkflowSchemaDiffKind::JobRemoved | WorkflowSchemaDiffKind::InputAdded => 0,
        WorkflowSchemaDiffKind::InputRemoved | WorkflowSchemaDiffKind::InputTypeChanged
        | WorkflowSchemaDiffKind::InputRequirednessChanged => 1,
        WorkflowSchemaDiffKind::OutputAdded => 2,
        WorkflowSchemaDiffKind::OutputRemoved | WorkflowSchemaDiffKind::OutputTypeChanged
        | WorkflowSchemaDiffKind::OutputRequirednessChanged => 3,
    }
}

/// Of two differences the first stands before the second: it is about an earlier
/// job, or of an earlier kind, or about a field whose name comes first, or about
/// the type of a field whose requiredness changed too.
pub open spec fn before(x: DiffView, y: DiffView) -> bool {
    ||| x.job_index < y.job_index
    ||| x.job_index == y.job_index && turn(x.kind) < turn(y.kind)
    ||| {
        &&& x.job_index == y.job_index && turn(x.kind) == turn(y.kind)
        &&& x.field_name is Some && y.field_name is Some
        &&& {
            ||| text::text_lt(x.field_name->0, y.field_name->0)
            ||| {
                &&& x.field_name == y.field_name
                &&& x.kind is InputTypeChanged && y.kind is InputRequirednessChanged || x.kind
                    is OutputTypeChanged && y.kind is OutputRequirednessChanged
            }
        }
    }
}

proof fn collected_in_order<T>(
    s: Seq<(Seq<char>, T)>,
    f: spec_fn((Seq<char>, T)) -> Seq<DiffView>,
    job_index: usize,
    rank: int,
)
    requires
        names::names_sorted(s),
        forall|i: int, k: int|
            0 <= i < s.len() && 0 <= k < f(#[trigger] s[i]).len() ==> (#[trigger] f(
                s[i],
            )[k]).job_index == job_index && turn(f(s[i])[k].kind) == rank && f(s[i])[k].field_name
                == Some(s[i].0),
        forall|i: int, k: int, l: int|
            0 <= i < s.len() && 0 <= k < l < f(s[i]).len() ==> before(
                #[trigger] f(s[i])[k],
                #[trigger] f(s[i])[l],
            ),
    ensures
        ({
            let all = schema_diff::collected(s, f);
            &&& forall|w: int|
                0 <= w < all.len() ==> (#[trigger] all[w]).job_index == job_index && turn(
                    all[w].kind,
                ) == rank && exists|i: int|
                    0 <= i < s.len() && all[w].field_name == Some((#[trigger] s[i]).0)
            &&& forall|v: int, w: int|
                0 <= v < w < all.len() ==> before(#[trigger] all[v], #[trigger] all[w])
        }),
    decreases s.len(),
{
    if s.len() > 0 {
        let rest = s.drop_last();
        let last = s.len() - 1;
        assert forall|i: int, j: int| 0 <= i < j < rest.len() implies #[trigger] text::text_lt(
            rest[i].0,
            rest[j].0,
        ) by {
            assert(text::text_lt(s[i].0, s[j].0));
        }
        assert forall|i: int| 0 <= i < rest.len() implies #[trigger] rest[i] == s[i] by {}
        collected_in_order(rest, f, job_index, rank);
        let front = schema_diff::collected(rest, f);
        let back = f(s[last]);
        let all = schema_diff::collected(s, f);
        assert(all == front + back);
        assert forall|w: int| 0 <= w < all.len() implies (#[trigger] all[w]).job_index == job_index
            && turn(all[w].kind) == rank && exists|i: int|
            0 <= i < s.len() && all[w].field_name == Some((#[trigger] s[i]).0) by {
            if w < front.len() {
                assert(all[w] == front[w]);
                let i = choose|i: int|
                    0 <= i < rest.len() && front[w].field_name == Some((#[trigger] rest[i]).0);
                assert(all[w].field_name == Some(s[i].0));
            } else {
                assert(all[w] == f(s[last])[w - front.len()]);
                assert(all[w].field_name == Some(s[last].0));
            }
        }
        assert forall|v: int, w: int| 0 <= v < w < all.len() implies before(
            #[trigger] all[v],
            #[trigger] all[w],
        ) by {
            if w < front.len() {
                assert(all[v] == front[v] && all[w] == front[w]);
            } else if v < front.len() {
                assert(all[v] == front[v]);
                assert(all[w] == f(s[last])[w - front.len()]);
                let i = choose|i: int|
                    0 <= i < rest.len() && front[v].field_name == Some((#[trigger] rest[i]).0);
                assert(text::text_lt(s[i].0, s[last].0));
            } else {
                assert(all[v] == f(s[last])[v - front.len()]);
                assert(all[w] == f(s[last])[w - front.len()]);
            }
        }
    }
}

proof fn joined_in_order(a: Seq<DiffView>, b: Seq<DiffView>)
    requires
        forall|v: int, w: int| 0 <= v < w < a.len() ==> before(#[trigger] a[v], #[trigger] a[w]),
        forall|v: int, w: int| 0 <= v < w < b.len() ==> before(#[trigger] b[v], #[trigger] b[w]),
        forall|v: int, w: int|
            0 <= v < a.len() && 0 <= w < b.len() ==> before(#[trigger] a[v], #[trigger] b[w]),
    ensures
        forall|v: int, w: int|
            0 <= v < w < (a + b).len() ==> before(#[trigger] (a + b)[v], #[trigger] (a + b)[w]),
{
    let c = a + b;
    assert forall|v: int, w: int| 0 <= v < w < c.len() implies before(
        #[trigger] c[v],
        #[trigger] c[w],
    ) by {
        if w < a.len() {
            assert(c[v] == a[v] && c[w] == a[w]);
        } else if v < a.len() {
            assert(c[v] == a[v] && c[w] == b[w - a.len()]);
        } else {
            assert(c[v] == b[v - a.len()] && c[w] == b[w - a.len()]);
        }
    }
}

proof fn job_in_order(
    job_index: usize,
    job_name: Seq<char>,
    saved: JobDefinitionResponse,
    current: JobDefinitionResponse,
    bound: spec_fn(Seq<char>) -> bool,
    referenced: spec_fn(Seq<char>) -> bool,
)
    requires
        names::names_sorted(saved.inputs@),
        names::names_sorted(saved.outputs@),
        names::names_sorted(current.inputs@),
        names::names_sorted(current.outputs@),
    ensures
        ({
            let diff = schema_diff::job_diff(
                job_index,
                job_name,
                saved,
                current,
                bound,
                referenced,
            );
            &&& forall|w: int| 0 <= w < diff.len() ==> (#[trigger] diff[w]).job_index == job_index
            &&& forall|v: int, w: int|
                0 <= v < w < diff.len() ==> before(#[trigger] diff[v], #[trigger] diff[w])
        }),
{
    let a = schema_diff::added_input(job_index, job_name, saved.inputs@);
    let b = schema_diff::changed_input(job_index, job_name, current.inputs@, bound);
    let c = schema_diff::added_output(job_index, job_name, saved.outputs@);
    let d = schema_diff::changed_output(job_index, job_name, current.outputs@, referenced);
    collected_in_order(current.inputs@, a, job_index, 0);
    collected_in_order(saved.inputs@, b, job_index, 1);
    collected_in_order(current.outputs@, c, job_index, 2);
    collected_in_order(saved.outputs@, d, job_index, 3);
    let sa = schema_diff::collected(current.inputs@, a);
    let sb = schema_diff::collected(saved.inputs@, b);
    let sc = schema_diff::collected(current.outputs@, c);
    let sd = schema_diff::collected(saved.outputs@, d);
    joined_in_order(sa, sb);
    assert forall|w: int| 0 <= w < (sa + sb).len() implies (#[trigger] (sa + sb)[w]).job_index
        == job_index && turn((sa + sb)[w].kind) <= 1 by {
        if w < sa.len() {
            assert((sa + sb)[w] == sa[w]);
        } else {
            assert((sa + sb)[w] == sb[w - sa.len()]);
        }
    }
    joined_in_order(sa + sb, sc);
    assert forall|w: int| 0 <= w < (sa + sb + sc).len() implies (#[trigger] (sa + sb
        + sc)[w]).job_index == job_index && turn((sa + sb + sc)[w].kind) <= 2 by {
        if w < (sa + sb).len() {
            assert((sa + sb + sc)[w] == (sa + sb)[w]);
        } else {
            assert((sa + sb + sc)[w] == sc[w - (sa + sb).len()]);
        }
    }
    joined_in_order(sa + sb + sc, sd);
    let diff = sa + sb + sc + sd;
    assert forall|w: int| 0 <= w < diff.len() implies (#[trigger] diff[w]).job_index
        == job_index by {
        if w < (sa + sb + sc).len() {
            assert(diff[w] == (sa + sb + sc)[w]);
        } else {
            assert(diff[w] == sd[w - (sa + sb + sc).len()]);
        }
    }
}

proof fn jobs_in_order(
    definition: WorkflowDefinition,
    snapshot: Seq<JobDefinitionResponse>,
    advertised: Seq<Vec<JobDefinitionResponse>>,
    n: nat,
)
    requires
        n <= definition.jobs@.len() <= usize::MAX,
        forall|i: int|
            0 <= i < snapshot.len() ==> names::names_sorted((#[trigger] snapshot[i]).inputs@)
                && names::names_sorted(snapshot[i].outputs@),
        forall|i: int, j: int|
            0 <= i < n && 0 <= j < advertised[i]@.len() ==> names::names_sorted(
                (#[trigger] advertised[i]@[j]).inputs@,
            ) && names::names_sorted(advertised[i]@[j].outputs@),
    ensures
        ({
            let diff = schema_diff::jobs_diff(definition, snapshot, advertised, n);
            &&& forall|w: int| 0 <= w < diff.len() ==> (#[trigger] diff[w]).job_index < n
            &&& forall|v: int, w: int|
                0 <= v < w < diff.len() ==> before(#[trigger] diff[v], #[trigger] diff[w])
        }),
    decreases n,
{
    if n > 0 {
        let m = (n - 1) as nat;
        let i = n - 1;
        jobs_in_order(definition, snapshot, advertised, m);
        let front = schema_diff::jobs_diff(definition, snapshot, advertised, m);
        let here = schema_diff::workflow_job_diff(definition, snapshot, advertised, i);
        let name = definition.jobs@[i].runner_job_name@;
        if i < snapshot.len() && schema_diff::advertised_job(advertised[i]@, name) is Some {
            let j = advertised_job_is_first(advertised[i]@, name);
            assert(names::names_sorted(advertised[i]@[j].inputs@));
            assert(names::names_sorted(snapshot[i].inputs@));
            job_in_order(
                i as usize,
                name,
                snapshot[i],
                advertised[i]@[j],
                schema_diff::bound_input(definition, i as usize),
                schema_diff::referenced_output(definition, i as usize),
            );
        }
        assert forall|w: int| 0 <= w < here.len() implies (#[trigger] here[w]).job_index == i by {}
        joined_in_order(front, here);
        let diff = schema_diff::jobs_diff(definition, snapshot, advertised, n);
        assert(diff == front + here);
        assert forall|w: int| 0 <= w < diff.len() implies (#[trigger] diff[w]).job_index < n by {
            if w < front.len() {
                assert(diff[w] == front[w]);
            } else {
                assert(diff[w] == here[w - front.len()]);
            }
        }
    }
}

proof fn extras_in_order(snapshot: Seq<JobDefinitionResponse>, first: nat, n: nat)
    requires
        snapshot.len() <= usize::MAX,
        n <= snapshot.len(),
    ensures
        ({
            let diff = schema_diff::extra_jobs(snapshot, first, n);
            &&& forall|w: int|
                0 <= w < diff.len() ==> first <= (#[trigger] diff[w]).job_index < n
            &&& forall|v: int, w: int|
                0 <= v < w < diff.len() ==> before(#[trigger] diff[v], #[trigger] diff[w])
        }),
    decreases n,
{
    if n > first {
        extras_in_order(snapshot, first, (n - 1) as nat);
    }
}

/// A report goes through the jobs in order and through each job's new inputs, old
/// inputs, new outputs and old outputs by name. Nothing is reported twice.
pub proof fn differences_are_in_order(
    definition: WorkflowDefinition,
    snapshot: Seq<JobDefinitionResponse>,
    advertised: Seq<Vec<JobDefinitionResponse>>,
    v: int,
    w: int,
)
    requires
        definition.jobs@.len() <= usize::MAX,
        snapshot.len() <= usize::MAX,
        forall|i: int|
            0 <= i < snapshot.len() ==> names::names_sorted((#[trigger] snapshot[i]).inputs@)
                && names::names_sorted(snapshot[i].outputs@),
        forall|i: int, j: int|
            0 <= i < definition.jobs@.len() && 0 <= j < advertised[i]@.len()
                ==> names::names_sorted((#[trigger] advertised[i]@[j]).inputs@)
                && names::names_sorted(advertised[i]@[j].outputs@),
        0 <= v < w < schema_diff::workflow_diff(definition, snapshot, advertised).len(),
    ensures
        ({
            let diff = schema_diff::workflow_diff(definition, snapshot, advertised);
            &&& before(diff[v], diff[w])
            &&& !(diff[v].job_index == diff[w].job_index && diff[v].kind == diff[w].kind
                && diff[v].field_name == diff[w].field_name)
        }),
{
    let n = definition.jobs@.len();
    jobs_in_order(definition, snapshot, advertised, n);
    extras_in_order(snapshot, n, snapshot.len());
    let (front, back) = (
        schema_diff::jobs_diff(definition, snapshot, advertised, n),
        schema_diff::extra_jobs(snapshot, n, snapshot.len()),
    );
    joined_in_order(front, back);
    let diff = schema_diff::workflow_diff(definition, snapshot, advertised);
    assert(before(diff[v], diff[w]));
    if let Some(name) = diff[v].field_name {
        text::text_lt_irreflexive(name);
    }
}

} // verus!
