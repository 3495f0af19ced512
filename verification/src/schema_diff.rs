//! Whether the jobs that a workflow was written against are still the jobs that
//! its runners advertise.
use vstd::prelude::*;

use crate::json::JsonValue;
use crate::names;
use crate::names::NameMap;
use crate::schema::{
    JobDefinitionResponse, JobInputDefinitionResponse, JobOutputDefinitionResponse,
};
use crate::text;

verus! {

/// How a workflow stands to the jobs that its runners advertise.
#[derive(Debug, Clone, Copy, PartialEq, Eq, Structural)]
pub enum WorkflowSchemaStatus {
    Current,
    Stale,
    Incompatible,
}

impl WorkflowSchemaStatus {
    /// The name that stands for the status in protocol texts.
    pub open spec fn label(self) -> Seq<char> {
        match self {
            WorkflowSchemaStatus::Current => "current"@,
            WorkflowSchemaStatus::Stale => "stale"@,
            WorkflowSchemaStatus::Incompatible => "incompatible"@,
        }
    }

    pub fn as_str(self) -> (r: &'static str)
        ensures
            r@ == self.label(),
    {
        match self {
            WorkflowSchemaStatus::Current => "current",
            WorkflowSchemaStatus::Stale => "stale",
            WorkflowSchemaStatus::Incompatible => "incompatible",
        }
    }

    /// The tone in which pages show the status.
    pub fn tone(self) -> (r: &'static str)
        ensures
            r@ == match self {
                WorkflowSchemaStatus::Current => "success"@,
                WorkflowSchemaStatus::Stale => "warning"@,
                WorkflowSchemaStatus::Incompatible => "danger"@,
            },
    {
        match self {
            WorkflowSchemaStatus::Current => "success",
            WorkflowSchemaStatus::Stale => "warning",
            WorkflowSchemaStatus::Incompatible => "danger",
        }
    }
}

/// What kind of difference there is.
#[derive(Debug, Clone, Copy, PartialEq, Eq, Structural)]
pub enum WorkflowSchemaDiffKind {
    JobRemoved,
    InputAdded,
    InputRemoved,
    OutputAdded,
    OutputRemoved,
    InputTypeChanged,
    OutputTypeChanged,
    InputRequirednessChanged,
    OutputRequirednessChanged,
}

/// A difference between a saved and an advertised job.
#[derive(Debug, Clone, PartialEq, Eq)]
pub struct WorkflowSchemaDiff {
    pub kind: WorkflowSchemaDiffKind,
    pub job_index: usize,
    pub job_name: String,
    pub field_name: Option<String>,
    pub saved: Option<String>,
    pub current: Option<String>,
    pub incompatible: bool,
    pub message: String,
}

/// The mathematical counterpart of `WorkflowSchemaDiff`.
pub struct DiffView {
    pub kind: WorkflowSchemaDiffKind,
    pub job_index: usize,
    pub job_name: Seq<char>,
    pub field_name: Option<Seq<char>>,
    pub saved: Option<Seq<char>>,
    pub current: Option<Seq<char>>,
    pub incompatible: bool,
    pub message: Seq<char>,
}

/// An optional text by its characters.
pub open spec fn optional(text: Option<String>) -> Option<Seq<char>> {
    match text {
        Some(t) => Some(t@),
        None => None,
    }
}

impl View for WorkflowSchemaDiff {
    type V = DiffView;

    open spec fn view(&self) -> DiffView {
        DiffView {
            kind: self.kind,
            job_index: self.job_index,
            job_name: self.job_name@,
            field_name: optional(self.field_name),
            saved: optional(self.saved),
            current: optional(self.current),
            incompatible: self.incompatible,
            message: self.message@,
        }
    }
}

/// A difference by its mathematical counterpart.
pub open spec fn diff_model() -> spec_fn(WorkflowSchemaDiff) -> DiffView {
    |diff: WorkflowSchemaDiff| diff@
}

/// Differences by their mathematical counterparts.
pub open spec fn diff_views(diff: Seq<WorkflowSchemaDiff>) -> Seq<DiffView> {
    diff.map_values(diff_model())
}

impl DiffView {
    /// A difference that a workflow survives but should take notice of. What
    /// was only added needs no notice.
    pub open spec fn stale(self) -> bool {
        !self.incompatible && !(self.kind is InputAdded || self.kind is OutputAdded)
    }
}

impl WorkflowSchemaDiff {
    pub fn is_stale(&self) -> (r: bool)
        ensures
            r == self@.stale(),
    {
        !self.incompatible && match self.kind {
            WorkflowSchemaDiffKind::InputAdded | WorkflowSchemaDiffKind::OutputAdded => false,
            _ => true,
        }
    }
}

/// How a workflow stands, and why.
#[derive(Debug, Clone, PartialEq, Eq)]
pub struct WorkflowSchemaReport {
    pub status: WorkflowSchemaStatus,
    pub diff: Vec<WorkflowSchemaDiff>,
}

/// Where a workflow takes a job's input from.
#[derive(Debug)]
pub enum WorkflowInputBinding {
    JobOutput { job_index: usize, output_name: String },
    Value { value: JsonValue },
}

/// A job of a workflow.
#[derive(Debug)]
pub struct WorkflowJob {
    pub runner_id: String,
    pub runner_job_name: String,
    pub inputs: NameMap<WorkflowInputBinding>,
}

/// The jobs of a workflow, in order.
#[derive(Debug)]
pub struct WorkflowDefinition {
    pub jobs: Vec<WorkflowJob>,
}

/// The word for whether something has to be there.
pub open spec fn requiredness_label(required: bool) -> Seq<char> {
    if required {
        "required"@
    } else {
        "optional"@
    }
}

pub fn requiredness(required: bool) -> (r: &'static str)
    ensures
        r@ == requiredness_label(required),
{
    if required {
        "required"
    } else {
        "optional"
    }
}

/// How messages speak of a job: by its place, counted from one.
pub open spec fn job_label(job_index: usize) -> Seq<char> {
    "job-"@ + text::decimal((job_index + 1) as nat)
}

fn job_text(job_index: usize) -> (r: String)
    requires
        job_index < usize::MAX,
    ensures
        r@ == job_label(job_index),
{
    let mut out = "job-".to_owned();
    out.append(text::decimal_text((job_index + 1) as u64).as_str());
    out
}

/// What the items give together, in order.
pub open spec fn collected<A>(s: Seq<A>, differences: spec_fn(A) -> Seq<DiffView>) -> Seq<DiffView>
    decreases s.len(),
{
    if s.len() == 0 {
        Seq::empty()
    } else {
        collected(s.drop_last(), differences) + differences(s.last())
    }
}

proof fn collected_step<A>(s: Seq<A>, differences: spec_fn(A) -> Seq<DiffView>, i: int)
    requires
        0 <= i < s.len(),
    ensures
        collected(s.take(i + 1), differences) == collected(s.take(i), differences) + differences(s[i]),
{
    assert(s.take(i + 1).drop_last() =~= s.take(i));
}

/// Items that give nothing give nothing together.
pub proof fn nothing_collected<A>(s: Seq<A>, differences: spec_fn(A) -> Seq<DiffView>)
    requires
        forall|i: int| 0 <= i < s.len() ==> differences(#[trigger] s[i]).len() == 0,
    ensures
        collected(s, differences).len() == 0,
    decreases s.len(),
{
    if s.len() > 0 {
        let rest = s.drop_last();
        assert forall|i: int| 0 <= i < rest.len() implies differences(#[trigger] rest[i]).len()
            == 0 by {
            assert(rest[i] == s[i]);
        }
        assert(differences(s[s.len() - 1]).len() == 0);
        nothing_collected(rest, differences);
    }
}

/// An advertised input that was not saved. One that has to be given breaks the
/// workflow.
pub open spec fn added_input(
    job_index: usize,
    job_name: Seq<char>,
    saved: Seq<(Seq<char>, JobInputDefinitionResponse)>,
) -> spec_fn((Seq<char>, JobInputDefinitionResponse)) -> Seq<DiffView> {
    |input: (Seq<char>, JobInputDefinitionResponse)|
        if names::has_name(saved, input.0) {
            Seq::empty()
        } else {
            seq![
                DiffView {
                    kind: WorkflowSchemaDiffKind::InputAdded,
                    job_index,
                    job_name,
                    field_name: Some(input.0),
                    saved: None,
                    current: Some(requiredness_label(input.1.required)),
                    incompatible: input.1.required,
                    message: if input.1.required {
                        job_label(job_index) + " input "@ + input.0 + " was added and is required"@
                    } else {
                        job_label(job_index) + " input "@ + input.0 + " was added and is optional"@
                    },
                },
            ]
        }
}

/// An input whose type differs.
pub open spec fn input_type_change(
    job_index: usize,
    job_name: Seq<char>,
    name: Seq<char>,
    saved: JobInputDefinitionResponse,
    current: JobInputDefinitionResponse,
    bound: bool,
) -> Seq<DiffView> {
    if saved.kind == current.kind {
        Seq::empty()
    } else {
        seq![
            DiffView {
                kind: WorkflowSchemaDiffKind::InputTypeChanged,
                job_index,
                job_name,
                field_name: Some(name),
                saved: Some(saved.kind.label()),
                current: Some(current.kind.label()),
                incompatible: saved.required || bound,
                message: job_label(job_index) + " input "@ + name + " changed type from "@
                    + saved.kind.label() + " to "@ + current.kind.label(),
            },
        ]
    }
}

/// An input that has to be given now and did not before, or the other way round.
pub open spec fn input_requiredness_change(
    job_index: usize,
    job_name: Seq<char>,
    name: Seq<char>,
    saved: JobInputDefinitionResponse,
    current: JobInputDefinitionResponse,
) -> Seq<DiffView> {
    if saved.required == current.required {
        Seq::empty()
    } else {
        seq![
            DiffView {
                kind: WorkflowSchemaDiffKind::InputRequirednessChanged,
                job_index,
                job_name,
                field_name: Some(name),
                saved: Some(requiredness_label(saved.required)),
                current: Some(requiredness_label(current.required)),
                incompatible: current.required && !saved.required,
                message: job_label(job_index) + " input "@ + name + " changed requiredness from "@
                    + requiredness_label(saved.required) + " to "@ + requiredness_label(
                    current.required,
                ),
            },
        ]
    }
}

/// What has become of a saved input. A change of one that is required, or that
/// the workflow binds, breaks the workflow.
pub open spec fn changed_input(
    job_index: usize,
    job_name: Seq<char>,
    current: Seq<(Seq<char>, JobInputDefinitionResponse)>,
    bound: spec_fn(Seq<char>) -> bool,
) -> spec_fn((Seq<char>, JobInputDefinitionResponse)) -> Seq<DiffView> {
    |input: (Seq<char>, JobInputDefinitionResponse)|
        match names::lookup(current, input.0) {
            None => seq![
                DiffView {
                    kind: WorkflowSchemaDiffKind::InputRemoved,
                    job_index,
                    job_name,
                    field_name: Some(input.0),
                    saved: Some(input.1.kind.label()),
                    current: None,
                    incompatible: input.1.required || bound(input.0),
                    message: job_label(job_index) + " input "@ + input.0 + " was removed"@,
                },
            ],
            Some(advertised) => input_type_change(
                job_index,
                job_name,
                input.0,
                input.1,
                advertised,
                bound(input.0),
            ) + input_requiredness_change(job_index, job_name, input.0, input.1, advertised),
        }
}

/// An advertised output that was not saved.
pub open spec fn added_output(
    job_index: usize,
    job_name: Seq<char>,
    saved: Seq<(Seq<char>, JobOutputDefinitionResponse)>,
) -> spec_fn((Seq<char>, JobOutputDefinitionResponse)) -> Seq<DiffView> {
    |output: (Seq<char>, JobOutputDefinitionResponse)|
        if names::has_name(saved, output.0) {
            Seq::empty()
        } else {
            seq![
                DiffView {
                    kind: WorkflowSchemaDiffKind::OutputAdded,
                    job_index,
                    job_name,
                    field_name: Some(output.0),
                    saved: None,
                    current: Some(
                        output.1.kind.label() + " "@ + requiredness_label(output.1.required),
                    ),
                    incompatible: false,
                    message: job_label(job_index) + " output "@ + output.0 + " was added"@,
                },
            ]
        }
}

/// An output whose type differs.
pub open spec fn output_type_change(
    job_index: usize,
    job_name: Seq<char>,
    name: Seq<char>,
    saved: JobOutputDefinitionResponse,
    current: JobOutputDefinitionResponse,
    referenced: bool,
) -> Seq<DiffView> {
    if saved.kind == current.kind {
        Seq::empty()
    } else {
        seq![
            DiffView {
                kind: WorkflowSchemaDiffKind::OutputTypeChanged,
                job_index,
                job_name,
                field_name: Some(name),
                saved: Some(saved.kind.label()),
                current: Some(current.kind.label()),
                incompatible: saved.required || referenced,
                message: job_label(job_index) + " output "@ + name + " changed type from "@
                    + saved.kind.label() + " to "@ + current.kind.label(),
            },
        ]
    }
}

/// An output that is sure to be left now and was not before, or the other way
/// round.
pub open spec fn output_requiredness_change(
    job_index: usize,
    job_name: Seq<char>,
    name: Seq<char>,
    saved: JobOutputDefinitionResponse,
    current: JobOutputDefinitionResponse,
) -> Seq<DiffView> {
    if saved.required == current.required {
        Seq::empty()
    } else {
        seq![
            DiffView {
                kind: WorkflowSchemaDiffKind::OutputRequirednessChanged,
                job_index,
                job_name,
                field_name: Some(name),
                saved: Some(requiredness_label(saved.required)),
                current: Some(requiredness_label(current.required)),
                incompatible: saved.required && !current.required,
                message: job_label(job_index) + " output "@ + name + " changed requiredness from "@
                    + requiredness_label(saved.required) + " to "@ + requiredness_label(
                    current.required,
                ),
            },
        ]
    }
}

/// What has become of a saved output. A change of one that is required, or that
/// the workflow refers to, breaks the workflow.
pub open spec fn changed_output(
    job_index: usize,
    job_name: Seq<char>,
    current: Seq<(Seq<char>, JobOutputDefinitionResponse)>,
    referenced: spec_fn(Seq<char>) -> bool,
) -> spec_fn((Seq<char>, JobOutputDefinitionResponse)) -> Seq<DiffView> {
    |output: (Seq<char>, JobOutputDefinitionResponse)|
        match names::lookup(current, output.0) {
            None => seq![
                DiffView {
                    kind: WorkflowSchemaDiffKind::OutputRemoved,
                    job_index,
                    job_name,
                    field_name: Some(output.0),
                    saved: Some(output.1.kind.label()),
                    current: None,
                    incompatible: output.1.required || referenced(output.0),
                    message: job_label(job_index) + " output "@ + output.0 + " was removed"@,
                },
            ],
            Some(advertised) => output_type_change(
                job_index,
                job_name,
                output.0,
                output.1,
                advertised,
                referenced(output.0),
            ) + output_requiredness_change(job_index, job_name, output.0, output.1, advertised),
        }
}

/// All differences between a saved job and the advertised one: added inputs,
/// changed inputs, added outputs and changed outputs, each in name order.
pub open spec fn job_diff(
    job_index: usize,
    job_name: Seq<char>,
    saved: JobDefinitionResponse,
    current: JobDefinitionResponse,
    bound: spec_fn(Seq<char>) -> bool,
    referenced: spec_fn(Seq<char>) -> bool,
) -> Seq<DiffView> {
    collected(current.inputs@, added_input(job_index, job_name, saved.inputs@)) + collected(
        saved.inputs@,
        changed_input(job_index, job_name, current.inputs@, bound),
    ) + collected(current.outputs@, added_output(job_index, job_name, saved.outputs@)) + collected(
        saved.outputs@,
        changed_output(job_index, job_name, current.outputs@, referenced),
    )
}

/// Membership in a set of names.
pub open spec fn member_of(set: Seq<(Seq<char>, ())>) -> spec_fn(Seq<char>) -> bool {
    |name: Seq<char>| names::has_name(set, name)
}

fn push_diff(diff: &mut Vec<WorkflowSchemaDiff>, item: WorkflowSchemaDiff)
    ensures
        diff_views(final(diff)@) == diff_views(old(diff)@) + seq![item@],
{
    diff.push(item);
    assert(diff_views(diff@) =~= diff_views(old(diff)@) + seq![item@]);
}

fn diff_added_inputs(
    diff: &mut Vec<WorkflowSchemaDiff>,
    job_index: usize,
    job_name: &str,
    saved: &NameMap<JobInputDefinitionResponse>,
    current: &NameMap<JobInputDefinitionResponse>,
)
    requires
        job_index < usize::MAX,
    ensures
        diff_views(final(diff)@) == diff_views(old(diff)@) + collected(
            current@,
            added_input(job_index, job_name@, saved@),
        ),
{
    let ghost rule = added_input(job_index, job_name@, saved@);
    let ghost before = diff_views(diff@);
    let n = current.len();
    assert(current@.take(0) =~= Seq::empty());
    assert(before + collected(current@.take(0), rule) =~= before);
    let mut i: usize = 0;
    while i < n
        invariant
            i <= n,
            n == current@.len(),
            job_index < usize::MAX,
            rule == added_input(job_index, job_name@, saved@),
            diff_views(diff@) == before + collected(current@.take(i as int), rule),
        decreases n - i,
    {
        let name = current.name_at(i);
        let ghost so_far = collected(current@.take(i as int), rule);
        proof {
            collected_step(current@, rule, i as int);
        }
        if !saved.contains_name(name.as_str()) {
            let required = current.value_at(i).required;
            let mut message = job_text(job_index);
            message.append(" input ");
            message.append(name.as_str());
            if required {
                message.append(" was added and is required");
            } else {
                message.append(" was added and is optional");
            }
            let item = WorkflowSchemaDiff {
                kind: WorkflowSchemaDiffKind::InputAdded,
                job_index,
                job_name: job_name.to_owned(),
                field_name: Some(name.clone()),
                saved: None,
                current: Some(requiredness(required).to_owned()),
                incompatible: required,
                message,
            };
            assert(seq![item@] =~= rule(current@[i as int]));
            push_diff(diff, item);
        }
        assert(before + (so_far + rule(current@[i as int])) =~= before + so_far + rule(
            current@[i as int],
        ));
        assert(before + so_far + Seq::<DiffView>::empty() =~= before + so_far);
        i += 1;
    }
    assert(current@.take(i as int) =~= current@);
}

fn diff_one_input(
    diff: &mut Vec<WorkflowSchemaDiff>,
    job_index: usize,
    job_name: &str,
    name: &String,
    saved_input: &JobInputDefinitionResponse,
    current_input: &JobInputDefinitionResponse,
    bound: bool,
)
    requires
        job_index < usize::MAX,
    ensures
        diff_views(final(diff)@) == diff_views(old(diff)@) + (input_type_change(
            job_index,
            job_name@,
            name@,
            *saved_input,
            *current_input,
            bound,
        ) + input_requiredness_change(
            job_index,
            job_name@,
            name@,
            *saved_input,
            *current_input,
        )),
{
    let ghost before = diff_views(diff@);
    let ghost first = input_type_change(
        job_index,
        job_name@,
        name@,
        *saved_input,
        *current_input,
        bound,
    );
    let ghost second = input_requiredness_change(
        job_index,
        job_name@,
        name@,
        *saved_input,
        *current_input,
    );
    if saved_input.kind != current_input.kind {
        let mut message = job_text(job_index);
        message.append(" input ");
        message.append(name.as_str());
        message.append(" changed type from ");
        message.append(saved_input.kind.as_str());
        message.append(" to ");
        message.append(current_input.kind.as_str());
        let item = WorkflowSchemaDiff {
            kind: WorkflowSchemaDiffKind::InputTypeChanged,
            job_index,
            job_name: job_name.to_owned(),
            field_name: Some(name.clone()),
            saved: Some(saved_input.kind.as_str().to_owned()),
            current: Some(current_input.kind.as_str().to_owned()),
            incompatible: saved_input.required || bound,
            message,
        };
        assert(seq![item@] =~= first);
        push_diff(diff, item);
    }
    assert(diff_views(diff@) =~= before + first);
    if saved_input.required != current_input.required {
        let mut message = job_text(job_index);
        message.append(" input ");
        message.append(name.as_str());
        message.append(" changed requiredness from ");
        message.append(requiredness(saved_input.required));
        message.append(" to ");
        message.append(requiredness(current_input.required));
        let item = WorkflowSchemaDiff {
            kind: WorkflowSchemaDiffKind::InputRequirednessChanged,
            job_index,
            job_name: job_name.to_owned(),
            field_name: Some(name.clone()),
            saved: Some(requiredness(saved_input.required).to_owned()),
            current: Some(requiredness(current_input.required).to_owned()),
            incompatible: current_input.required && !saved_input.required,
            message,
        };
        assert(seq![item@] =~= second);
        push_diff(diff, item);
    }
    assert(diff_views(diff@) =~= before + (first + second));
}

fn diff_changed_inputs(
    diff: &mut Vec<WorkflowSchemaDiff>,
    job_index: usize,
    job_name: &str,
    saved: &NameMap<JobInputDefinitionResponse>,
    current: &NameMap<JobInputDefinitionResponse>,
    bound_inputs: &NameMap<()>,
)
    requires
        job_index < usize::MAX,
    ensures
        diff_views(final(diff)@) == diff_views(old(diff)@) + collected(
            saved@,
            changed_input(job_index, job_name@, current@, member_of(bound_inputs@)),
        ),
{
    let ghost rule = changed_input(job_index, job_name@, current@, member_of(bound_inputs@));
    let ghost before = diff_views(diff@);
    let n = saved.len();
    assert(saved@.take(0) =~= Seq::empty());
    assert(before + collected(saved@.take(0), rule) =~= before);
    let mut i: usize = 0;
    while i < n
        invariant
            i <= n,
            n == saved@.len(),
            job_index < usize::MAX,
            rule == changed_input(job_index, job_name@, current@, member_of(bound_inputs@)),
            diff_views(diff@) == before + collected(saved@.take(i as int), rule),
        decreases n - i,
    {
        let name = saved.name_at(i);
        let saved_input = saved.value_at(i);
        let bound = bound_inputs.contains_name(name.as_str());
        let ghost so_far = collected(saved@.take(i as int), rule);
        proof {
            collected_step(saved@, rule, i as int);
        }
        match current.get(name.as_str()) {
            None => {
                let mut message = job_text(job_index);
                message.append(" input ");
                message.append(name.as_str());
                message.append(" was removed");
                let item = WorkflowSchemaDiff {
                    kind: WorkflowSchemaDiffKind::InputRemoved,
                    job_index,
                    job_name: job_name.to_owned(),
                    field_name: Some(name.clone()),
                    saved: Some(saved_input.kind.as_str().to_owned()),
                    current: None,
                    incompatible: saved_input.required || bound,
                    message,
                };
                assert(seq![item@] =~= rule(saved@[i as int]));
                push_diff(diff, item);
            },
            Some(current_input) => {
                diff_one_input(diff, job_index, job_name, name, saved_input, current_input, bound);
            },
        }
        assert(before + (so_far + rule(saved@[i as int])) =~= before + so_far + rule(
            saved@[i as int],
        ));
        i += 1;
    }
    assert(saved@.take(i as int) =~= saved@);
}

fn diff_added_outputs(
    diff: &mut Vec<WorkflowSchemaDiff>,
    job_index: usize,
    job_name: &str,
    saved: &NameMap<JobOutputDefinitionResponse>,
    current: &NameMap<JobOutputDefinitionResponse>,
)
    requires
        job_index < usize::MAX,
    ensures
        diff_views(final(diff)@) == diff_views(old(diff)@) + collected(
            current@,
            added_output(job_index, job_name@, saved@),
        ),
{
    let ghost rule = added_output(job_index, job_name@, saved@);
    let ghost before = diff_views(diff@);
    let n = current.len();
    assert(current@.take(0) =~= Seq::empty());
    assert(before + collected(current@.take(0), rule) =~= before);
    let mut i: usize = 0;
    while i < n
        invariant
            i <= n,
            n == current@.len(),
            job_index < usize::MAX,
            rule == added_output(job_index, job_name@, saved@),
            diff_views(diff@) == before + collected(current@.take(i as int), rule),
        decreases n - i,
    {
        let name = current.name_at(i);
        let ghost so_far = collected(current@.take(i as int), rule);
        proof {
            collected_step(current@, rule, i as int);
        }
        if !saved.contains_name(name.as_str()) {
            let output = current.value_at(i);
            let mut shape = output.kind.as_str().to_owned();
            shape.append(" ");
            shape.append(requiredness(output.required));
            let mut message = job_text(job_index);
            message.append(" output ");
            message.append(name.as_str());
            message.append(" was added");
            let item = WorkflowSchemaDiff {
                kind: WorkflowSchemaDiffKind::OutputAdded,
                job_index,
                job_name: job_name.to_owned(),
                field_name: Some(name.clone()),
                saved: None,
                current: Some(shape),
                incompatible: false,
                message,
            };
            assert(seq![item@] =~= rule(current@[i as int]));
            push_diff(diff, item);
        }
        assert(before + (so_far + rule(current@[i as int])) =~= before + so_far + rule(
            current@[i as int],
        ));
        assert(before + so_far + Seq::<DiffView>::empty() =~= before + so_far);
        i += 1;
    }
    assert(current@.take(i as int) =~= current@);
}

fn diff_one_output(
    diff: &mut Vec<WorkflowSchemaDiff>,
    job_index: usize,
    job_name: &str,
    name: &String,
    saved_output: &JobOutputDefinitionResponse,
    current_output: &JobOutputDefinitionResponse,
    referenced: bool,
)
    requires
        job_index < usize::MAX,
    ensures
        diff_views(final(diff)@) == diff_views(old(diff)@) + (output_type_change(
            job_index,
            job_name@,
            name@,
            *saved_output,
            *current_output,
            referenced,
        ) + output_requiredness_change(
            job_index,
            job_name@,
            name@,
            *saved_output,
            *current_output,
        )),
{
    let ghost before = diff_views(diff@);
    let ghost first = output_type_change(
        job_index,
        job_name@,
        name@,
        *saved_output,
        *current_output,
        referenced,
    );
    let ghost second = output_requiredness_change(
        job_index,
        job_name@,
        name@,
        *saved_output,
        *current_output,
    );
    if saved_output.kind != current_output.kind {
        let mut message = job_text(job_index);
        message.append(" output ");
        message.append(name.as_str());
        message.append(" changed type from ");
        message.append(saved_output.kind.as_str());
        message.append(" to ");
        message.append(current_output.kind.as_str());
        let item = WorkflowSchemaDiff {
            kind: WorkflowSchemaDiffKind::OutputTypeChanged,
            job_index,
            job_name: job_name.to_owned(),
            field_name: Some(name.clone()),
            saved: Some(saved_output.kind.as_str().to_owned()),
            current: Some(current_output.kind.as_str().to_owned()),
            incompatible: saved_output.required || referenced,
            message,
        };
        assert(seq![item@] =~= first);
        push_diff(diff, item);
    }
    assert(diff_views(diff@) =~= before + first);
    if saved_output.required != current_output.required {
        let mut message = job_text(job_index);
        message.append(" output ");
        message.append(name.as_str());
        message.append(" changed requiredness from ");
        message.append(requiredness(saved_output.required));
        message.append(" to ");
        message.append(requiredness(current_output.required));
        let item = WorkflowSchemaDiff {
            kind: WorkflowSchemaDiffKind::OutputRequirednessChanged,
            job_index,
            job_name: job_name.to_owned(),
            field_name: Some(name.clone()),
            saved: Some(requiredness(saved_output.required).to_owned()),
            current: Some(requiredness(current_output.required).to_owned()),
            incompatible: saved_output.required && !current_output.required,
            message,
        };
        assert(seq![item@] =~= second);
        push_diff(diff, item);
    }
    assert(diff_views(diff@) =~= before + (first + second));
}

fn diff_changed_outputs(
    diff: &mut Vec<WorkflowSchemaDiff>,
    job_index: usize,
    job_name: &str,
    saved: &NameMap<JobOutputDefinitionResponse>,
    current: &NameMap<JobOutputDefinitionResponse>,
    referenced_outputs: &NameMap<()>,
)
    requires
        job_index < usize::MAX,
    ensures
        diff_views(final(diff)@) == diff_views(old(diff)@) + collected(
            saved@,
            changed_output(job_index, job_name@, current@, member_of(referenced_outputs@)),
        ),
{
    let ghost rule = changed_output(
        job_index,
        job_name@,
        current@,
        member_of(referenced_outputs@),
    );
    let ghost before = diff_views(diff@);
    let n = saved.len();
    assert(saved@.take(0) =~= Seq::empty());
    assert(before + collected(saved@.take(0), rule) =~= before);
    let mut i: usize = 0;
    while i < n
        invariant
            i <= n,
            n == saved@.len(),
            job_index < usize::MAX,
            rule == changed_output(job_index, job_name@, current@, member_of(referenced_outputs@)),
            diff_views(diff@) == before + collected(saved@.take(i as int), rule),
        decreases n - i,
    {
        let name = saved.name_at(i);
        let saved_output = saved.value_at(i);
        let referenced = referenced_outputs.contains_name(name.as_str());
        let ghost so_far = collected(saved@.take(i as int), rule);
        proof {
            collected_step(saved@, rule, i as int);
        }
        match current.get(name.as_str()) {
            None => {
                let mut message = job_text(job_index);
                message.append(" output ");
                message.append(name.as_str());
                message.append(" was removed");
                let item = WorkflowSchemaDiff {
                    kind: WorkflowSchemaDiffKind::OutputRemoved,
                    job_index,
                    job_name: job_name.to_owned(),
                    field_name: Some(name.clone()),
                    saved: Some(saved_output.kind.as_str().to_owned()),
                    current: None,
                    incompatible: saved_output.required || referenced,
                    message,
                };
                assert(seq![item@] =~= rule(saved@[i as int]));
                push_diff(diff, item);
            },
            Some(current_output) => {
                diff_one_output(
                    diff,
                    job_index,
                    job_name,
                    name,
                    saved_output,
                    current_output,
                    referenced,
                );
            },
        }
        assert(before + (so_far + rule(saved@[i as int])) =~= before + so_far + rule(
            saved@[i as int],
        ));
        i += 1;
    }
    assert(saved@.take(i as int) =~= saved@);
}

/// All differences between a saved job and the advertised one. The workflow
/// gives the job the inputs in `bound_inputs`, and takes from it the outputs in
/// `referenced_outputs`.
pub fn diff_job_schema(
    job_index: usize,
    job_name: &str,
    saved_schema: &JobDefinitionResponse,
    current_schema: &JobDefinitionResponse,
    bound_inputs: &NameMap<()>,
    referenced_outputs: &NameMap<()>,
) -> (r: Vec<WorkflowSchemaDiff>)
    requires
        job_index < usize::MAX,
    ensures
        diff_views(r@) == job_diff(
            job_index,
            job_name@,
            *saved_schema,
            *current_schema,
            member_of(bound_inputs@),
            member_of(referenced_outputs@),
        ),
{
    let mut diff: Vec<WorkflowSchemaDiff> = Vec::new();
    diff_added_inputs(
        &mut diff,
        job_index,
        job_name,
        &saved_schema.inputs,
        &current_schema.inputs,
    );
    assert(diff_views(diff@) =~= collected(
        current_schema.inputs@,
        added_input(job_index, job_name@, saved_schema.inputs@),
    ));
    diff_changed_inputs(
        &mut diff,
        job_index,
        job_name,
        &saved_schema.inputs,
        &current_schema.inputs,
        bound_inputs,
    );
    diff_added_outputs(
        &mut diff,
        job_index,
        job_name,
        &saved_schema.outputs,
        &current_schema.outputs,
    );
    diff_changed_outputs(
        &mut diff,
        job_index,
        job_name,
        &saved_schema.outputs,
        &current_schema.outputs,
        referenced_outputs,
    );
    diff
}

/// The workflow gives the job at `job_index` this input.
pub open spec fn bound_input(definition: WorkflowDefinition, job_index: usize) -> spec_fn(
    Seq<char>,
) -> bool {
    |name: Seq<char>|
        job_index < definition.jobs@.len() && names::has_name(
            definition.jobs@[job_index as int].inputs@,
            name,
        )
}

/// The binding takes this output of the job at `job_index`.
pub open spec fn refers_to(binding: WorkflowInputBinding, job_index: usize, name: Seq<char>) -> bool {
    binding matches WorkflowInputBinding::JobOutput { job_index: index, output_name } && index
        == job_index && output_name@ == name
}

/// One of the first `n` bindings takes this output of the job at `job_index`.
pub open spec fn referenced_in(
    bindings: Seq<(Seq<char>, WorkflowInputBinding)>,
    n: int,
    job_index: usize,
    name: Seq<char>,
) -> bool {
    exists|k: int| 0 <= k < n && refers_to((#[trigger] bindings[k]).1, job_index, name)
}

/// One of the first `n` jobs takes this output of the job at `job_index`.
pub open spec fn referenced_by(
    jobs: Seq<WorkflowJob>,
    n: int,
    job_index: usize,
    name: Seq<char>,
) -> bool {
    exists|j: int|
        0 <= j < n && referenced_in(
            (#[trigger] jobs[j]).inputs@,
            jobs[j].inputs@.len() as int,
            job_index,
            name,
        )
}

/// The workflow takes this output of the job at `job_index`.
pub open spec fn referenced_output(definition: WorkflowDefinition, job_index: usize) -> spec_fn(
    Seq<char>,
) -> bool {
    |name: Seq<char>|
        referenced_by(definition.jobs@, definition.jobs@.len() as int, job_index, name)
}

fn add_name(set: &mut NameMap<()>, name: String)
    ensures
        names::names_sorted(final(set)@),
        forall|q: Seq<char>|
            #[trigger] names::has_name(final(set)@, q) == (q == name@ || names::has_name(
                old(set)@,
                q,
            )),
{
    set.insert(name, ());
    proof {
        assert forall|q: Seq<char>| #[trigger]
            names::has_name(set@, q) == (q == name@ || names::has_name(old(set)@, q)) by {
            names::inserted_lookup(old(set)@, name@, (), q);
        }
    }
}

/// The inputs that the workflow gives the job at `job_index`.
pub fn workflow_bound_inputs(definition: &WorkflowDefinition, job_index: usize) -> (r: NameMap<()>)
    ensures
        member_of(r@) == bound_input(*definition, job_index),
        names::names_sorted(r@),
{
    let mut out: NameMap<()> = NameMap::new();
    if job_index < definition.jobs.len() {
        let inputs = &definition.jobs[job_index].inputs;
        let n = inputs.len();
        let mut i: usize = 0;
        while i < n
            invariant
                i <= n,
                n == inputs@.len(),
                names::names_sorted(out@),
                forall|q: Seq<char>|
                    #[trigger] names::has_name(out@, q) == names::has_name(
                        inputs@.take(i as int),
                        q,
                    ),
            decreases n - i,
        {
            let ghost before = out@;
            add_name(&mut out, inputs.name_at(i).clone());
            proof {
                let (shorter, longer) = (inputs@.take(i as int), inputs@.take(i + 1));
                assert forall|q: Seq<char>| #[trigger]
                    names::has_name(out@, q) == names::has_name(longer, q) by {
                    assert(longer[i as int].0 == inputs@[i as int].0);
                    if names::has_name(shorter, q) {
                        let k = names::position_of(shorter, q);
                        assert(longer[k].0 == q);
                    }
                    if names::has_name(longer, q) && q != inputs@[i as int].0 {
                        let k = names::position_of(longer, q);
                        assert(shorter[k].0 == q);
                    }
                    assert(names::has_name(before, q) == names::has_name(shorter, q));
                }
            }
            i += 1;
        }
        assert(inputs@.take(i as int) =~= inputs@);
    }
    assert(member_of(out@) =~= bound_input(*definition, job_index));
    out
}

/// The outputs that the workflow takes of the job at `upstream_job_index`.
pub fn workflow_referenced_outputs(
    definition: &WorkflowDefinition,
    upstream_job_index: usize,
) -> (r: NameMap<()>)
    ensures
        member_of(r@) == referenced_output(*definition, upstream_job_index),
        names::names_sorted(r@),
{
    let mut out: NameMap<()> = NameMap::new();
    let ghost jobs = definition.jobs@;
    let mut j: usize = 0;
    while j < definition.jobs.len()
        invariant
            j <= jobs.len(),
            jobs == definition.jobs@,
            names::names_sorted(out@),
            forall|q: Seq<char>|
                #[trigger] names::has_name(out@, q) == referenced_by(
                    jobs,
                    j as int,
                    upstream_job_index,
                    q,
                ),
        decreases jobs.len() - j,
    {
        let inputs = &definition.jobs[j].inputs;
        let ghost before = out@;
        let n = inputs.len();
        let mut k: usize = 0;
        while k < n
            invariant
                k <= n,
                n == inputs@.len(),
                names::names_sorted(out@),
                forall|q: Seq<char>|
                    #[trigger] names::has_name(out@, q) == (names::has_name(before, q)
                        || referenced_in(inputs@, k as int, upstream_job_index, q)),
            decreases n - k,
        {
            let ghost so_far = out@;
            if let WorkflowInputBinding::JobOutput { job_index, output_name } = inputs.value_at(k) {
                if *job_index == upstream_job_index {
                    add_name(&mut out, output_name.clone());
                }
            }
            proof {
                assert forall|q: Seq<char>| #[trigger]
                    names::has_name(out@, q) == (names::has_name(before, q) || referenced_in(
                        inputs@,
                        k + 1,
                        upstream_job_index,
                        q,
                    )) by {
                    assert(names::has_name(so_far, q) == (names::has_name(before, q)
                        || referenced_in(inputs@, k as int, upstream_job_index, q)));
                    let here = refers_to(inputs@[k as int].1, upstream_job_index, q);
                    if referenced_in(inputs@, k as int, upstream_job_index, q) {
                        let w = choose|w: int|
                            0 <= w < k && refers_to(
                                (#[trigger] inputs@[w]).1,
                                upstream_job_index,
                                q,
                            );
                        assert(refers_to(inputs@[w].1, upstream_job_index, q));
                    }
                    if referenced_in(inputs@, k + 1, upstream_job_index, q) && !here {
                        let w = choose|w: int|
                            0 <= w < k + 1 && refers_to(
                                (#[trigger] inputs@[w]).1,
                                upstream_job_index,
                                q,
                            );
                        assert(w != k);
                    }
                }
            }
            k += 1;
        }
        proof {
            assert forall|q: Seq<char>| #[trigger]
                names::has_name(out@, q) == referenced_by(jobs, j + 1, upstream_job_index, q) by {
                let here = referenced_in(
                    jobs[j as int].inputs@,
                    jobs[j as int].inputs@.len() as int,
                    upstream_job_index,
                    q,
                );
                assert(names::has_name(before, q) == referenced_by(
                    jobs,
                    j as int,
                    upstream_job_index,
                    q,
                ));
                if referenced_by(jobs, j as int, upstream_job_index, q) {
                    let w = choose|w: int|
                        0 <= w < j && referenced_in(
                            (#[trigger] jobs[w]).inputs@,
                            jobs[w].inputs@.len() as int,
                            upstream_job_index,
                            q,
                        );
                    assert(referenced_in(
                        jobs[w].inputs@,
                        jobs[w].inputs@.len() as int,
                        upstream_job_index,
                        q,
                    ));
                }
                if referenced_by(jobs, j + 1, upstream_job_index, q) && !here {
                    let w = choose|w: int|
                        0 <= w < j + 1 && referenced_in(
                            (#[trigger] jobs[w]).inputs@,
                            jobs[w].inputs@.len() as int,
                            upstream_job_index,
                            q,
                        );
                    assert(w != j);
                }
            }
        }
        j += 1;
    }
    assert(member_of(out@) =~= referenced_output(*definition, upstream_job_index));
    out
}

/// The first advertised job of that name.
pub open spec fn advertised_job(
    advertised: Seq<JobDefinitionResponse>,
    name: Seq<char>,
) -> Option<JobDefinitionResponse>
    decreases advertised.len(),
{
    if advertised.len() == 0 {
        None
    } else if advertised[0].name@ == name {
        Some(advertised[0])
    } else {
        advertised_job(advertised.drop_first(), name)
    }
}

proof fn advertised_job_at(advertised: Seq<JobDefinitionResponse>, name: Seq<char>, i: int)
    requires
        0 <= i <= advertised.len(),
        forall|j: int| 0 <= j < i ==> (#[trigger] advertised[j]).name@ != name,
        i < advertised.len() ==> advertised[i].name@ == name,
    ensures
        advertised_job(advertised, name) == if i < advertised.len() {
            Some(advertised[i])
        } else {
            None
        },
    decreases advertised.len(),
{
    if i > 0 {
        let rest = advertised.drop_first();
        assert(advertised[0].name@ != name);
        assert forall|j: int| 0 <= j < i - 1 implies (#[trigger] rest[j]).name@ != name by {
            assert(rest[j] == advertised[j + 1]);
        }
        advertised_job_at(rest, name, i - 1);
    }
}

fn find_advertised<'a>(advertised: &'a Vec<JobDefinitionResponse>, name: &str) -> (r: Option<
    &'a JobDefinitionResponse,
>)
    ensures
        match r {
            Some(job) => advertised_job(advertised@, name@) == Some(*job),
            None => advertised_job(advertised@, name@) is None,
        },
{
    let mut i: usize = 0;
    while i < advertised.len()
        invariant
            i <= advertised@.len(),
            forall|j: int| 0 <= j < i ==> (#[trigger] advertised@[j]).name@ != name@,
        decreases advertised@.len() - i,
    {
        if text::same(advertised[i].name.as_str(), name) {
            proof {
                advertised_job_at(advertised@, name@, i as int);
            }
            return Some(&advertised[i]);
        }
        i += 1;
    }
    proof {
        advertised_job_at(advertised@, name@, i as int);
    }
    None
}

/// A job that is not where it was.
pub open spec fn removed_job(
    job_index: usize,
    job_name: Seq<char>,
    saved: Seq<char>,
    complaint: Seq<char>,
) -> DiffView {
    DiffView {
        kind: WorkflowSchemaDiffKind::JobRemoved,
        job_index,
        job_name,
        field_name: None,
        saved: Some(saved),
        current: None,
        incompatible: true,
        message: job_label(job_index) + " "@ + job_name + complaint,
    }
}

fn report_removed_job(job_index: usize, job_name: &str, saved: &str, complaint: &str) -> (r:
    WorkflowSchemaDiff)
    requires
        job_index < usize::MAX,
    ensures
        r@ == removed_job(job_index, job_name@, saved@, complaint@),
{
    let mut message = job_text(job_index);
    message.append(" ");
    message.append(job_name);
    message.append(complaint);
    WorkflowSchemaDiff {
        kind: WorkflowSchemaDiffKind::JobRemoved,
        job_index,
        job_name: job_name.to_owned(),
        field_name: None,
        saved: Some(saved.to_owned()),
        current: None,
        incompatible: true,
        message,
    }
}

/// What has become of the job at `i` of a workflow.
pub open spec fn workflow_job_diff(
    definition: WorkflowDefinition,
    snapshot: Seq<JobDefinitionResponse>,
    advertised: Seq<Vec<JobDefinitionResponse>>,
    i: int,
) -> Seq<DiffView> {
    let name = definition.jobs@[i].runner_job_name@;
    if i >= snapshot.len() {
        seq![removed_job(i as usize, name, name, " is missing from the saved schema snapshot"@)]
    } else {
        match advertised_job(advertised[i]@, name) {
            None => seq![
                removed_job(
                    i as usize,
                    name,
                    snapshot[i].name@,
                    " is no longer advertised by its runner"@,
                ),
            ],
            Some(current) => job_diff(
                i as usize,
                name,
                snapshot[i],
                current,
                bound_input(definition, i as usize),
                referenced_output(definition, i as usize),
            ),
        }
    }
}

/// What has become of the first `n` jobs of a workflow.
pub open spec fn jobs_diff(
    definition: WorkflowDefinition,
    snapshot: Seq<JobDefinitionResponse>,
    advertised: Seq<Vec<JobDefinitionResponse>>,
    n: nat,
) -> Seq<DiffView>
    decreases n,
{
    if n == 0 {
        Seq::empty()
    } else {
        jobs_diff(definition, snapshot, advertised, (n - 1) as nat) + workflow_job_diff(
            definition,
            snapshot,
            advertised,
            n - 1,
        )
    }
}

/// The saved jobs from `first` to `n` that the workflow does not have.
pub open spec fn extra_jobs(snapshot: Seq<JobDefinitionResponse>, first: nat, n: nat) -> Seq<
    DiffView,
>
    decreases n,
{
    if n <= first {
        Seq::empty()
    } else {
        extra_jobs(snapshot, first, (n - 1) as nat).push(
            removed_job(
                (n - 1) as usize,
                snapshot[n - 1].name@,
                snapshot[n - 1].name@,
                " exists in the saved schema snapshot but not in the workflow definition"@,
            ),
        )
    }
}

/// Everything that has become of a workflow's jobs.
pub open spec fn workflow_diff(
    definition: WorkflowDefinition,
    snapshot: Seq<JobDefinitionResponse>,
    advertised: Seq<Vec<JobDefinitionResponse>>,
) -> Seq<DiffView> {
    jobs_diff(definition, snapshot, advertised, definition.jobs@.len()) + extra_jobs(
        snapshot,
        definition.jobs@.len(),
        snapshot.len(),
    )
}

/// How a workflow with these differences stands: the worst of them decides.
pub open spec fn status_of(diff: Seq<DiffView>) -> WorkflowSchemaStatus {
    if exists|i: int| 0 <= i < diff.len() && (#[trigger] diff[i]).incompatible {
        WorkflowSchemaStatus::Incompatible
    } else if exists|i: int| 0 <= i < diff.len() && (#[trigger] diff[i]).stale() {
        WorkflowSchemaStatus::Stale
    } else {
        WorkflowSchemaStatus::Current
    }
}

fn find_status(diff: &Vec<WorkflowSchemaDiff>) -> (r: WorkflowSchemaStatus)
    ensures
        r == status_of(diff_views(diff@)),
{
    let ghost views = diff_views(diff@);
    let mut stale = false;
    let mut i: usize = 0;
    while i < diff.len()
        invariant
            i <= diff@.len(),
            views == diff_views(diff@),
            forall|j: int| 0 <= j < i ==> !(#[trigger] views[j]).incompatible,
            stale == exists|j: int| 0 <= j < i && (#[trigger] views[j]).stale(),
        decreases diff@.len() - i,
    {
        assert(views[i as int] == diff@[i as int]@);
        if diff[i].incompatible {
            return WorkflowSchemaStatus::Incompatible;
        }
        if diff[i].is_stale() {
            stale = true;
        }
        i += 1;
    }
    if stale {
        WorkflowSchemaStatus::Stale
    } else {
        WorkflowSchemaStatus::Current
    }
}

/// Compares a workflow with the jobs that it was written against, which
/// `snapshot` holds in order, and with the jobs that its runners advertise:
/// `advertised` holds, for each job of the workflow, those of its runner.
pub fn workflow_schema_report(
    definition: &WorkflowDefinition,
    snapshot: &Vec<JobDefinitionResponse>,
    advertised: &Vec<Vec<JobDefinitionResponse>>,
) -> (r: WorkflowSchemaReport)
    requires
        advertised@.len() == definition.jobs@.len(),
    ensures
        diff_views(r.diff@) == workflow_diff(*definition, snapshot@, advertised@),
        r.status == status_of(diff_views(r.diff@)),
{
    let mut diff: Vec<WorkflowSchemaDiff> = Vec::new();
    assert(diff_views(diff@) =~= Seq::empty());
    let jobs = definition.jobs.len();
    let mut i: usize = 0;
    while i < jobs
        invariant
            i <= jobs,
            jobs == definition.jobs@.len(),
            advertised@.len() == definition.jobs@.len(),
            diff_views(diff@) == jobs_diff(*definition, snapshot@, advertised@, i as nat),
        decreases jobs - i,
    {
        let name = definition.jobs[i].runner_job_name.as_str();
        let ghost before = diff_views(diff@);
        let ghost here = workflow_job_diff(*definition, snapshot@, advertised@, i as int);
        if i >= snapshot.len() {
            let item = report_removed_job(
                i,
                name,
                name,
                " is missing from the saved schema snapshot",
            );
            assert(seq![item@] =~= here);
            push_diff(&mut diff, item);
        } else {
            match find_advertised(&advertised[i], name) {
                None => {
                    let item = report_removed_job(
                        i,
                        name,
                        snapshot[i].name.as_str(),
                        " is no longer advertised by its runner",
                    );
                    assert(seq![item@] =~= here);
                    push_diff(&mut diff, item);
                },
                Some(current) => {
                    let bound = workflow_bound_inputs(definition, i);
                    let referenced = workflow_referenced_outputs(definition, i);
                    let mut found = diff_job_schema(
                        i,
                        name,
                        &snapshot[i],
                        current,
                        &bound,
                        &referenced,
                    );
                    assert(diff_views(found@) == here);
                    let ghost added = found@;
                    let ghost earlier = diff@;
                    diff.append(&mut found);
                    assert(diff_views(diff@) =~= diff_views(earlier) + diff_views(added));
                },
            }
        }
        assert(diff_views(diff@) == before + here);
        i += 1;
    }
    let ghost first = diff_views(diff@);
    let saved = snapshot.len();
    let mut k: usize = jobs;
    assert(first + extra_jobs(snapshot@, jobs as nat, jobs as nat) =~= first);
    while k < saved
        invariant
            jobs <= k,
            k <= saved || k == jobs,
            saved == snapshot@.len(),
            diff_views(diff@) == first + extra_jobs(snapshot@, jobs as nat, k as nat),
        decreases saved - k,
    {
        let name = snapshot[k].name.as_str();
        let item = report_removed_job(
            k,
            name,
            name,
            " exists in the saved schema snapshot but not in the workflow definition",
        );
        let ghost extra = extra_jobs(snapshot@, jobs as nat, k as nat);
        push_diff(&mut diff, item);
        assert(first + extra + seq![item@] =~= first + extra.push(item@));
        k += 1;
    }
    proof {
        if saved <= jobs {
            assert(extra_jobs(snapshot@, jobs as nat, saved as nat) =~= Seq::empty());
        }
    }
    let status = find_status(&diff);
    WorkflowSchemaReport { status, diff }
}

/// A job does not differ from itself.
pub proof fn same_job_has_no_diff(
    job_index: usize,
    job_name: Seq<char>,
    job: JobDefinitionResponse,
    bound: spec_fn(Seq<char>) -> bool,
    referenced: spec_fn(Seq<char>) -> bool,
)
    requires
        names::names_sorted(job.inputs@),
        names::names_sorted(job.outputs@),
    ensures
        job_diff(job_index, job_name, job, job, bound, referenced).len() == 0,
{
    let (inputs, outputs) = (job.inputs@, job.outputs@);
    assert forall|i: int| 0 <= i < inputs.len() implies added_input(job_index, job_name, inputs)(
        #[trigger] inputs[i],
    ).len() == 0 by {
        names::lookup_at(inputs, i);
    }
    assert forall|i: int| 0 <= i < inputs.len() implies changed_input(
        job_index,
        job_name,
        inputs,
        bound,
    )(#[trigger] inputs[i]).len() == 0 by {
        names::lookup_at(inputs, i);
    }
    assert forall|i: int| 0 <= i < outputs.len() implies added_output(job_index, job_name, outputs)(
        #[trigger] outputs[i],
    ).len() == 0 by {
        names::lookup_at(outputs, i);
    }
    assert forall|i: int| 0 <= i < outputs.len() implies changed_output(
        job_index,
        job_name,
        outputs,
        referenced,
    )(#[trigger] outputs[i]).len() == 0 by {
        names::lookup_at(outputs, i);
    }
    nothing_collected(inputs, added_input(job_index, job_name, inputs));
    nothing_collected(inputs, changed_input(job_index, job_name, inputs, bound));
    nothing_collected(outputs, added_output(job_index, job_name, outputs));
    nothing_collected(outputs, changed_output(job_index, job_name, outputs, referenced));
}

proof fn unchanged_jobs_have_no_diff(
    definition: WorkflowDefinition,
    snapshot: Seq<JobDefinitionResponse>,
    advertised: Seq<Vec<JobDefinitionResponse>>,
    n: nat,
)
    requires
        n <= snapshot.len(),
        forall|i: int|
            0 <= i < n ==> names::names_sorted((#[trigger] snapshot[i]).inputs@)
                && names::names_sorted(snapshot[i].outputs@) && advertised_job(
                advertised[i]@,
                definition.jobs@[i].runner_job_name@,
            ) == Some(snapshot[i]),
    ensures
        jobs_diff(definition, snapshot, advertised, n).len() == 0,
    decreases n,
{
    if n > 0 {
        unchanged_jobs_have_no_diff(definition, snapshot, advertised, (n - 1) as nat);
        let i = n - 1;
        assert(names::names_sorted(snapshot[i].inputs@));
        same_job_has_no_diff(
            i as usize,
            definition.jobs@[i].runner_job_name@,
            snapshot[i],
            bound_input(definition, i as usize),
            referenced_output(definition, i as usize),
        );
    }
}

/// A workflow whose runners advertise exactly the jobs that it was written
/// against is current, with nothing to report.
pub proof fn unchanged_workflow_is_current(
    definition: WorkflowDefinition,
    snapshot: Seq<JobDefinitionResponse>,
    advertised: Seq<Vec<JobDefinitionResponse>>,
)
    requires
        snapshot.len() == definition.jobs@.len(),
        forall|i: int|
            0 <= i < snapshot.len() ==> names::names_sorted((#[trigger] snapshot[i]).inputs@)
                && names::names_sorted(snapshot[i].outputs@) && advertised_job(
                advertised[i]@,
                definition.jobs@[i].runner_job_name@,
            ) == Some(snapshot[i]),
    ensures
        workflow_diff(definition, snapshot, advertised).len() == 0,
        status_of(workflow_diff(definition, snapshot, advertised)) == WorkflowSchemaStatus::Current,
{
    unchanged_jobs_have_no_diff(definition, snapshot, advertised, snapshot.len());
    assert(extra_jobs(snapshot, snapshot.len(), snapshot.len()).len() == 0);
}

proof fn collected_holds<A>(s: Seq<A>, differences: spec_fn(A) -> Seq<DiffView>, i: int, k: int)
    requires
        0 <= i < s.len(),
        0 <= k < differences(s[i]).len(),
    ensures
        collected(s, differences).contains(differences(s[i])[k]),
    decreases s.len(),
{
    let rest = s.drop_last();
    let item = differences(s[i])[k];
    let (front, back) = (collected(rest, differences), differences(s.last()));
    if i < rest.len() {
        collected_holds(rest, differences, i, k);
        let w = choose|w: int| 0 <= w < front.len() && front[w] == item;
        assert((front + back)[w] == item);
    } else {
        assert((front + back)[front.len() + k] == item);
    }
}

proof fn collected_comes_from<A>(s: Seq<A>, differences: spec_fn(A) -> Seq<DiffView>, w: int) -> (r: (
    int,
    int,
))
    requires
        0 <= w < collected(s, differences).len(),
    ensures
        0 <= r.0 < s.len(),
        0 <= r.1 < differences(s[r.0]).len(),
        collected(s, differences)[w] == differences(s[r.0])[r.1],
    decreases s.len(),
{
    let rest = s.drop_last();
    let front = collected(rest, differences);
    if w < front.len() {
        collected_comes_from(rest, differences, w)
    } else {
        (s.len() - 1, w - front.len())
    }
}

/// A new input that has to be given breaks every workflow that uses the job.
pub proof fn new_required_input_breaks(
    job_index: usize,
    job_name: Seq<char>,
    saved: JobDefinitionResponse,
    current: JobDefinitionResponse,
    bound: spec_fn(Seq<char>) -> bool,
    referenced: spec_fn(Seq<char>) -> bool,
    i: int,
)
    requires
        0 <= i < current.inputs@.len(),
        current.inputs@[i].1.required,
        !names::has_name(saved.inputs@, current.inputs@[i].0),
    ensures
        status_of(job_diff(job_index, job_name, saved, current, bound, referenced))
            == WorkflowSchemaStatus::Incompatible,
{
    let rule = added_input(job_index, job_name, saved.inputs@);
    let diff = job_diff(job_index, job_name, saved, current, bound, referenced);
    collected_holds(current.inputs@, rule, i, 0);
    let first = collected(current.inputs@, rule);
    let item = rule(current.inputs@[i])[0];
    let w = choose|w: int| 0 <= w < first.len() && first[w] == item;
    assert(diff[w] == item);
}

/// A job that only gained optional inputs and further outputs leaves workflows
/// current.
pub proof fn optional_additions_stay_current(
    job_index: usize,
    job_name: Seq<char>,
    saved: JobDefinitionResponse,
    current: JobDefinitionResponse,
    bound: spec_fn(Seq<char>) -> bool,
    referenced: spec_fn(Seq<char>) -> bool,
)
    requires
        forall|i: int|
            0 <= i < saved.inputs@.len() ==> names::lookup(
                current.inputs@,
                (#[trigger] saved.inputs@[i]).0,
            ) == Some(saved.inputs@[i].1),
        forall|i: int|
            0 <= i < saved.outputs@.len() ==> names::lookup(
                current.outputs@,
                (#[trigger] saved.outputs@[i]).0,
            ) == Some(saved.outputs@[i].1),
        forall|i: int|
            0 <= i < current.inputs@.len() && (#[trigger] current.inputs@[i]).1.required
                ==> names::has_name(saved.inputs@, current.inputs@[i].0),
    ensures
        status_of(job_diff(job_index, job_name, saved, current, bound, referenced))
            == WorkflowSchemaStatus::Current,
{
    let a = added_input(job_index, job_name, saved.inputs@);
    let b = changed_input(job_index, job_name, current.inputs@, bound);
    let c = added_output(job_index, job_name, saved.outputs@);
    let d = changed_output(job_index, job_name, current.outputs@, referenced);
    assert forall|i: int| 0 <= i < saved.inputs@.len() implies b(
        #[trigger] saved.inputs@[i],
    ).len() == 0 by {}
    assert forall|i: int| 0 <= i < saved.outputs@.len() implies d(
        #[trigger] saved.outputs@[i],
    ).len() == 0 by {}
    nothing_collected(saved.inputs@, b);
    nothing_collected(saved.outputs@, d);
    let first = collected(current.inputs@, a);
    let third = collected(current.outputs@, c);
    let diff = job_diff(job_index, job_name, saved, current, bound, referenced);
    assert(diff =~= first + third);
    assert forall|w: int| 0 <= w < diff.len() implies !(#[trigger] diff[w]).incompatible
        && !diff[w].stale() by {
        if w < first.len() {
            let (i, k) = collected_comes_from(current.inputs@, a, w);
            assert(diff[w] == a(current.inputs@[i])[k]);
        } else {
            let (i, k) = collected_comes_from(current.outputs@, c, w - first.len());
            assert(diff[w] == c(current.outputs@[i])[k]);
        }
    }
}

} // verus!
