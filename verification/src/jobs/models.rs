//! Job runs as the runner keeps them, and what it tells of them.
use vstd::prelude::*;

use crate::artifacts::metadata::ArtifactMetadata;
use crate::job::{
    FailureCategory, JobCreatedResponse, JobLogsResponse, JobOutput, JobOutputMetadata, JobStatus,
    JobStatusResponse, TerminalReason,
};
use crate::json;
use crate::json::{JsonValue, JsonView};
use crate::manifest::spec::{InputSpec, JobManifest, ManifestView, OutputSpec};
use crate::names;
use crate::names::NameMap;
use crate::schema::{
    JobDefinitionResponse, JobInputDefinitionResponse, JobOutputDefinitionResponse,
};

verus! {

/// A job run that was just started.
#[derive(Debug, Clone, PartialEq, Eq)]
pub struct JobCreated {
    pub job_id: String,
    pub status: JobStatus,
    pub started_at: String,
}

/// What the runner keeps of a job run.
#[derive(Debug, PartialEq, Eq)]
pub struct JobMetadata {
    pub job_id: String,
    pub name: String,
    pub idempotency_key: String,
    pub request_hash: String,
    pub status: JobStatus,
    pub started_at: String,
    pub finished_at: Option<String>,
    pub duration_ms: Option<u64>,
    pub exit_code: Option<i32>,
    pub terminal_reason: Option<TerminalReason>,
    pub failure_category: Option<FailureCategory>,
    pub inputs: NameMap<JsonValue>,
    pub resolved_artifacts: NameMap<String>,
    pub outputs: NameMap<JobOutput>,
    pub output_metadata: JobOutputMetadata,
}

/// The mathematical counterpart of `JobMetadata`.
pub struct JobMetadataView {
    pub job_id: Seq<char>,
    pub name: Seq<char>,
    pub idempotency_key: Seq<char>,
    pub request_hash: Seq<char>,
    pub status: JobStatus,
    pub started_at: Seq<char>,
    pub finished_at: Option<Seq<char>>,
    pub duration_ms: Option<u64>,
    pub exit_code: Option<i32>,
    pub terminal_reason: Option<TerminalReason>,
    pub failure_category: Option<FailureCategory>,
    pub inputs: Seq<(Seq<char>, JsonView)>,
    pub resolved_artifacts: Seq<(Seq<char>, Seq<char>)>,
    pub outputs: Seq<(Seq<char>, JobOutput)>,
    pub output_metadata: JobOutputMetadata,
}

/// A string by its characters.
pub open spec fn text_model() -> spec_fn(String) -> Seq<char> {
    |value: String| value@
}

impl View for JobMetadata {
    type V = JobMetadataView;

    open spec fn view(&self) -> JobMetadataView {
        JobMetadataView {
            job_id: self.job_id@,
            name: self.name@,
            idempotency_key: self.idempotency_key@,
            request_hash: self.request_hash@,
            status: self.status,
            started_at: self.started_at@,
            finished_at: match self.finished_at {
                Some(t) => Some(t@),
                None => None,
            },
            duration_ms: self.duration_ms,
            exit_code: self.exit_code,
            terminal_reason: self.terminal_reason,
            failure_category: self.failure_category,
            inputs: names::with_values(self.inputs@, json::json_model()),
            resolved_artifacts: names::with_values(self.resolved_artifacts@, text_model()),
            outputs: self.outputs@,
            output_metadata: self.output_metadata,
        }
    }
}

impl Clone for JobMetadata {
    fn clone(&self) -> (r: Self)
        ensures
            r@ == self@,
    {
        let inputs = self.inputs.clone();
        let resolved_artifacts = self.resolved_artifacts.clone();
        let outputs = self.outputs.clone();
        assert(inputs@ =~= self.inputs@);
        assert(resolved_artifacts@ =~= self.resolved_artifacts@);
        assert(outputs@ =~= self.outputs@);
        JobMetadata {
            job_id: self.job_id.clone(),
            name: self.name.clone(),
            idempotency_key: self.idempotency_key.clone(),
            request_hash: self.request_hash.clone(),
            status: self.status,
            started_at: self.started_at.clone(),
            finished_at: match &self.finished_at {
                Some(t) => Some(t.clone()),
                None => None,
            },
            duration_ms: self.duration_ms,
            exit_code: self.exit_code,
            terminal_reason: self.terminal_reason,
            failure_category: self.failure_category,
            inputs,
            resolved_artifacts,
            outputs,
            output_metadata: self.output_metadata,
        }
    }
}

/// Everything that executing a job run takes.
#[derive(Debug, Clone)]
pub struct JobExecution {
    pub manifest: JobManifest,
    pub job_id: String,
    pub metadata_path: String,
    pub work_dir: String,
    pub output_dir: String,
    pub stdout_path: String,
    pub stderr_path: String,
    pub log_limit_bytes: u64,
    pub cleanup_successful_workdirs: bool,
    pub keep_failed_workdirs: bool,
    pub metadata: JobMetadata,
    pub raw_inputs: NameMap<JsonValue>,
}

/// The mathematical counterpart of `JobExecution`.
pub struct JobExecutionView {
    pub manifest: ManifestView,
    pub job_id: Seq<char>,
    pub metadata_path: Seq<char>,
    pub work_dir: Seq<char>,
    pub output_dir: Seq<char>,
    pub stdout_path: Seq<char>,
    pub stderr_path: Seq<char>,
    pub log_limit_bytes: u64,
    pub cleanup_successful_workdirs: bool,
    pub keep_failed_workdirs: bool,
    pub metadata: JobMetadataView,
    pub raw_inputs: Seq<(Seq<char>, JsonValue)>,
}

impl View for JobExecution {
    type V = JobExecutionView;

    open spec fn view(&self) -> JobExecutionView {
        JobExecutionView {
            manifest: self.manifest@,
            job_id: self.job_id@,
            metadata_path: self.metadata_path@,
            work_dir: self.work_dir@,
            output_dir: self.output_dir@,
            stdout_path: self.stdout_path@,
            stderr_path: self.stderr_path@,
            log_limit_bytes: self.log_limit_bytes,
            cleanup_successful_workdirs: self.cleanup_successful_workdirs,
            keep_failed_workdirs: self.keep_failed_workdirs,
            metadata: self.metadata@,
            raw_inputs: self.raw_inputs@,
        }
    }
}

/// The two log streams of a job run.
#[derive(Debug, Clone, PartialEq, Eq)]
pub struct JobLogs {
    pub stdout: String,
    pub stderr: String,
}

/// A declared output that was stored as an artifact.
#[derive(Debug, Clone, PartialEq, Eq)]
pub struct JobOutputArtifact {
    pub artifact_id: String,
    pub sha256: String,
    pub size: u64,
}

/// A stored output as a client is told of it.
#[derive(Debug, Clone, PartialEq, Eq)]
pub struct JobOutputResponse {
    pub artifact_id: String,
    pub sha256: String,
    pub size: u64,
}

impl From<ArtifactMetadata> for JobOutputArtifact {
    fn from(value: ArtifactMetadata) -> (r: Self) {
        JobOutputArtifact {
            artifact_id: value.artifact_id,
            sha256: value.sha256,
            size: value.size,
        }
    }
}

impl vstd::std_specs::convert::FromSpecImpl<ArtifactMetadata> for JobOutputArtifact {
    open spec fn obeys_from_spec() -> bool {
        true
    }

    open spec fn from_spec(value: ArtifactMetadata) -> Self {
        JobOutputArtifact {
            artifact_id: value.artifact_id,
            sha256: value.sha256,
            size: value.size,
        }
    }
}

impl From<JobOutputArtifact> for JobOutput {
    fn from(value: JobOutputArtifact) -> (r: Self) {
        JobOutput::Artifact {
            artifact_id: value.artifact_id,
            sha256: value.sha256,
            size: value.size,
        }
    }
}

impl vstd::std_specs::convert::FromSpecImpl<JobOutputArtifact> for JobOutput {
    open spec fn obeys_from_spec() -> bool {
        true
    }

    open spec fn from_spec(value: JobOutputArtifact) -> Self {
        JobOutput::Artifact {
            artifact_id: value.artifact_id,
            sha256: value.sha256,
            size: value.size,
        }
    }
}

impl From<JobOutputArtifact> for JobOutputResponse {
    fn from(value: JobOutputArtifact) -> (r: Self) {
        JobOutputResponse {
            artifact_id: value.artifact_id,
            sha256: value.sha256,
            size: value.size,
        }
    }
}

impl vstd::std_specs::convert::FromSpecImpl<JobOutputArtifact> for JobOutputResponse {
    open spec fn obeys_from_spec() -> bool {
        true
    }

    open spec fn from_spec(value: JobOutputArtifact) -> Self {
        JobOutputResponse {
            artifact_id: value.artifact_id,
            sha256: value.sha256,
            size: value.size,
        }
    }
}

impl From<JobCreated> for JobCreatedResponse {
    fn from(value: JobCreated) -> (r: Self) {
        JobCreatedResponse {
            job_id: value.job_id,
            status: value.status,
            started_at: value.started_at,
        }
    }
}

impl vstd::std_specs::convert::FromSpecImpl<JobCreated> for JobCreatedResponse {
    open spec fn obeys_from_spec() -> bool {
        true
    }

    open spec fn from_spec(value: JobCreated) -> Self {
        JobCreatedResponse {
            job_id: value.job_id,
            status: value.status,
            started_at: value.started_at,
        }
    }
}

impl From<JobLogs> for JobLogsResponse {
    fn from(value: JobLogs) -> (r: Self) {
        JobLogsResponse { stdout: value.stdout, stderr: value.stderr }
    }
}

impl vstd::std_specs::convert::FromSpecImpl<JobLogs> for JobLogsResponse {
    open spec fn obeys_from_spec() -> bool {
        true
    }

    open spec fn from_spec(value: JobLogs) -> Self {
        JobLogsResponse { stdout: value.stdout, stderr: value.stderr }
    }
}

impl From<JobMetadata> for JobStatusResponse {
    fn from(value: JobMetadata) -> (r: Self) {
        JobStatusResponse {
            job_id: value.job_id,
            name: value.name,
            status: value.status,
            started_at: value.started_at,
            finished_at: value.finished_at,
            duration_ms: value.duration_ms,
            exit_code: value.exit_code,
            terminal_reason: value.terminal_reason,
            failure_category: value.failure_category,
            outputs: value.outputs,
            output_metadata: value.output_metadata,
        }
    }
}

impl vstd::std_specs::convert::FromSpecImpl<JobMetadata> for JobStatusResponse {
    open spec fn obeys_from_spec() -> bool {
        true
    }

    open spec fn from_spec(value: JobMetadata) -> Self {
        JobStatusResponse {
            job_id: value.job_id,
            name: value.name,
            status: value.status,
            started_at: value.started_at,
            finished_at: value.finished_at,
            duration_ms: value.duration_ms,
            exit_code: value.exit_code,
            terminal_reason: value.terminal_reason,
            failure_category: value.failure_category,
            outputs: value.outputs,
            output_metadata: value.output_metadata,
        }
    }
}

/// A declared input as it is advertised.
pub open spec fn advertised_input() -> spec_fn(InputSpec) -> JobInputDefinitionResponse {
    |spec: InputSpec|
        JobInputDefinitionResponse {
            kind: spec.kind,
            required: spec.required,
            sensitive: spec.sensitive,
            max_length: spec.max_length,
            pattern: spec.pattern,
            max_json_bytes: spec.max_json_bytes,
        }
}

/// A declared output as it is advertised.
pub open spec fn advertised_output() -> spec_fn(OutputSpec) -> JobOutputDefinitionResponse {
    |spec: OutputSpec|
        JobOutputDefinitionResponse { kind: spec.kind, path: spec.path, required: spec.required }
}

/// A response that advertises exactly the manifest: its name, concurrency and
/// timeout, and each input and output under its own name.
pub open spec fn advertises(manifest: ManifestView, response: JobDefinitionResponse) -> bool {
    &&& response.name@ == manifest.name
    &&& response.concurrency == manifest.concurrency
    &&& response.timeout_seconds == manifest.timeout_seconds
    &&& response.inputs@ == names::with_values(manifest.inputs, advertised_input())
    &&& response.outputs@ == names::with_values(manifest.outputs, advertised_output())
}

fn advertise_inputs(inputs: &NameMap<InputSpec>) -> (r: NameMap<JobInputDefinitionResponse>)
    ensures
        r@ == names::with_values(inputs@, advertised_input()),
{
    let mut out: NameMap<JobInputDefinitionResponse> = NameMap::new();
    let n = inputs.len();
    assert(names::with_values(inputs@.take(0), advertised_input()) =~= Seq::empty());
    let mut i: usize = 0;
    while i < n
        invariant
            i <= n,
            n == inputs@.len(),
            names::names_sorted(inputs@),
            out@ == names::with_values(inputs@.take(i as int), advertised_input()),
        decreases n - i,
    {
        let spec = inputs.value_at(i).clone();
        let name = inputs.name_at(i).clone();
        proof {
            names::inserted_last(out@, name@, advertised_input()(spec));
            assert(names::with_values(inputs@.take(i + 1), advertised_input()) =~= out@.push(
                (name@, advertised_input()(spec)),
            ));
        }
        out.insert(
            name,
            JobInputDefinitionResponse {
                kind: spec.kind,
                required: spec.required,
                sensitive: spec.sensitive,
                max_length: spec.max_length,
                pattern: spec.pattern,
                max_json_bytes: spec.max_json_bytes,
            },
        );
        i += 1;
    }
    assert(inputs@.take(i as int) =~= inputs@);
    out
}

fn advertise_outputs(outputs: &NameMap<OutputSpec>) -> (r: NameMap<JobOutputDefinitionResponse>)
    ensures
        r@ == names::with_values(outputs@, advertised_output()),
{
    let mut out: NameMap<JobOutputDefinitionResponse> = NameMap::new();
    let n = outputs.len();
    assert(names::with_values(outputs@.take(0), advertised_output()) =~= Seq::empty());
    let mut i: usize = 0;
    while i < n
        invariant
            i <= n,
            n == outputs@.len(),
            names::names_sorted(outputs@),
            out@ == names::with_values(outputs@.take(i as int), advertised_output()),
        decreases n - i,
    {
        let spec = outputs.value_at(i).clone();
        let name = outputs.name_at(i).clone();
        proof {
            names::inserted_last(out@, name@, advertised_output()(spec));
            assert(names::with_values(outputs@.take(i + 1), advertised_output()) =~= out@.push(
                (name@, advertised_output()(spec)),
            ));
        }
        out.insert(
            name,
            JobOutputDefinitionResponse {
                kind: spec.kind,
                path: spec.path,
                required: spec.required,
            },
        );
        i += 1;
    }
    assert(outputs@.take(i as int) =~= outputs@);
    out
}

impl From<JobManifest> for JobDefinitionResponse {
    fn from(value: JobManifest) -> (r: Self)
        ensures
            advertises(value@, r),
    {
        JobDefinitionResponse {
            inputs: advertise_inputs(&value.inputs),
            outputs: advertise_outputs(&value.outputs),
            name: value.name,
            concurrency: value.concurrency,
            timeout_seconds: value.timeout_seconds,
        }
    }
}

impl vstd::std_specs::convert::FromSpecImpl<JobManifest> for JobDefinitionResponse {
    /// The `ensures` of `from` says what is advertised.
    open spec fn obeys_from_spec() -> bool {
        false
    }

    open spec fn from_spec(value: JobManifest) -> Self {
        arbitrary()
    }
}

} // verus!
