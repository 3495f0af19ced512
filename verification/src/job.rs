//! Job runs as the protocol speaks of them.
use vstd::prelude::*;

use crate::json::JsonValue;
use crate::names::NameMap;
use crate::text;

verus! {

/// Why a job run ended.
#[derive(Debug, Clone, Copy, PartialEq, Eq, Structural)]
pub enum TerminalReason {
    Success,
    ExitCode,
    Timeout,
    Canceled,
    Shutdown,
    SpawnError,
    WaitError,
    CaptureError,
    LogLimitExceeded,
    MissingRequiredOutput,
    OutputRegistrationFailed,
}

impl TerminalReason {
    /// The name that stands for the value in protocol texts.
    pub open spec fn label(self) -> Seq<char> {
        match self {
            TerminalReason::Success => "success"@,
            TerminalReason::ExitCode => "exit_code"@,
            TerminalReason::Timeout => "timeout"@,
            TerminalReason::Canceled => "canceled"@,
            TerminalReason::Shutdown => "shutdown"@,
            TerminalReason::SpawnError => "spawn_error"@,
            TerminalReason::WaitError => "wait_error"@,
            TerminalReason::CaptureError => "capture_error"@,
            TerminalReason::LogLimitExceeded => "log_limit_exceeded"@,
            TerminalReason::MissingRequiredOutput => "missing_required_output"@,
            TerminalReason::OutputRegistrationFailed => "output_registration_failed"@,
        }
    }

    pub fn as_str(&self) -> (r: &'static str)
        ensures
            r@ == self.label(),
    {
        match self {
            TerminalReason::Success => "success",
            TerminalReason::ExitCode => "exit_code",
            TerminalReason::Timeout => "timeout",
            TerminalReason::Canceled => "canceled",
            TerminalReason::Shutdown => "shutdown",
            TerminalReason::SpawnError => "spawn_error",
            TerminalReason::WaitError => "wait_error",
            TerminalReason::CaptureError => "capture_error",
            TerminalReason::LogLimitExceeded => "log_limit_exceeded",
            TerminalReason::MissingRequiredOutput => "missing_required_output",
            TerminalReason::OutputRegistrationFailed => "output_registration_failed",
        }
    }
}

/// Different values have different names.
pub proof fn terminal_reason_labels_distinct()
    ensures
        forall|a: TerminalReason, b: TerminalReason| #[trigger] a.label() == #[trigger] b.label() ==> a == b,
{
    reveal_strlit("success");
    reveal_strlit("exit_code");
    reveal_strlit("timeout");
    reveal_strlit("canceled");
    reveal_strlit("shutdown");
    reveal_strlit("spawn_error");
    reveal_strlit("wait_error");
    reveal_strlit("capture_error");
    reveal_strlit("log_limit_exceeded");
    reveal_strlit("missing_required_output");
    reveal_strlit("output_registration_failed");
    assert forall|a: TerminalReason, b: TerminalReason| #[trigger] a.label() == #[trigger] b.label() implies a == b by {
        let (x, y) = (a.label(), b.label());
        assert(x.len() == y.len() && x[0] == y[0] && x[1] == y[1] && x[2] == y[2]);
    }
}

/// What a failed job run is to be blamed on.
#[derive(Debug, Clone, Copy, PartialEq, Eq, Structural)]
pub enum FailureCategory {
    Job,
    Infra,
    Timeout,
    Canceled,
}

impl FailureCategory {
    /// The name that stands for the value in protocol texts.
    pub open spec fn label(self) -> Seq<char> {
        match self {
            FailureCategory::Job => "job"@,
            FailureCategory::Infra => "infra"@,
            FailureCategory::Timeout => "timeout"@,
            FailureCategory::Canceled => "canceled"@,
        }
    }

    pub fn as_str(&self) -> (r: &'static str)
        ensures
            r@ == self.label(),
    {
        match self {
            FailureCategory::Job => "job",
            FailureCategory::Infra => "infra",
            FailureCategory::Timeout => "timeout",
            FailureCategory::Canceled => "canceled",
        }
    }
}

/// Different values have different names.
pub proof fn failure_category_labels_distinct()
    ensures
        forall|a: FailureCategory, b: FailureCategory| #[trigger] a.label() == #[trigger] b.label() ==> a == b,
{
    reveal_strlit("job");
    reveal_strlit("infra");
    reveal_strlit("timeout");
    reveal_strlit("canceled");
    assert forall|a: FailureCategory, b: FailureCategory| #[trigger] a.label() == #[trigger] b.label() implies a == b by {
        let (x, y) = (a.label(), b.label());
        assert(x.len() == y.len() && x[0] == y[0] && x[1] == y[1] && x[2] == y[2]);
    }
}

/// Where a job run stands.
#[derive(Debug, Clone, Copy, PartialEq, Eq, Structural)]
pub enum JobStatus {
    Running,
    CancelRequested,
    Canceling,
    Success,
    Failed,
    TimedOut,
    Canceled,
    Rejected,
}

impl JobStatus {
    /// The name that stands for the value in protocol texts.
    pub open spec fn label(self) -> Seq<char> {
        match self {
            JobStatus::Running => "running"@,
            JobStatus::CancelRequested => "cancel_requested"@,
            JobStatus::Canceling => "canceling"@,
            JobStatus::Success => "success"@,
            JobStatus::Failed => "failed"@,
            JobStatus::TimedOut => "timed_out"@,
            JobStatus::Canceled => "canceled"@,
            JobStatus::Rejected => "rejected"@,
        }
    }

    pub fn as_str(&self) -> (r: &'static str)
        ensures
            r@ == self.label(),
    {
        match self {
            JobStatus::Running => "running",
            JobStatus::CancelRequested => "cancel_requested",
            JobStatus::Canceling => "canceling",
            JobStatus::Success => "success",
            JobStatus::Failed => "failed",
            JobStatus::TimedOut => "timed_out",
            JobStatus::Canceled => "canceled",
            JobStatus::Rejected => "rejected",
        }
    }

    /// Reads a protocol name back.
    pub fn parse(value: &str) -> (r: Option<Self>)
        ensures
            forall|v: JobStatus| (r == Some(v)) == (#[trigger] v.label() == value@),
    {
        proof {
            job_status_labels_distinct();
        }
        let found = if text::same(value, "running") {
            Some(JobStatus::Running)
        } else if text::same(value, "cancel_requested") {
            Some(JobStatus::CancelRequested)
        } else if text::same(value, "canceling") {
            Some(JobStatus::Canceling)
        } else if text::same(value, "success") {
            Some(JobStatus::Success)
        } else if text::same(value, "failed") {
            Some(JobStatus::Failed)
        } else if text::same(value, "timed_out") {
            Some(JobStatus::TimedOut)
        } else if text::same(value, "canceled") {
            Some(JobStatus::Canceled)
        } else if text::same(value, "rejected") {
            Some(JobStatus::Rejected)
        } else {
            None
        };
        assert(found matches Some(v) ==> v.label() == value@);
        found
    }
}

/// Different values have different names.
pub proof fn job_status_labels_distinct()
    ensures
        forall|a: JobStatus, b: JobStatus| #[trigger] a.label() == #[trigger] b.label() ==> a == b,
{
    reveal_strlit("running");
    reveal_strlit("cancel_requested");
    reveal_strlit("canceling");
    reveal_strlit("success");
    reveal_strlit("failed");
    reveal_strlit("timed_out");
    reveal_strlit("canceled");
    reveal_strlit("rejected");
    assert forall|a: JobStatus, b: JobStatus| #[trigger] a.label() == #[trigger] b.label() implies a == b by {
        let (x, y) = (a.label(), b.label());
        assert(x.len() == y.len() && x[0] == y[0] && x[1] == y[1] && x[2] == y[2]);
    }
}

impl JobStatus {
    /// A status that a job run never leaves.
    pub open spec fn terminal(self) -> bool {
        !(self is Running || self is CancelRequested || self is Canceling)
    }

    pub fn is_terminal(&self) -> (r: bool)
        ensures
            r == self.terminal(),
    {
        match self {
            JobStatus::Success
            | JobStatus::Failed
            | JobStatus::TimedOut
            | JobStatus::Canceled
            | JobStatus::Rejected => true,
            _ => false,
        }
    }
}

/// How much a job run wrote to one of its streams.
#[derive(Debug, Clone, Copy, PartialEq, Eq, Structural)]
pub struct JobStreamMetadata {
    pub bytes: u64,
    pub truncated: bool,
}

/// How many artifacts a job run left, and their total size.
#[derive(Debug, Clone, Copy, PartialEq, Eq, Structural)]
pub struct JobArtifactMetadata {
    pub count: u64,
    pub bytes: u64,
}

/// What a job run produced besides its declared outputs.
#[derive(Debug, Clone, Copy, PartialEq, Eq, Structural)]
pub struct JobOutputMetadata {
    pub stdout: JobStreamMetadata,
    pub stderr: JobStreamMetadata,
    pub artifacts: JobArtifactMetadata,
}

impl Default for JobStreamMetadata {
    fn default() -> (r: Self)
        ensures
            r == (JobStreamMetadata { bytes: 0, truncated: false }),
    {
        JobStreamMetadata { bytes: 0, truncated: false }
    }
}

impl Default for JobArtifactMetadata {
    fn default() -> (r: Self)
        ensures
            r == (JobArtifactMetadata { count: 0, bytes: 0 }),
    {
        JobArtifactMetadata { count: 0, bytes: 0 }
    }
}

impl JobOutputMetadata {
    /// Nothing was produced.
    pub open spec fn nothing() -> JobOutputMetadata {
        JobOutputMetadata {
            stdout: JobStreamMetadata { bytes: 0, truncated: false },
            stderr: JobStreamMetadata { bytes: 0, truncated: false },
            artifacts: JobArtifactMetadata { count: 0, bytes: 0 },
        }
    }
}

impl Default for JobOutputMetadata {
    fn default() -> (r: Self)
        ensures
            r == JobOutputMetadata::nothing(),
    {
        JobOutputMetadata {
            stdout: JobStreamMetadata::default(),
            stderr: JobStreamMetadata::default(),
            artifacts: JobArtifactMetadata::default(),
        }
    }
}

/// A declared output of a finished job run.
#[derive(Debug, PartialEq, Eq)]
#[allow(inconsistent_fields)]
pub enum JobOutput {
    Artifact { artifact_id: String, sha256: String, size: u64 },
    String { value: String },
    Integer { value: i64 },
    Boolean { value: bool },
    Json { value: JsonValue },
}

impl Clone for JobOutput {
    fn clone(&self) -> (r: Self)
        ensures
            r == *self,
    {
        match self {
            JobOutput::Artifact { artifact_id, sha256, size } => JobOutput::Artifact {
                artifact_id: artifact_id.clone(),
                sha256: sha256.clone(),
                size: *size,
            },
            JobOutput::String { value } => JobOutput::String { value: value.clone() },
            JobOutput::Integer { value } => JobOutput::Integer { value: *value },
            JobOutput::Boolean { value } => JobOutput::Boolean { value: *value },
            JobOutput::Json { value } => JobOutput::Json { value: value.clone() },
        }
    }
}

/// The answer to a request that started a job run or found it started.
#[derive(Debug, Clone, PartialEq, Eq)]
pub struct JobCreatedResponse {
    pub job_id: String,
    pub status: JobStatus,
    pub started_at: String,
}

/// The answer to a question for a job run's state.
#[derive(Debug, Clone, PartialEq, Eq)]
pub struct JobStatusResponse {
    pub job_id: String,
    pub name: String,
    pub status: JobStatus,
    pub started_at: String,
    pub finished_at: Option<String>,
    pub duration_ms: Option<u64>,
    pub exit_code: Option<i32>,
    pub terminal_reason: Option<TerminalReason>,
    pub failure_category: Option<FailureCategory>,
    pub outputs: NameMap<JobOutput>,
    pub output_metadata: JobOutputMetadata,
}

/// The answer to a question for a job run's logs.
#[derive(Debug, Clone, PartialEq, Eq)]
pub struct JobLogsResponse {
    pub stdout: String,
    pub stderr: String,
}

} // verus!
