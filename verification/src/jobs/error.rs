//! What can go wrong with job runs, and how it is reported.
use vstd::prelude::*;

use crate::artifacts::error::{ArtifactError, ArtifactErrorView};
use crate::text;

verus! {

/// An operation on job runs that failed. A `source` is the message of the cause.
#[derive(Debug)]
pub enum JobError {
    CreateDir { path: String, source: String },
    ReadFile { path: String, source: String },
    WriteFile { path: String, source: String },
    ParseMetadata { path: String, source: String },
    SerializeMetadata { source: String },
    SpawnProcess { script: String, source: String },
    WaitProcess { script: String, source: String },
    JobNotFound(String),
    JobNotRunning(String),
    UnknownJob(String),
    MissingInput(String),
    UnknownInput(String),
    InvalidInputType { name: String, expected: &'static str },
    InvalidInputValue { name: String, reason: String },
    InvalidLogLimit { max_size_mb: u64 },
    InvalidRequestBodyLimit { max_size_kb: u64 },
    RateLimitExceeded { token_name: String, limit: u32, window_seconds: u64 },
    ShuttingDown,
    Artifact(ArtifactError),
    ExpiredArtifact { name: String, artifact_id: String },
    MissingOutput { name: String, path: String },
    ConcurrencyConflict { reason: String },
    InvalidBody(&'static str),
    RequestTooLarge { max_bytes: usize },
    ParseRequestBody { source: String },
    InvalidJobId(String),
    MissingIdempotencyKey,
    InvalidIdempotencyKey(String),
    IdempotencyConflict { key: String },
}

/// The mathematical counterpart of `JobError`.
pub enum JobErrorView {
    CreateDir { path: Seq<char>, source: Seq<char> },
    ReadFile { path: Seq<char>, source: Seq<char> },
    WriteFile { path: Seq<char>, source: Seq<char> },
    ParseMetadata { path: Seq<char>, source: Seq<char> },
    SerializeMetadata { source: Seq<char> },
    SpawnProcess { script: Seq<char>, source: Seq<char> },
    WaitProcess { script: Seq<char>, source: Seq<char> },
    JobNotFound(Seq<char>),
    JobNotRunning(Seq<char>),
    UnknownJob(Seq<char>),
    MissingInput(Seq<char>),
    UnknownInput(Seq<char>),
    InvalidInputType { name: Seq<char>, expected: Seq<char> },
    InvalidInputValue { name: Seq<char>, reason: Seq<char> },
    InvalidLogLimit { max_size_mb: u64 },
    InvalidRequestBodyLimit { max_size_kb: u64 },
    RateLimitExceeded { token_name: Seq<char>, limit: u32, window_seconds: u64 },
    ShuttingDown,
    Artifact(ArtifactErrorView),
    ExpiredArtifact { name: Seq<char>, artifact_id: Seq<char> },
    MissingOutput { name: Seq<char>, path: Seq<char> },
    ConcurrencyConflict { reason: Seq<char> },
    InvalidBody(Seq<char>),
    RequestTooLarge { max_bytes: usize },
    ParseRequestBody { source: Seq<char> },
    InvalidJobId(Seq<char>),
    MissingIdempotencyKey,
    InvalidIdempotencyKey(Seq<char>),
    IdempotencyConflict { key: Seq<char> },
}

impl View for JobError {
    type V = JobErrorView;

    open spec fn view(&self) -> JobErrorView {
        match self {
            JobError::CreateDir { path, source } => JobErrorView::CreateDir { path: path@, source: source@ },
            JobError::ReadFile { path, source } => JobErrorView::ReadFile { path: path@, source: source@ },
            JobError::WriteFile { path, source } => JobErrorView::WriteFile { path: path@, source: source@ },
            JobError::ParseMetadata { path, source } => JobErrorView::ParseMetadata { path: path@, source: source@ },
            JobError::SerializeMetadata { source } => JobErrorView::SerializeMetadata { source: source@ },
            JobError::SpawnProcess { script, source } => JobErrorView::SpawnProcess { script: script@, source: source@ },
            JobError::WaitProcess { script, source } => JobErrorView::WaitProcess { script: script@, source: source@ },
            JobError::JobNotFound(job_id) => JobErrorView::JobNotFound(job_id@),
            JobError::JobNotRunning(job_id) => JobErrorView::JobNotRunning(job_id@),
            JobError::UnknownJob(name) => JobErrorView::UnknownJob(name@),
            JobError::MissingInput(name) => JobErrorView::MissingInput(name@),
            JobError::UnknownInput(name) => JobErrorView::UnknownInput(name@),
            JobError::InvalidInputType { name, expected } => JobErrorView::InvalidInputType { name: name@, expected: expected@ },
            JobError::InvalidInputValue { name, reason } => JobErrorView::InvalidInputValue { name: name@, reason: reason@ },
            JobError::InvalidLogLimit { max_size_mb } => JobErrorView::InvalidLogLimit { max_size_mb: *max_size_mb },
            JobError::InvalidRequestBodyLimit { max_size_kb } => JobErrorView::InvalidRequestBodyLimit { max_size_kb: *max_size_kb },
            JobError::RateLimitExceeded { token_name, limit, window_seconds } => JobErrorView::RateLimitExceeded { token_name: token_name@, limit: *limit, window_seconds: *window_seconds },
            JobError::ShuttingDown => JobErrorView::ShuttingDown,
            JobError::Artifact(source) => JobErrorView::Artifact(source@),
            JobError::ExpiredArtifact { name, artifact_id } => JobErrorView::ExpiredArtifact { name: name@, artifact_id: artifact_id@ },
            JobError::MissingOutput { name, path } => JobErrorView::MissingOutput { name: name@, path: path@ },
            JobError::ConcurrencyConflict { reason } => JobErrorView::ConcurrencyConflict { reason: reason@ },
            JobError::InvalidBody(message) => JobErrorView::InvalidBody(message@),
            JobError::RequestTooLarge { max_bytes } => JobErrorView::RequestTooLarge { max_bytes: *max_bytes },
            JobError::ParseRequestBody { source } => JobErrorView::ParseRequestBody { source: source@ },
            JobError::InvalidJobId(job_id) => JobErrorView::InvalidJobId(job_id@),
            JobError::MissingIdempotencyKey => JobErrorView::MissingIdempotencyKey,
            JobError::InvalidIdempotencyKey(key) => JobErrorView::InvalidIdempotencyKey(key@),
            JobError::IdempotencyConflict { key } => JobErrorView::IdempotencyConflict { key: key@ },
        }
    }
}

impl JobErrorView {
    /// The message that tells a person what went wrong.
    pub open spec fn message(self) -> Seq<char> {
        match self {
            JobErrorView::CreateDir { path, source } => "failed to create job directory "@ + path + ": "@ + source,
            JobErrorView::ReadFile { path, source } => "failed to read job file "@ + path + ": "@ + source,
            JobErrorView::WriteFile { path, source } => "failed to write job file "@ + path + ": "@ + source,
            JobErrorView::ParseMetadata { path, source } => "failed to parse job metadata "@ + path + ": "@ + source,
            JobErrorView::SerializeMetadata { source } => "failed to serialize job metadata: "@ + source,
            JobErrorView::SpawnProcess { script, source } => "failed to spawn job script "@ + script + ": "@ + source,
            JobErrorView::WaitProcess { script, source } => "failed while waiting for job script "@ + script + ": "@ + source,
            JobErrorView::JobNotFound(job_id) => "job not found: "@ + job_id,
            JobErrorView::JobNotRunning(job_id) => "job is not running: "@ + job_id,
            JobErrorView::UnknownJob(name) => "job not found: "@ + name,
            JobErrorView::MissingInput(name) => "missing required input: "@ + name,
            JobErrorView::UnknownInput(name) => "unknown input: "@ + name,
            JobErrorView::InvalidInputType { name, expected } => "invalid input type for "@ + name + ": expected "@ + expected,
            JobErrorView::InvalidInputValue { name, reason } => "invalid input value for "@ + name + ": "@ + reason,
            JobErrorView::InvalidLogLimit { max_size_mb } => "invalid job log limit in mb: "@ + text::decimal(max_size_mb as nat),
            JobErrorView::InvalidRequestBodyLimit { max_size_kb } => "invalid job request body limit in kb: "@ + text::decimal(max_size_kb as nat),
            JobErrorView::RateLimitExceeded { token_name, limit, window_seconds } => "token "@ + token_name + " exceeded job run rate limit of "@ + text::decimal(limit as nat) + " requests per "@ + text::decimal(window_seconds as nat) + " seconds"@,
            JobErrorView::ShuttingDown => "runner is shutting down and not accepting new jobs"@,
            JobErrorView::Artifact(source) => source.message(),
            JobErrorView::ExpiredArtifact { name, artifact_id } => "artifact input "@ + name + " references expired artifact "@ + artifact_id,
            JobErrorView::MissingOutput { name, path } => "required output "@ + name + " is missing at "@ + path,
            JobErrorView::ConcurrencyConflict { reason } => reason,
            JobErrorView::InvalidBody(message) => "invalid job request body: "@ + message,
            JobErrorView::RequestTooLarge { max_bytes } => "job request body exceeds configured limit of "@ + text::decimal(max_bytes as nat) + " bytes"@,
            JobErrorView::ParseRequestBody { source } => "failed to parse job request body as json: "@ + source,
            JobErrorView::InvalidJobId(job_id) => "invalid job id: "@ + job_id,
            JobErrorView::MissingIdempotencyKey => "missing idempotency key"@,
            JobErrorView::InvalidIdempotencyKey(key) => "invalid idempotency key: "@ + key,
            JobErrorView::IdempotencyConflict { key } => "idempotency key "@ + key + " does not match the original request"@,
        }
    }

    /// The error's code in protocol texts.
    pub open spec fn code(self) -> Seq<char> {
        match self {
            JobErrorView::CreateDir { .. } => "job_create_dir_failed"@,
            JobErrorView::ReadFile { .. } => "job_read_failed"@,
            JobErrorView::WriteFile { .. } => "job_write_failed"@,
            JobErrorView::ParseMetadata { .. } => "job_metadata_parse_failed"@,
            JobErrorView::SerializeMetadata { .. } => "job_metadata_serialize_failed"@,
            JobErrorView::SpawnProcess { .. } => "job_spawn_failed"@,
            JobErrorView::WaitProcess { .. } => "job_wait_failed"@,
            JobErrorView::JobNotFound(_) => "job_not_found"@,
            JobErrorView::JobNotRunning(_) => "job_not_running"@,
            JobErrorView::UnknownJob(_) => "job_name_not_found"@,
            JobErrorView::MissingInput(_) => "job_missing_input"@,
            JobErrorView::UnknownInput(_) => "job_unknown_input"@,
            JobErrorView::InvalidInputType { .. } => "job_invalid_input_type"@,
            JobErrorView::InvalidInputValue { .. } => "job_invalid_input_value"@,
            JobErrorView::InvalidLogLimit { .. } => "job_invalid_log_limit"@,
            JobErrorView::InvalidRequestBodyLimit { .. } => "job_invalid_request_body_limit"@,
            JobErrorView::RateLimitExceeded { .. } => "job_rate_limit_exceeded"@,
            JobErrorView::ShuttingDown => "job_runner_shutting_down"@,
            JobErrorView::Artifact(_) => "artifact_error"@,
            JobErrorView::ExpiredArtifact { .. } => "artifact_expired"@,
            JobErrorView::MissingOutput { .. } => "job_missing_output"@,
            JobErrorView::ConcurrencyConflict { .. } => "job_concurrency_conflict"@,
            JobErrorView::InvalidBody(_) => "job_invalid_body"@,
            JobErrorView::RequestTooLarge { .. } => "job_request_body_too_large"@,
            JobErrorView::ParseRequestBody { .. } => "job_request_body_parse_failed"@,
            JobErrorView::InvalidJobId(_) => "job_invalid_id"@,
            JobErrorView::MissingIdempotencyKey => "job_missing_idempotency_key"@,
            JobErrorView::InvalidIdempotencyKey(_) => "job_invalid_idempotency_key"@,
            JobErrorView::IdempotencyConflict { .. } => "job_idempotency_conflict"@,
        }
    }

    /// The HTTP status that answers a request which met the error. A missing
    /// artifact is the request's fault here, not a missing resource.
    pub open spec fn status_code(self) -> u16 {
        match self {
            JobErrorView::UnknownJob(_) | JobErrorView::JobNotFound(_) => 404,
            JobErrorView::JobNotRunning(_) => 409,
            JobErrorView::ShuttingDown => 503,
            JobErrorView::MissingInput(_)
            | JobErrorView::UnknownInput(_)
            | JobErrorView::InvalidInputType { .. }
            | JobErrorView::InvalidInputValue { .. }
            | JobErrorView::InvalidLogLimit { .. }
            | JobErrorView::InvalidRequestBodyLimit { .. }
            | JobErrorView::MissingOutput { .. }
            | JobErrorView::ExpiredArtifact { .. }
            | JobErrorView::InvalidBody(_)
            | JobErrorView::ParseRequestBody { .. }
            | JobErrorView::InvalidJobId(_)
            | JobErrorView::MissingIdempotencyKey
            | JobErrorView::InvalidIdempotencyKey(_) => 400,
            JobErrorView::RateLimitExceeded { .. } => 429,
            JobErrorView::RequestTooLarge { .. } => 413,
            JobErrorView::ConcurrencyConflict { .. } | JobErrorView::IdempotencyConflict { .. } => 409,
            JobErrorView::Artifact(source) => match source {
                ArtifactErrorView::NotFound(_)
                | ArtifactErrorView::MissingChecksum
                | ArtifactErrorView::ChecksumMismatch { .. }
                | ArtifactErrorView::TooLarge { .. }
                | ArtifactErrorView::InvalidArtifactId(_)
                | ArtifactErrorView::InvalidHeader { .. }
                | ArtifactErrorView::ParseExpiry { .. } => 400,
                ArtifactErrorView::RateLimitExceeded { .. } => 429,
                ArtifactErrorView::ParseMetadata { .. }
                | ArtifactErrorView::CreateDir { .. }
                | ArtifactErrorView::ReadDir { .. }
                | ArtifactErrorView::ReadFile { .. }
                | ArtifactErrorView::RemoveDir { .. }
                | ArtifactErrorView::WriteFile { .. }
                | ArtifactErrorView::SerializeMetadata { .. }
                | ArtifactErrorView::InvalidMaxSize { .. }
                | ArtifactErrorView::InvalidBody(_)
                | ArtifactErrorView::TimeOverflow => 500,
            },
            JobErrorView::CreateDir { .. }
            | JobErrorView::ReadFile { .. }
            | JobErrorView::WriteFile { .. }
            | JobErrorView::ParseMetadata { .. }
            | JobErrorView::SpawnProcess { .. }
            | JobErrorView::WaitProcess { .. }
            | JobErrorView::SerializeMetadata { .. } => 500,
        }
    }

    /// How many seconds a refused client is told to wait.
    pub open spec fn retry_after(self) -> Option<u64> {
        match self {
            JobErrorView::RateLimitExceeded { window_seconds, .. } => Some(window_seconds),
            JobErrorView::Artifact(source) => source.retry_after(),
            _ => None,
        }
    }
}

impl JobError {
    /// The message that tells a person what went wrong.
    pub fn message(&self) -> (r: String)
        ensures
            r@ == self@.message(),
    {
        match self {
            JobError::CreateDir { path, source } => {
                let mut out = "failed to create job directory ".to_owned();
                out.append(path.as_str());
                out.append(": ");
                out.append(source.as_str());
                out
            },
            JobError::ReadFile { path, source } => {
                let mut out = "failed to read job file ".to_owned();
                out.append(path.as_str());
                out.append(": ");
                out.append(source.as_str());
                out
            },
            JobError::WriteFile { path, source } => {
                let mut out = "failed to write job file ".to_owned();
                out.append(path.as_str());
                out.append(": ");
                out.append(source.as_str());
                out
            },
            JobError::ParseMetadata { path, source } => {
                let mut out = "failed to parse job metadata ".to_owned();
                out.append(path.as_str());
                out.append(": ");
                out.append(source.as_str());
                out
            },
            JobError::SerializeMetadata { source } => {
                let mut out = "failed to serialize job metadata: ".to_owned();
                out.append(source.as_str());
                out
            },
            JobError::SpawnProcess { script, source } => {
                let mut out = "failed to spawn job script ".to_owned();
                out.append(script.as_str());
                out.append(": ");
                out.append(source.as_str());
                out
            },
            JobError::WaitProcess { script, source } => {
                let mut out = "failed while waiting for job script ".to_owned();
                out.append(script.as_str());
                out.append(": ");
                out.append(source.as_str());
                out
            },
            JobError::JobNotFound(job_id) => {
                let mut out = "job not found: ".to_owned();
                out.append(job_id.as_str());
                out
            },
            JobError::JobNotRunning(job_id) => {
                let mut out = "job is not running: ".to_owned();
                out.append(job_id.as_str());
                out
            },
            JobError::UnknownJob(name) => {
                let mut out = "job not found: ".to_owned();
                out.append(name.as_str());
                out
            },
            JobError::MissingInput(name) => {
                let mut out = "missing required input: ".to_owned();
                out.append(name.as_str());
                out
            },
            JobError::UnknownInput(name) => {
                let mut out = "unknown input: ".to_owned();
                out.append(name.as_str());
                out
            },
            JobError::InvalidInputType { name, expected } => {
                let mut out = "invalid input type for ".to_owned();
                out.append(name.as_str());
                out.append(": expected ");
                out.append(expected);
                out
            },
            JobError::InvalidInputValue { name, reason } => {
                let mut out = "invalid input value for ".to_owned();
                out.append(name.as_str());
                out.append(": ");
                out.append(reason.as_str());
                out
            },
            JobError::InvalidLogLimit { max_size_mb } => {
                let mut out = "invalid job log limit in mb: ".to_owned();
                out.append(text::decimal_text(*max_size_mb).as_str());
                out
            },
            JobError::InvalidRequestBodyLimit { max_size_kb } => {
                let mut out = "invalid job request body limit in kb: ".to_owned();
                out.append(text::decimal_text(*max_size_kb).as_str());
                out
            },
            JobError::RateLimitExceeded { token_name, limit, window_seconds } => {
                let mut out = "token ".to_owned();
                out.append(token_name.as_str());
                out.append(" exceeded job run rate limit of ");
                out.append(text::decimal_text(*limit as u64).as_str());
                out.append(" requests per ");
                out.append(text::decimal_text(*window_seconds).as_str());
                out.append(" seconds");
                out
            },
            JobError::ShuttingDown => "runner is shutting down and not accepting new jobs".to_owned(),
            JobError::Artifact(source) => source.message(),
            JobError::ExpiredArtifact { name, artifact_id } => {
                let mut out = "artifact input ".to_owned();
                out.append(name.as_str());
                out.append(" references expired artifact ");
                out.append(artifact_id.as_str());
                out
            },
            JobError::MissingOutput { name, path } => {
                let mut out = "required output ".to_owned();
                out.append(name.as_str());
                out.append(" is missing at ");
                out.append(path.as_str());
                out
            },
            JobError::ConcurrencyConflict { reason } => reason.clone(),
            JobError::InvalidBody(message) => {
                let mut out = "invalid job request body: ".to_owned();
                out.append(message);
                out
            },
            JobError::RequestTooLarge { max_bytes } => {
                let mut out = "job request body exceeds configured limit of ".to_owned();
                out.append(text::decimal_text(*max_bytes as u64).as_str());
                out.append(" bytes");
                out
            },
            JobError::ParseRequestBody { source } => {
                let mut out = "failed to parse job request body as json: ".to_owned();
                out.append(source.as_str());
                out
            },
            JobError::InvalidJobId(job_id) => {
                let mut out = "invalid job id: ".to_owned();
                out.append(job_id.as_str());
                out
            },
            JobError::MissingIdempotencyKey => "missing idempotency key".to_owned(),
            JobError::InvalidIdempotencyKey(key) => {
                let mut out = "invalid idempotency key: ".to_owned();
                out.append(key.as_str());
                out
            },
            JobError::IdempotencyConflict { key } => {
                let mut out = "idempotency key ".to_owned();
                out.append(key.as_str());
                out.append(" does not match the original request");
                out
            },
        }
    }

    /// The error's code in protocol texts.
    pub fn code(&self) -> (r: &'static str)
        ensures
            r@ == self@.code(),
    {
        match self {
            JobError::CreateDir { .. } => "job_create_dir_failed",
            JobError::ReadFile { .. } => "job_read_failed",
            JobError::WriteFile { .. } => "job_write_failed",
            JobError::ParseMetadata { .. } => "job_metadata_parse_failed",
            JobError::SerializeMetadata { .. } => "job_metadata_serialize_failed",
            JobError::SpawnProcess { .. } => "job_spawn_failed",
            JobError::WaitProcess { .. } => "job_wait_failed",
            JobError::JobNotFound(_) => "job_not_found",
            JobError::JobNotRunning(_) => "job_not_running",
            JobError::UnknownJob(_) => "job_name_not_found",
            JobError::MissingInput(_) => "job_missing_input",
            JobError::UnknownInput(_) => "job_unknown_input",
            JobError::InvalidInputType { .. } => "job_invalid_input_type",
            JobError::InvalidInputValue { .. } => "job_invalid_input_value",
            JobError::InvalidLogLimit { .. } => "job_invalid_log_limit",
            JobError::InvalidRequestBodyLimit { .. } => "job_invalid_request_body_limit",
            JobError::RateLimitExceeded { .. } => "job_rate_limit_exceeded",
            JobError::ShuttingDown => "job_runner_shutting_down",
            JobError::Artifact(_) => "artifact_error",
            JobError::ExpiredArtifact { .. } => "artifact_expired",
            JobError::MissingOutput { .. } => "job_missing_output",
            JobError::ConcurrencyConflict { .. } => "job_concurrency_conflict",
            JobError::InvalidBody(_) => "job_invalid_body",
            JobError::RequestTooLarge { .. } => "job_request_body_too_large",
            JobError::ParseRequestBody { .. } => "job_request_body_parse_failed",
            JobError::InvalidJobId(_) => "job_invalid_id",
            JobError::MissingIdempotencyKey => "job_missing_idempotency_key",
            JobError::InvalidIdempotencyKey(_) => "job_invalid_idempotency_key",
            JobError::IdempotencyConflict { .. } => "job_idempotency_conflict",
        }
    }

    /// The HTTP status that answers a request which met the error.
    pub fn status_code(&self) -> (r: u16)
        ensures
            r == self@.status_code(),
    {
        match self {
            JobError::UnknownJob(_) | JobError::JobNotFound(_) => 404,
            JobError::JobNotRunning(_) => 409,
            JobError::ShuttingDown => 503,
            JobError::MissingInput(_)
            | JobError::UnknownInput(_)
            | JobError::InvalidInputType { .. }
            | JobError::InvalidInputValue { .. }
            | JobError::InvalidLogLimit { .. }
            | JobError::InvalidRequestBodyLimit { .. }
            | JobError::MissingOutput { .. }
            | JobError::ExpiredArtifact { .. }
            | JobError::InvalidBody(_)
            | JobError::ParseRequestBody { .. }
            | JobError::InvalidJobId(_)
            | JobError::MissingIdempotencyKey
            | JobError::InvalidIdempotencyKey(_) => 400,
            JobError::RateLimitExceeded { .. } => 429,
            JobError::RequestTooLarge { .. } => 413,
            JobError::ConcurrencyConflict { .. } | JobError::IdempotencyConflict { .. } => 409,
            JobError::Artifact(source) => match source {
                ArtifactError::NotFound(_)
                | ArtifactError::MissingChecksum
                | ArtifactError::ChecksumMismatch { .. }
                | ArtifactError::TooLarge { .. }
                | ArtifactError::InvalidArtifactId(_)
                | ArtifactError::InvalidHeader { .. }
                | ArtifactError::ParseExpiry { .. } => 400,
                ArtifactError::RateLimitExceeded { .. } => 429,
                ArtifactError::ParseMetadata { .. }
                | ArtifactError::CreateDir { .. }
                | ArtifactError::ReadDir { .. }
                | ArtifactError::ReadFile { .. }
                | ArtifactError::RemoveDir { .. }
                | ArtifactError::WriteFile { .. }
                | ArtifactError::SerializeMetadata { .. }
                | ArtifactError::InvalidMaxSize { .. }
                | ArtifactError::InvalidBody(_)
                | ArtifactError::TimeOverflow => 500,
            },
            JobError::CreateDir { .. }
            | JobError::ReadFile { .. }
            | JobError::WriteFile { .. }
            | JobError::ParseMetadata { .. }
            | JobError::SpawnProcess { .. }
            | JobError::WaitProcess { .. }
            | JobError::SerializeMetadata { .. } => 500,
        }
    }

    /// How many seconds a refused client is told to wait.
    pub fn retry_after(&self) -> (r: Option<u64>)
        ensures
            r == self@.retry_after(),
    {
        match self {
            JobError::RateLimitExceeded { window_seconds, .. } => Some(*window_seconds),
            JobError::Artifact(source) => source.retry_after(),
            _ => None,
        }
    }
}

impl From<ArtifactError> for JobError {
    fn from(value: ArtifactError) -> (r: Self) {
        JobError::Artifact(value)
    }
}

impl vstd::std_specs::convert::FromSpecImpl<ArtifactError> for JobError {
    open spec fn obeys_from_spec() -> bool {
        true
    }

    open spec fn from_spec(value: ArtifactError) -> Self {
        JobError::Artifact(value)
    }
}

/// What a client is told of an error.
#[derive(Debug)]
pub struct JobErrorResponse {
    pub code: &'static str,
    pub message: String,
}

impl JobErrorResponse {
    pub fn from_job_error(error: &JobError) -> (r: Self)
        ensures
            r.code@ == error@.code(),
            r.message@ == error@.message(),
    {
        JobErrorResponse { code: error.code(), message: error.message() }
    }
}

} // verus!
