//! What can go wrong with artifacts, and how it is reported.
use vstd::prelude::*;

use crate::text;

verus! {

/// An operation on artifacts that failed. A `source` is the message of the cause.
#[derive(Debug)]
pub enum ArtifactError {
    InvalidMaxSize { max_size_mb: u64 },
    CreateDir { path: String, source: String },
    ReadDir { path: String, source: String },
    RemoveDir { path: String, source: String },
    WriteFile { path: String, source: String },
    ReadFile { path: String, source: String },
    SerializeMetadata { source: String },
    ParseMetadata { path: String, source: String },
    ParseExpiry { expires_at: String, source: String },
    MissingChecksum,
    ChecksumMismatch { expected: String, actual: String },
    TooLarge { size: usize, max: usize },
    RateLimitExceeded { token_name: String, limit: u32, window_seconds: u64 },
    NotFound(String),
    InvalidArtifactId(String),
    InvalidBody(String),
    InvalidHeader { name: &'static str, message: String },
    TimeOverflow,
}

/// The mathematical counterpart of `ArtifactError`.
pub enum ArtifactErrorView {
    InvalidMaxSize { max_size_mb: u64 },
    CreateDir { path: Seq<char>, source: Seq<char> },
    ReadDir { path: Seq<char>, source: Seq<char> },
    RemoveDir { path: Seq<char>, source: Seq<char> },
    WriteFile { path: Seq<char>, source: Seq<char> },
    ReadFile { path: Seq<char>, source: Seq<char> },
    SerializeMetadata { source: Seq<char> },
    ParseMetadata { path: Seq<char>, source: Seq<char> },
    ParseExpiry { expires_at: Seq<char>, source: Seq<char> },
    MissingChecksum,
    ChecksumMismatch { expected: Seq<char>, actual: Seq<char> },
    TooLarge { size: usize, max: usize },
    RateLimitExceeded { token_name: Seq<char>, limit: u32, window_seconds: u64 },
    NotFound(Seq<char>),
    InvalidArtifactId(Seq<char>),
    InvalidBody(Seq<char>),
    InvalidHeader { name: Seq<char>, message: Seq<char> },
    TimeOverflow,
}

impl View for ArtifactError {
    type V = ArtifactErrorView;

    open spec fn view(&self) -> ArtifactErrorView {
        match self {
            ArtifactError::InvalidMaxSize { max_size_mb } => ArtifactErrorView::InvalidMaxSize { max_size_mb: *max_size_mb },
            ArtifactError::CreateDir { path, source } => ArtifactErrorView::CreateDir { path: path@, source: source@ },
            ArtifactError::ReadDir { path, source } => ArtifactErrorView::ReadDir { path: path@, source: source@ },
            ArtifactError::RemoveDir { path, source } => ArtifactErrorView::RemoveDir { path: path@, source: source@ },
            ArtifactError::WriteFile { path, source } => ArtifactErrorView::WriteFile { path: path@, source: source@ },
            ArtifactError::ReadFile { path, source } => ArtifactErrorView::ReadFile { path: path@, source: source@ },
            ArtifactError::SerializeMetadata { source } => ArtifactErrorView::SerializeMetadata { source: source@ },
            ArtifactError::ParseMetadata { path, source } => ArtifactErrorView::ParseMetadata { path: path@, source: source@ },
            ArtifactError::ParseExpiry { expires_at, source } => ArtifactErrorView::ParseExpiry { expires_at: expires_at@, source: source@ },
            ArtifactError::MissingChecksum => ArtifactErrorView::MissingChecksum,
            ArtifactError::ChecksumMismatch { expected, actual } => ArtifactErrorView::ChecksumMismatch { expected: expected@, actual: actual@ },
            ArtifactError::TooLarge { size, max } => ArtifactErrorView::TooLarge { size: *size, max: *max },
            ArtifactError::RateLimitExceeded { token_name, limit, window_seconds } => ArtifactErrorView::RateLimitExceeded { token_name: token_name@, limit: *limit, window_seconds: *window_seconds },
            ArtifactError::NotFound(artifact_id) => ArtifactErrorView::NotFound(artifact_id@),
            ArtifactError::InvalidArtifactId(artifact_id) => ArtifactErrorView::InvalidArtifactId(artifact_id@),
            ArtifactError::InvalidBody(source) => ArtifactErrorView::InvalidBody(source@),
            ArtifactError::InvalidHeader { name, message } => ArtifactErrorView::InvalidHeader { name: name@, message: message@ },
            ArtifactError::TimeOverflow => ArtifactErrorView::TimeOverflow,
        }
    }
}

impl ArtifactErrorView {
    /// The message that tells a person what went wrong.
    pub open spec fn message(self) -> Seq<char> {
        match self {
            ArtifactErrorView::InvalidMaxSize { max_size_mb } => "invalid artifact max size in mb: "@ + text::decimal(max_size_mb as nat),
            ArtifactErrorView::CreateDir { path, source } => "failed to create artifact directory "@ + path + ": "@ + source,
            ArtifactErrorView::ReadDir { path, source } => "failed to read artifact directory "@ + path + ": "@ + source,
            ArtifactErrorView::RemoveDir { path, source } => "failed to remove artifact directory "@ + path + ": "@ + source,
            ArtifactErrorView::WriteFile { path, source } => "failed to write artifact file "@ + path + ": "@ + source,
            ArtifactErrorView::ReadFile { path, source } => "failed to read artifact file "@ + path + ": "@ + source,
            ArtifactErrorView::SerializeMetadata { source } => "failed to serialize artifact metadata: "@ + source,
            ArtifactErrorView::ParseMetadata { path, source } => "failed to parse artifact metadata "@ + path + ": "@ + source,
            ArtifactErrorView::ParseExpiry { expires_at, source } => "failed to parse artifact expiry "@ + expires_at + ": "@ + source,
            ArtifactErrorView::MissingChecksum => "missing required x-sha256 header"@,
            ArtifactErrorView::ChecksumMismatch { expected, actual } => "artifact checksum mismatch: expected "@ + expected + ", got "@ + actual,
            ArtifactErrorView::TooLarge { size, max } => "artifact exceeds size limit: got "@ + text::decimal(size as nat) + " bytes, max "@ + text::decimal(max as nat) + " bytes"@,
            ArtifactErrorView::RateLimitExceeded { token_name, limit, window_seconds } => "token "@ + token_name + " exceeded artifact upload rate limit of "@ + text::decimal(limit as nat) + " requests per "@ + text::decimal(window_seconds as nat) + " seconds"@,
            ArtifactErrorView::NotFound(artifact_id) => "artifact not found: "@ + artifact_id,
            ArtifactErrorView::InvalidArtifactId(artifact_id) => "invalid artifact id: "@ + artifact_id,
            ArtifactErrorView::InvalidBody(source) => "failed to read request body: "@ + source,
            ArtifactErrorView::InvalidHeader { name, message } => "invalid header "@ + name + ": "@ + message,
            ArtifactErrorView::TimeOverflow => "artifact expiration time overflow"@,
        }
    }

    /// The error's code in protocol texts.
    pub open spec fn code(self) -> Seq<char> {
        match self {
            ArtifactErrorView::InvalidMaxSize { .. } => "artifact_invalid_max_size"@,
            ArtifactErrorView::CreateDir { .. } => "artifact_create_dir_failed"@,
            ArtifactErrorView::ReadDir { .. } => "artifact_read_dir_failed"@,
            ArtifactErrorView::RemoveDir { .. } => "artifact_remove_dir_failed"@,
            ArtifactErrorView::WriteFile { .. } => "artifact_write_failed"@,
            ArtifactErrorView::ReadFile { .. } => "artifact_read_failed"@,
            ArtifactErrorView::SerializeMetadata { .. } => "artifact_metadata_serialize_failed"@,
            ArtifactErrorView::ParseMetadata { .. } => "artifact_metadata_parse_failed"@,
            ArtifactErrorView::ParseExpiry { .. } => "artifact_expiry_parse_failed"@,
            ArtifactErrorView::MissingChecksum => "artifact_missing_checksum"@,
            ArtifactErrorView::ChecksumMismatch { .. } => "artifact_checksum_mismatch"@,
            ArtifactErrorView::TooLarge { .. } => "artifact_too_large"@,
            ArtifactErrorView::RateLimitExceeded { .. } => "artifact_rate_limit_exceeded"@,
            ArtifactErrorView::NotFound(_) => "artifact_not_found"@,
            ArtifactErrorView::InvalidArtifactId(_) => "artifact_invalid_id"@,
            ArtifactErrorView::InvalidBody(_) => "artifact_invalid_body"@,
            ArtifactErrorView::InvalidHeader { .. } => "artifact_invalid_header"@,
            ArtifactErrorView::TimeOverflow => "artifact_time_overflow"@,
        }
    }

    /// The HTTP status that answers a request which met the error.
    pub open spec fn status_code(self) -> u16 {
        match self {
            ArtifactErrorView::MissingChecksum
            | ArtifactErrorView::ChecksumMismatch { .. }
            | ArtifactErrorView::TooLarge { .. }
            | ArtifactErrorView::InvalidArtifactId(_)
            | ArtifactErrorView::InvalidBody(_)
            | ArtifactErrorView::InvalidHeader { .. } => 400,
            ArtifactErrorView::RateLimitExceeded { .. } => 429,
            ArtifactErrorView::NotFound(_) => 404,
            _ => 500,
        }
    }

    /// How many seconds a refused client is told to wait.
    pub open spec fn retry_after(self) -> Option<u64> {
        match self {
            ArtifactErrorView::RateLimitExceeded { window_seconds, .. } => Some(window_seconds),
            _ => None,
        }
    }
}

impl ArtifactError {
    /// The message that tells a person what went wrong.
    pub fn message(&self) -> (r: String)
        ensures
            r@ == self@.message(),
    {
        match self {
            ArtifactError::InvalidMaxSize { max_size_mb } => {
                let mut out = "invalid artifact max size in mb: ".to_owned();
                out.append(text::decimal_text(*max_size_mb).as_str());
                out
            },
            ArtifactError::CreateDir { path, source } => {
                let mut out = "failed to create artifact directory ".to_owned();
                out.append(path.as_str());
                out.append(": ");
                out.append(source.as_str());
                out
            },
            ArtifactError::ReadDir { path, source } => {
                let mut out = "failed to read artifact directory ".to_owned();
                out.append(path.as_str());
                out.append(": ");
                out.append(source.as_str());
                out
            },
            ArtifactError::RemoveDir { path, source } => {
                let mut out = "failed to remove artifact directory ".to_owned();
                out.append(path.as_str());
                out.append(": ");
                out.append(source.as_str());
                out
            },
            ArtifactError::WriteFile { path, source } => {
                let mut out = "failed to write artifact file ".to_owned();
                out.append(path.as_str());
                out.append(": ");
                out.append(source.as_str());
                out
            },
            ArtifactError::ReadFile { path, source } => {
                let mut out = "failed to read artifact file ".to_owned();
                out.append(path.as_str());
                out.append(": ");
                out.append(source.as_str());
                out
            },
            ArtifactError::SerializeMetadata { source } => {
                let mut out = "failed to serialize artifact metadata: ".to_owned();
                out.append(source.as_str());
                out
            },
            ArtifactError::ParseMetadata { path, source } => {
                let mut out = "failed to parse artifact metadata ".to_owned();
                out.append(path.as_str());
                out.append(": ");
                out.append(source.as_str());
                out
            },
            ArtifactError::ParseExpiry { expires_at, source } => {
                let mut out = "failed to parse artifact expiry ".to_owned();
                out.append(expires_at.as_str());
                out.append(": ");
                out.append(source.as_str());
                out
            },
            ArtifactError::MissingChecksum => "missing required x-sha256 header".to_owned(),
            ArtifactError::ChecksumMismatch { expected, actual } => {
                let mut out = "artifact checksum mismatch: expected ".to_owned();
                out.append(expected.as_str());
                out.append(", got ");
                out.append(actual.as_str());
                out
            },
            ArtifactError::TooLarge { size, max } => {
                let mut out = "artifact exceeds size limit: got ".to_owned();
                out.append(text::decimal_text(*size as u64).as_str());
                out.append(" bytes, max ");
                out.append(text::decimal_text(*max as u64).as_str());
                out.append(" bytes");
                out
            },
            ArtifactError::RateLimitExceeded { token_name, limit, window_seconds } => {
                let mut out = "token ".to_owned();
                out.append(token_name.as_str());
                out.append(" exceeded artifact upload rate limit of ");
                out.append(text::decimal_text(*limit as u64).as_str());
                out.append(" requests per ");
                out.append(text::decimal_text(*window_seconds).as_str());
                out.append(" seconds");
                out
            },
            ArtifactError::NotFound(artifact_id) => {
                let mut out = "artifact not found: ".to_owned();
                out.append(artifact_id.as_str());
                out
            },
            ArtifactError::InvalidArtifactId(artifact_id) => {
                let mut out = "invalid artifact id: ".to_owned();
                out.append(artifact_id.as_str());
                out
            },
            ArtifactError::InvalidBody(source) => {
                let mut out = "failed to read request body: ".to_owned();
                out.append(source.as_str());
                out
            },
            ArtifactError::InvalidHeader { name, message } => {
                let mut out = "invalid header ".to_owned();
                out.append(name);
                out.append(": ");
                out.append(message.as_str());
                out
            },
            ArtifactError::TimeOverflow => "artifact expiration time overflow".to_owned(),
        }
    }

    /// The error's code in protocol texts.
    pub fn code(&self) -> (r: &'static str)
        ensures
            r@ == self@.code(),
    {
        match self {
            ArtifactError::InvalidMaxSize { .. } => "artifact_invalid_max_size",
            ArtifactError::CreateDir { .. } => "artifact_create_dir_failed",
            ArtifactError::ReadDir { .. } => "artifact_read_dir_failed",
            ArtifactError::RemoveDir { .. } => "artifact_remove_dir_failed",
            ArtifactError::WriteFile { .. } => "artifact_write_failed",
            ArtifactError::ReadFile { .. } => "artifact_read_failed",
            ArtifactError::SerializeMetadata { .. } => "artifact_metadata_serialize_failed",
            ArtifactError::ParseMetadata { .. } => "artifact_metadata_parse_failed",
            ArtifactError::ParseExpiry { .. } => "artifact_expiry_parse_failed",
            ArtifactError::MissingChecksum => "artifact_missing_checksum",
            ArtifactError::ChecksumMismatch { .. } => "artifact_checksum_mismatch",
            ArtifactError::TooLarge { .. } => "artifact_too_large",
            ArtifactError::RateLimitExceeded { .. } => "artifact_rate_limit_exceeded",
            ArtifactError::NotFound(_) => "artifact_not_found",
            ArtifactError::InvalidArtifactId(_) => "artifact_invalid_id",
            ArtifactError::InvalidBody(_) => "artifact_invalid_body",
            ArtifactError::InvalidHeader { .. } => "artifact_invalid_header",
            ArtifactError::TimeOverflow => "artifact_time_overflow",
        }
    }

    /// The HTTP status that answers a request which met the error.
    pub fn status_code(&self) -> (r: u16)
        ensures
            r == self@.status_code(),
    {
        match self {
            ArtifactError::MissingChecksum
            | ArtifactError::ChecksumMismatch { .. }
            | ArtifactError::TooLarge { .. }
            | ArtifactError::InvalidArtifactId(_)
            | ArtifactError::InvalidBody(_)
            | ArtifactError::InvalidHeader { .. } => 400,
            ArtifactError::RateLimitExceeded { .. } => 429,
            ArtifactError::NotFound(_) => 404,
            _ => 500,
        }
    }

    /// How many seconds a refused client is told to wait.
    pub fn retry_after(&self) -> (r: Option<u64>)
        ensures
            r == self@.retry_after(),
    {
        match self {
            ArtifactError::RateLimitExceeded { window_seconds, .. } => Some(*window_seconds),
            _ => None,
        }
    }
}

} // verus!
