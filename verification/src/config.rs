//! The runner's configuration.
use vstd::prelude::*;

verus! {

/// Everything that the runner is configured with.
#[derive(Debug, Clone, PartialEq, Eq)]
pub struct Config {
    pub data_dir: String,
    pub manifests_dir: String,
    pub server: ServerConfig,
    pub auth: AuthConfig,
    pub artifacts: ArtifactsConfig,
    pub jobs: JobsConfig,
}

/// Where the runner listens.
#[derive(Debug, Clone, PartialEq, Eq)]
pub struct ServerConfig {
    pub listen: String,
}

/// Whom the runner trusts.
#[derive(Debug, Clone, PartialEq, Eq)]
pub struct AuthConfig {
    pub mode: String,
    pub tokens: Vec<AuthTokenConfig>,
    pub servers: Vec<AuthServerConfig>,
}

/// A bearer token, found in an environment variable, and what it permits.
#[derive(Debug, Clone, PartialEq, Eq)]
pub struct AuthTokenConfig {
    pub name: String,
    pub token_env: String,
    pub permissions: Vec<String>,
}

/// A server that signs its requests, its public key in Base64, and what it is
/// permitted.
#[derive(Debug, Clone, PartialEq, Eq)]
pub struct AuthServerConfig {
    pub name: String,
    pub key_id: String,
    pub public_key: String,
    pub permissions: Vec<String>,
}

/// How artifacts are kept.
#[derive(Debug, Clone, PartialEq, Eq)]
pub struct ArtifactsConfig {
    pub max_size_mb: u64,
    pub ttl_seconds: u64,
    pub cleanup_interval_seconds: u64,
    pub require_checksum_on_upload: bool,
    pub max_upload_requests_per_minute: u32,
}

/// How jobs are run.
#[derive(Debug, Clone, Copy, PartialEq, Eq)]
pub struct JobsConfig {
    pub default_log_limit_mb: u64,
    pub cleanup_successful_workdirs: bool,
    pub keep_failed_workdirs: bool,
    pub max_request_body_kb: u64,
    pub max_run_requests_per_minute: u32,
}

/// What reading the configuration file gave. A `String` is the message of the
/// failure.
#[derive(Debug)]
pub enum ConfigRead {
    Unreadable(String),
    Unparsable(String),
    Parsed(Config),
}

/// A configuration file that cannot be used. A `source` is the message of the cause.
#[derive(Debug)]
pub enum ConfigError {
    Read { path: String, source: String },
    Parse { path: String, source: String },
}

/// The mathematical counterpart of `ConfigError`.
pub enum ConfigErrorView {
    Read { path: Seq<char>, source: Seq<char> },
    Parse { path: Seq<char>, source: Seq<char> },
}

impl View for ConfigError {
    type V = ConfigErrorView;

    open spec fn view(&self) -> ConfigErrorView {
        match self {
            ConfigError::Read { path, source } => ConfigErrorView::Read { path: path@, source: source@ },
            ConfigError::Parse { path, source } => ConfigErrorView::Parse { path: path@, source: source@ },
        }
    }
}

impl ConfigErrorView {
    /// The message that tells a person what went wrong.
    pub open spec fn message(self) -> Seq<char> {
        match self {
            ConfigErrorView::Read { path, source } => "failed to read config at "@ + path + ": "@ + source,
            ConfigErrorView::Parse { path, source } => "failed to parse config at "@ + path + ": "@ + source,
        }
    }
}

impl ConfigError {
    /// The message that tells a person what went wrong.
    pub fn message(&self) -> (r: String)
        ensures
            r@ == self@.message(),
    {
        match self {
            ConfigError::Read { path, source } => {
                let mut out = "failed to read config at ".to_owned();
                out.append(path.as_str());
                out.append(": ");
                out.append(source.as_str());
                out
            },
            ConfigError::Parse { path, source } => {
                let mut out = "failed to parse config at ".to_owned();
                out.append(path.as_str());
                out.append(": ");
                out.append(source.as_str());
                out
            },
        }
    }
}

impl Config {
    /// The configuration that was read from `path`.
    pub fn load_from_path(path: &str, read: ConfigRead) -> (r: Result<Self, ConfigError>)
        ensures
            match read {
                ConfigRead::Unreadable(source) => r matches Err(e) && e@ == (ConfigErrorView::Read {
                    path: path@,
                    source: source@,
                }),
                ConfigRead::Unparsable(source) => r matches Err(e) && e@ == (
                ConfigErrorView::Parse { path: path@, source: source@ }),
                ConfigRead::Parsed(config) => r == Ok::<Config, ConfigError>(config),
            },
    {
        match read {
            ConfigRead::Unreadable(source) => Err(
                ConfigError::Read { path: path.to_owned(), source },
            ),
            ConfigRead::Unparsable(source) => Err(
                ConfigError::Parse { path: path.to_owned(), source },
            ),
            ConfigRead::Parsed(config) => Ok(config),
        }
    }
}

/// How many bytes a number of kibibytes is, where 64 bits and the machine can
/// count them.
pub open spec fn kibibytes(max_size_kb: u64) -> Option<usize> {
    if max_size_kb * 1024 <= u64::MAX && max_size_kb * 1024 <= usize::MAX {
        Some((max_size_kb * 1024) as usize)
    } else {
        None
    }
}

impl JobsConfig {
    /// The largest request body, in bytes, that starts a job.
    pub fn max_request_body_bytes(&self) -> (r: Option<usize>)
        ensures
            r == kibibytes(self.max_request_body_kb),
    {
        let bytes: u128 = self.max_request_body_kb as u128 * 1024;
        if bytes > u64::MAX as u128 || bytes > usize::MAX as u128 {
            return None;
        }
        Some(bytes as usize)
    }
}

} // verus!
