//! What clients are told.
use vstd::prelude::*;
use vstd::std_specs::convert::FromSpec;

use crate::artifact::ArtifactUploadResponse;
use crate::artifacts::error::{ArtifactError, ArtifactErrorView};
use crate::artifacts::metadata::ArtifactMetadata;
use crate::artifacts::store::ArtifactStore;
use crate::auth::error::{AuthErrorView, AuthRejection, AuthRejectionView};
use crate::auth::store as auth_store;
use crate::capabilities::RunnerCapabilitiesResponse;
use crate::config::{ConfigErrorView, JobsConfig};
use crate::job::{JobCreatedResponse, JobLogsResponse, JobOutput, JobStatus, JobStatusResponse};
use crate::jobs::api;
use crate::jobs::error::JobErrorView;
use crate::jobs::execution::{ProcessPhase, ProcessWatch};
use crate::jobs::models;
use crate::jobs::models::{JobCreated, JobLogs, JobMetadata, JobOutputArtifact, JobOutputResponse};
use crate::jobs::store as job_store;
use crate::jobs::store::JobStore;
use crate::manifest::error::ManifestErrorView;
use crate::manifest::spec::ManifestView;
use crate::paths;
use crate::runtime;
use crate::runtime::{HealthResponse, ReadinessResponse, RuntimeStatus};
use crate::schema::JobDefinitionResponse;
use crate::text;
use crate::views::markup;
use crate::views::repo;
use crate::views::repo::{PageParts, RepoCard, RepoFormView};

verus! {

/// A request is not found for what is not there, in conflict with what is going
/// on, over a limit, or answered that the runner goes down; and it is told how
/// long to wait exactly if it came too often. It is the runner's fault exactly if
/// a file or a process failed the runner, and the request's otherwise.
pub proof fn how_job_errors_are_answered(e: JobErrorView)
    ensures
        (e.status_code() == 404) == (e is UnknownJob || e is JobNotFound),
        (e.status_code() == 409) == (e is JobNotRunning || e is ConcurrencyConflict || e
            is IdempotencyConflict),
        (e.status_code() == 503) == e is ShuttingDown,
        (e.status_code() == 413) == e is RequestTooLarge,
        (e.status_code() == 429) == (e is RateLimitExceeded || (e matches JobErrorView::Artifact(a)
            && a is RateLimitExceeded)),
        (e.status_code() == 429) == e.retry_after() is Some,
        e matches JobErrorView::RateLimitExceeded { window_seconds, .. } ==> e.retry_after() == Some(
            window_seconds,
        ),
        e matches JobErrorView::Artifact(a) ==> e.retry_after() == a.retry_after(),
        (e.status_code() == 500) == {
            ||| e is CreateDir || e is ReadFile || e is WriteFile || e is ParseMetadata
            ||| e is SerializeMetadata || e is SpawnProcess || e is WaitProcess
            ||| (e matches JobErrorView::Artifact(a) && (a is ParseMetadata || a is CreateDir || a
                is ReadDir || a is ReadFile || a is RemoveDir || a is WriteFile || a
                is SerializeMetadata || a is InvalidMaxSize || a is InvalidBody || a
                is TimeOverflow))
        },
        e.status_code() == 400 || e.status_code() == 404 || e.status_code() == 409
            || e.status_code() == 413 || e.status_code() == 429 || e.status_code() == 500
            || e.status_code() == 503,
{
}

/// An artifact that is not there is not found, an upload that came too often is
/// told how long to wait, and what is wrong with the request itself is its fault.
pub proof fn how_artifact_errors_are_answered(e: ArtifactErrorView)
    ensures
        (e.status_code() == 404) == e is NotFound,
        (e.status_code() == 429) == e is RateLimitExceeded,
        (e.status_code() == 429) == e.retry_after() is Some,
        e matches ArtifactErrorView::RateLimitExceeded { window_seconds, .. } ==> e.retry_after()
            == Some(window_seconds),
        (e.status_code() == 400) == (e is MissingChecksum || e is ChecksumMismatch || e is TooLarge
            || e is InvalidArtifactId || e is InvalidBody || e is InvalidHeader),
        e.status_code() == 400 || e.status_code() == 404 || e.status_code() == 429
            || e.status_code() == 500,
{
}

/// A server that is known but not permitted is forbidden, a body over the limit
/// is too large, and every other rejection asks for authentication.
pub proof fn how_rejections_are_answered(e: AuthRejectionView)
    ensures
        (e.status_code() == 403) == e is MissingPermission,
        (e.status_code() == 413) == e is RequestTooLarge,
        (e.status_code() == 401) == !(e is MissingPermission || e is RequestTooLarge),
{
}

/// A job is advertised as it was declared: every input and every output under
/// its name, in the same order, with all that was declared of it, and no others.
pub proof fn what_is_advertised(manifest: ManifestView, response: JobDefinitionResponse, i: int)
    requires
        models::advertises(manifest, response),
    ensures
        response.name@ == manifest.name,
        response.timeout_seconds == manifest.timeout_seconds,
        response.concurrency == manifest.concurrency,
        response.inputs@.len() == manifest.inputs.len(),
        response.outputs@.len() == manifest.outputs.len(),
        0 <= i < manifest.inputs.len() ==> {
            let (name, input) = response.inputs@[i];
            &&& name == manifest.inputs[i].0
            &&& input.kind == manifest.inputs[i].1.kind
            &&& input.required == manifest.inputs[i].1.required
            &&& input.sensitive == manifest.inputs[i].1.sensitive
            &&& input.max_length == manifest.inputs[i].1.max_length
            &&& input.pattern == manifest.inputs[i].1.pattern
            &&& input.max_json_bytes == manifest.inputs[i].1.max_json_bytes
        },
        0 <= i < manifest.outputs.len() ==> {
            let (name, output) = response.outputs@[i];
            &&& name == manifest.outputs[i].0
            &&& output.kind == manifest.outputs[i].1.kind
            &&& output.path == manifest.outputs[i].1.path
            &&& output.required == manifest.outputs[i].1.required
        },
{
}

/// Everything that a page shows of a repository is escaped: its name, its
/// branch, its clone URL, the place where its pipeline is triggered, and the full
/// name of its branch.
pub proof fn what_a_card_shows(parts: PageParts, shown: RepoCard)
    ensures
        repo::card(parts, shown) == repo::CARD_HEAD@ + markup::escaped(shown.repo.name@)
            + repo::CARD_BRANCH@ + markup::escaped(shown.repo.default_branch@) + repo::CARD_BADGE@
            + parts.active_badge@ + repo::CARD_CLONE@ + markup::escaped(shown.clone_url@)
            + repo::CARD_FORM@ + markup::escaped("/repos/"@ + shown.repo.id@ + "/trigger"@)
            + repo::CARD_FORM_CLASS@ + parts.csrf_input@ + repo::CARD_BRANCH_FIELD@
            + markup::escaped("refs/heads/"@ + shown.repo.default_branch@) + repo::CARD_TAIL@,
{
}

/// What was filled into the form for a new repository is escaped, and comes back
/// with the page's token and what was wrong with it.
pub proof fn what_the_form_shows(parts: PageParts, form: RepoFormView)
    ensures
        repo::create_form(parts, form) == repo::CREATE_HEAD@ + parts.csrf_input@
            + parts.form_error@ + repo::NAME_FIELD@ + markup::escaped(form.name@)
            + repo::BRANCH_FIELD@ + markup::escaped(form.default_branch@) + repo::CREATE_TAIL@,
{
}

/// What a client is told of a run is what the run's metadata says.
pub proof fn what_is_told_of_a_run(metadata: JobMetadata)
    ensures
        ({
            let told = <JobStatusResponse as FromSpec<JobMetadata>>::from_spec(metadata);
            &&& told.job_id == metadata.job_id
            &&& told.name == metadata.name
            &&& told.status == metadata.status
            &&& told.started_at == metadata.started_at
            &&& told.finished_at == metadata.finished_at
            &&& told.duration_ms == metadata.duration_ms
            &&& told.exit_code == metadata.exit_code
            &&& told.terminal_reason == metadata.terminal_reason
            &&& told.failure_category == metadata.failure_category
            &&& told.outputs == metadata.outputs
            &&& told.output_metadata == metadata.output_metadata
        }),
{
}

/// What a client is told of logs, of a started run, and of a stored artifact is
/// what they are.
pub proof fn nothing_is_lost_in_telling(logs: JobLogs, created: JobCreated, stored: ArtifactMetadata)
    ensures
        ({
            let told = <JobLogsResponse as FromSpec<JobLogs>>::from_spec(logs);
            told.stdout == logs.stdout && told.stderr == logs.stderr
        }),
        ({
            let told = <JobCreatedResponse as FromSpec<JobCreated>>::from_spec(created);
            told.job_id == created.job_id && told.status == created.status && told.started_at
                == created.started_at
        }),
        ({
            let told = <ArtifactUploadResponse as FromSpec<ArtifactMetadata>>::from_spec(stored);
            told.artifact_id == stored.artifact_id && told.sha256 == stored.sha256 && told.size
                == stored.size && told.expires_at == stored.expires_at
        }),
        ({
            let output = <JobOutputArtifact as FromSpec<ArtifactMetadata>>::from_spec(stored);
            let told = <JobOutputResponse as FromSpec<JobOutputArtifact>>::from_spec(output);
            let kept = <JobOutput as FromSpec<JobOutputArtifact>>::from_spec(output);
            &&& told.artifact_id == stored.artifact_id
            &&& told.sha256 == stored.sha256
            &&& told.size == stored.size
            &&& kept matches JobOutput::Artifact { artifact_id, sha256, size }
            &&& artifact_id == stored.artifact_id
            &&& sha256 == stored.sha256
            &&& size == stored.size
        }),
{
}

/// A request that started a run, or found it running, is answered that it was
/// created; one that found it in any other state, that it is there.
pub proof fn how_runs_are_answered(created: JobCreatedResponse, code: u16)
    requires
        call_ensures(api::created_status_code, (&created,), code),
    ensures
        (code == 201) == (created.status == JobStatus::Running),
        code == 201 || code == 200,
{
}

/// Waiting for runs to end is over with success exactly if none is left, and
/// without it exactly if some are and the time is up.
pub proof fn when_waiting_is_over(
    jobs: JobStore,
    now: u128,
    deadline: u128,
    over: Option<bool>,
)
    requires
        call_ensures(JobStore::drained, (&jobs, now, deadline), over),
    ensures
        (over == Some(true)) == (jobs@.running.len() == 0),
        (over == Some(false)) == (jobs@.running.len() > 0 && now >= deadline),
        (over is None) == (jobs@.running.len() > 0 && now < deadline),
{
}

/// A runner is ready exactly if it does not shut down, has started, and its
/// cleanup runs without an error. Only then is the answer a success.
pub proof fn when_a_runner_is_ready(
    status: RuntimeStatus,
    shutting_down: bool,
    listen: &str,
    manifest_count: usize,
    answer: (u16, ReadinessResponse),
)
    requires
        call_ensures(
            RuntimeStatus::readiness,
            (&status, shutting_down, listen, manifest_count),
            answer,
        ),
    ensures
        ({
            let ready = !shutting_down && status.startup.completed && status.artifact_cleanup.running
                && status.artifact_cleanup.last_error is None;
            &&& (answer.0 == 200) == ready
            &&& (answer.0 == 503) == !ready
            &&& (answer.1.status@ == "ready"@) == ready
            &&& (answer.1.status@ == "not_ready"@) == !ready
            &&& answer.1.listen@ == listen@
            &&& answer.1.manifest_count == manifest_count
            &&& answer.1.startup == status.startup
        }),
{
    reveal_strlit("ready");
    reveal_strlit("not_ready");
    assert("ready"@.len() == 5 && "not_ready"@.len() == 9);
}

/// A runner is healthy unless it shuts down.
pub proof fn when_a_runner_is_healthy(
    shutting_down: bool,
    listen: &str,
    manifest_count: usize,
    answer: HealthResponse,
)
    requires
        call_ensures(runtime::health, (shutting_down, listen, manifest_count), answer),
    ensures
        (answer.status@ == "ok"@) == !shutting_down,
        (answer.status@ == "shutting_down"@) == shutting_down,
        answer.listen@ == listen@,
        answer.manifest_count == manifest_count,
{
    reveal_strlit("ok");
    reveal_strlit("shutting_down");
    assert("ok"@.len() == 2 && "shutting_down"@.len() == 13);
}

/// A path that is given as an argument counts before one in the environment, and
/// that before the default.
pub proof fn where_the_configuration_is(
    argument: Option<String>,
    environment: Option<String>,
    path: String,
)
    requires
        call_ensures(runtime::config_path, (argument, environment), path),
    ensures
        argument matches Some(given) ==> path@ == given@,
        argument is None && environment is Some ==> path@ == environment->0@,
        argument is None && environment is None ==> path@ == "runner.toml"@,
{
}

/// The cleanup waits as many seconds as is configured, and never none.
pub proof fn how_long_the_cleanup_waits(configured: u64, seconds: u64)
    requires
        call_ensures(runtime::cleanup_interval_seconds, (configured,), seconds),
    ensures
        seconds >= 1,
        configured >= 1 ==> seconds == configured,
        configured == 0 ==> seconds == 1,
{
}

/// A signed request may have as many bytes as a job request or an upload may,
/// whichever is more.
pub proof fn how_large_signed_requests_are(
    jobs: JobsConfig,
    artifacts: ArtifactStore,
    limit: Result<usize, AuthRejection>,
)
    requires
        call_ensures(auth_store::max_signed_request_bytes, (&jobs, &artifacts), limit),
    ensures
        match limit {
            Ok(bytes) => {
                &&& bytes >= jobs.max_request_body_kb * 1024
                &&& bytes >= artifacts.max_size_bytes
                &&& bytes == jobs.max_request_body_kb * 1024 || bytes == artifacts.max_size_bytes
            },
            Err(e) => e@ == AuthRejectionView::InvalidBodyLimit && (jobs.max_request_body_kb * 1024
                > u64::MAX || jobs.max_request_body_kb * 1024 > usize::MAX),
        },
{
}

/// A process gets as many seconds as it was promised, from the moment it is
/// spawned.
pub proof fn how_long_a_process_has(
    script: &str,
    now: u64,
    timeout_seconds: u64,
    watch: ProcessWatch,
)
    requires
        call_ensures(ProcessWatch::new, (script, now, timeout_seconds), watch),
    ensures
        watch.deadline - now == timeout_seconds * 1000,
        watch.script@ == script@,
        watch.phase == ProcessPhase::Spawning,
{
}

/// Job runs and artifacts lie in directories of their own below the data
/// directory.
pub proof fn where_things_are_kept(
    data_dir: &str,
    ttl_seconds: u64,
    max_size_mb: u64,
    needed: bool,
    jobs: JobStore,
    artifacts: Result<ArtifactStore, ArtifactError>,
)
    requires
        call_ensures(JobStore::new, (data_dir,), jobs),
        call_ensures(ArtifactStore::new, (data_dir, ttl_seconds, max_size_mb, needed), artifacts),
    ensures
        jobs@.root_dir == paths::joined(data_dir@, "jobs"@),
        jobs@.running.len() == 0,
        !jobs@.shutting_down,
        match artifacts {
            Ok(store) => {
                &&& store.root_dir@ == paths::joined(data_dir@, "artifacts"@)
                &&& store.ttl_seconds == ttl_seconds
                &&& store.max_size_bytes == max_size_mb * 1024 * 1024
                &&& store.require_checksum_on_upload == needed
            },
            Err(e) => e@ == (ArtifactErrorView::InvalidMaxSize { max_size_mb }) && (max_size_mb
                * 1024 * 1024 > u64::MAX || max_size_mb * 1024 * 1024 > usize::MAX),
        },
{
}

/// A run moves on exactly if it has not ended, stands where it is expected to
/// stand and is to go elsewhere; nothing of its metadata but its status changes.
pub proof fn how_runs_move_on(
    metadata: JobMetadata,
    expected: Option<JobStatus>,
    next: JobStatus,
    moved: Option<JobMetadata>,
)
    requires
        call_ensures(job_store::transition_metadata_status, (metadata, expected, next), moved),
    ensures
        match moved {
            Some(after) => {
                &&& after == (JobMetadata { status: next, ..metadata })
                &&& next != metadata.status
                &&& expected is None || expected == Some(metadata.status)
                &&& metadata.status == JobStatus::Running || metadata.status
                    == JobStatus::CancelRequested || metadata.status == JobStatus::Canceling
            },
            None => {
                ||| next == metadata.status
                ||| expected is Some && expected != Some(metadata.status)
                ||| metadata.status == JobStatus::Success || metadata.status == JobStatus::Failed
                ||| metadata.status == JobStatus::TimedOut || metadata.status == JobStatus::Canceled
                ||| metadata.status == JobStatus::Rejected
            },
        },
{
}

/// Two protocol peers can talk exactly if some version is known to both.
pub proof fn when_versions_match(
    runner: RunnerCapabilitiesResponse,
    supported: &[u32],
    compatible: bool,
)
    requires
        call_ensures(
            RunnerCapabilitiesResponse::is_compatible_with_supported_versions,
            (&runner, supported),
            compatible,
        ),
    ensures
        compatible == exists|i: int, j: int|
            0 <= i < runner.supported_protocol_versions@.len() && 0 <= j < supported@.len()
                && #[trigger] runner.supported_protocol_versions@[i] == #[trigger] supported@[j],
{
    let ours = runner.supported_protocol_versions@;
    if runner.shares_version(supported@) {
        let version = choose|version: u32|
            ours.contains(version) && #[trigger] supported@.contains(version);
        let i = choose|i: int| 0 <= i < ours.len() && ours[i] == version;
        let j = choose|j: int| 0 <= j < supported@.len() && supported@[j] == version;
        assert(ours[i] == supported@[j]);
    }
    if exists|i: int, j: int|
        0 <= i < ours.len() && 0 <= j < supported@.len() && #[trigger] ours[i]
            == #[trigger] supported@[j] {
        let (i, j) = choose|i: int, j: int|
            0 <= i < ours.len() && 0 <= j < supported@.len() && #[trigger] ours[i]
                == #[trigger] supported@[j];
        assert(ours.contains(ours[i]));
        assert(supported@.contains(ours[i]));
    }
}

/// The part stands somewhere in the text.
pub open spec fn mentions(whole: Seq<char>, part: Seq<char>) -> bool {
    exists|a: int|
        0 <= a && a + part.len() <= whole.len() && #[trigger] whole.subrange(a, a + part.len())
            == part
}

proof fn texts_mention_their_parts()
    ensures
        forall|s: Seq<char>| #[trigger] mentions(s, s),
        forall|s: Seq<char>, t: Seq<char>| #[trigger] mentions(s + t, t),
        forall|s: Seq<char>, t: Seq<char>, p: Seq<char>|
            mentions(s, p) ==> #[trigger] mentions(s + t, p),
{
    assert forall|s: Seq<char>| #[trigger] mentions(s, s) by {
        assert(s.subrange(0, 0 + s.len() as int) =~= s);
    }
    assert forall|s: Seq<char>, t: Seq<char>| #[trigger] mentions(s + t, t) by {
        let a = s.len() as int;
        assert((s + t).subrange(a, a + t.len()) =~= t);
    }
    assert forall|s: Seq<char>, t: Seq<char>, p: Seq<char>| mentions(s, p) implies #[trigger] mentions(
        s + t,
        p,
    ) by {
        let a = choose|a: int|
            0 <= a && a + p.len() <= s.len() && #[trigger] s.subrange(a, a + p.len()) == p;
        assert((s + t).subrange(a, a + p.len()) =~= p);
    }
}

/// The message of an error names everything that the error is about.
pub proof fn job_messages_name_their_causes(e: JobErrorView)
    ensures
        match e {
            JobErrorView::CreateDir { path, source } => mentions(e.message(), path) && mentions(e.message(), source),
            JobErrorView::ReadFile { path, source } => mentions(e.message(), path) && mentions(e.message(), source),
            JobErrorView::WriteFile { path, source } => mentions(e.message(), path) && mentions(e.message(), source),
            JobErrorView::ParseMetadata { path, source } => mentions(e.message(), path) && mentions(e.message(), source),
            JobErrorView::SerializeMetadata { source } => mentions(e.message(), source),
            JobErrorView::SpawnProcess { script, source } => mentions(e.message(), script) && mentions(e.message(), source),
            JobErrorView::WaitProcess { script, source } => mentions(e.message(), script) && mentions(e.message(), source),
            JobErrorView::JobNotFound(job_id) => mentions(e.message(), job_id),
            JobErrorView::JobNotRunning(job_id) => mentions(e.message(), job_id),
            JobErrorView::UnknownJob(name) => mentions(e.message(), name),
            JobErrorView::MissingInput(name) => mentions(e.message(), name),
            JobErrorView::UnknownInput(name) => mentions(e.message(), name),
            JobErrorView::InvalidInputType { name, expected } => mentions(e.message(), name) && mentions(e.message(), expected),
            JobErrorView::InvalidInputValue { name, reason } => mentions(e.message(), name) && mentions(e.message(), reason),
            JobErrorView::InvalidLogLimit { max_size_mb } => mentions(e.message(), text::decimal(max_size_mb as nat)),
            JobErrorView::InvalidRequestBodyLimit { max_size_kb } => mentions(e.message(), text::decimal(max_size_kb as nat)),
            JobErrorView::RateLimitExceeded { token_name, limit, window_seconds } => mentions(e.message(), token_name) && mentions(e.message(), text::decimal(limit as nat)) && mentions(e.message(), text::decimal(window_seconds as nat)),
            JobErrorView::ShuttingDown => e.message().len() > 0,
            JobErrorView::Artifact(source) => e.message() == source.message(),
            JobErrorView::ExpiredArtifact { name, artifact_id } => mentions(e.message(), name) && mentions(e.message(), artifact_id),
            JobErrorView::MissingOutput { name, path } => mentions(e.message(), name) && mentions(e.message(), path),
            JobErrorView::ConcurrencyConflict { reason } => mentions(e.message(), reason),
            JobErrorView::InvalidBody(message) => mentions(e.message(), message),
            JobErrorView::RequestTooLarge { max_bytes } => mentions(e.message(), text::decimal(max_bytes as nat)),
            JobErrorView::ParseRequestBody { source } => mentions(e.message(), source),
            JobErrorView::InvalidJobId(job_id) => mentions(e.message(), job_id),
            JobErrorView::MissingIdempotencyKey => e.message().len() > 0,
            JobErrorView::InvalidIdempotencyKey(key) => mentions(e.message(), key),
            JobErrorView::IdempotencyConflict { key } => mentions(e.message(), key),
        },
{
    texts_mention_their_parts();
    reveal_strlit("missing idempotency key");
    reveal_strlit("runner is shutting down and not accepting new jobs");
}

/// The message of an error names everything that the error is about.
pub proof fn artifact_messages_name_their_causes(e: ArtifactErrorView)
    ensures
        match e {
            ArtifactErrorView::InvalidMaxSize { max_size_mb } => mentions(e.message(), text::decimal(max_size_mb as nat)),
            ArtifactErrorView::CreateDir { path, source } => mentions(e.message(), path) && mentions(e.message(), source),
            ArtifactErrorView::ReadDir { path, source } => mentions(e.message(), path) && mentions(e.message(), source),
            ArtifactErrorView::RemoveDir { path, source } => mentions(e.message(), path) && mentions(e.message(), source),
            ArtifactErrorView::WriteFile { path, source } => mentions(e.message(), path) && mentions(e.message(), source),
            ArtifactErrorView::ReadFile { path, source } => mentions(e.message(), path) && mentions(e.message(), source),
            ArtifactErrorView::SerializeMetadata { source } => mentions(e.message(), source),
            ArtifactErrorView::ParseMetadata { path, source } => mentions(e.message(), path) && mentions(e.message(), source),
            ArtifactErrorView::ParseExpiry { expires_at, source } => mentions(e.message(), expires_at) && mentions(e.message(), source),
            ArtifactErrorView::MissingChecksum => e.message().len() > 0,
            ArtifactErrorView::ChecksumMismatch { expected, actual } => mentions(e.message(), expected) && mentions(e.message(), actual),
            ArtifactErrorView::TooLarge { size, max } => mentions(e.message(), text::decimal(size as nat)) && mentions(e.message(), text::decimal(max as nat)),
            ArtifactErrorView::RateLimitExceeded { token_name, limit, window_seconds } => mentions(e.message(), token_name) && mentions(e.message(), text::decimal(limit as nat)) && mentions(e.message(), text::decimal(window_seconds as nat)),
            ArtifactErrorView::NotFound(artifact_id) => mentions(e.message(), artifact_id),
            ArtifactErrorView::InvalidArtifactId(artifact_id) => mentions(e.message(), artifact_id),
            ArtifactErrorView::InvalidBody(source) => mentions(e.message(), source),
            ArtifactErrorView::InvalidHeader { name, message } => mentions(e.message(), name) && mentions(e.message(), message),
            ArtifactErrorView::TimeOverflow => e.message().len() > 0,
        },
{
    texts_mention_their_parts();
    reveal_strlit("artifact expiration time overflow");
    reveal_strlit("missing required x-sha256 header");
}

/// The message of an error names everything that the error is about.
pub proof fn manifest_messages_name_their_causes(e: ManifestErrorView)
    ensures
        match e {
            ManifestErrorView::ReadDir { path, source } => mentions(e.message(), path) && mentions(e.message(), source),
            ManifestErrorView::ReadDirEntry { path, source } => mentions(e.message(), path) && mentions(e.message(), source),
            ManifestErrorView::NotDirectory { path } => mentions(e.message(), path),
            ManifestErrorView::ReadFile { path, source } => mentions(e.message(), path) && mentions(e.message(), source),
            ManifestErrorView::ParseFile { path, source } => mentions(e.message(), path) && mentions(e.message(), source),
            ManifestErrorView::DuplicateJobName { name, path } => mentions(e.message(), name) && mentions(e.message(), path),
            ManifestErrorView::InvalidJobName { name, path } => mentions(e.message(), name) && mentions(e.message(), path),
            ManifestErrorView::InvalidInputName { name, path } => mentions(e.message(), name) && mentions(e.message(), path),
            ManifestErrorView::InvalidInputConstraint { name, path, reason } => mentions(e.message(), name) && mentions(e.message(), path) && mentions(e.message(), reason),
            ManifestErrorView::InvalidOutputName { name, path } => mentions(e.message(), name) && mentions(e.message(), path),
            ManifestErrorView::InvalidOutputPath { output, path } => mentions(e.message(), output) && mentions(e.message(), path),
            ManifestErrorView::InvalidTimeout { path } => mentions(e.message(), path),
            ManifestErrorView::ScriptNotAbsolute { script, path } => mentions(e.message(), script) && mentions(e.message(), path),
            ManifestErrorView::ScriptNotFound { script, path } => mentions(e.message(), script) && mentions(e.message(), path),
            ManifestErrorView::ScriptNotExecutable { script, path } => mentions(e.message(), script) && mentions(e.message(), path),
        },
{
    texts_mention_their_parts();
}

/// The message of an error names everything that the error is about.
pub proof fn configuration_messages_name_their_causes(e: ConfigErrorView)
    ensures
        match e {
            ConfigErrorView::Read { path, source } => mentions(e.message(), path) && mentions(e.message(), source),
            ConfigErrorView::Parse { path, source } => mentions(e.message(), path) && mentions(e.message(), source),
        },
{
    texts_mention_their_parts();
}

/// The message of an error names everything that the error is about.
pub proof fn trust_messages_name_their_causes(e: AuthErrorView)
    ensures
        match e {
            AuthErrorView::UnsupportedMode(mode) => mentions(e.message(), mode),
            AuthErrorView::NoTrustedServers => e.message().len() > 0,
            AuthErrorView::InvalidPublicKey(key_id) => mentions(e.message(), key_id),
        },
{
    texts_mention_their_parts();
    reveal_strlit("at least one trusted server key is required");
}

/// The message of a rejection names everything that the rejection is about.
pub proof fn rejections_name_their_causes(e: AuthRejectionView)
    ensures
        match e {
            AuthRejectionView::MissingAuthorization => e.message().len() > 0,
            AuthRejectionView::InvalidAuthorizationHeader => e.message().len() > 0,
            AuthRejectionView::InvalidKeyId => e.message().len() > 0,
            AuthRejectionView::InvalidSignature => e.message().len() > 0,
            AuthRejectionView::InvalidTimestamp => e.message().len() > 0,
            AuthRejectionView::InvalidNonce => e.message().len() > 0,
            AuthRejectionView::Replay => e.message().len() > 0,
            AuthRejectionView::ContentShaMismatch => e.message().len() > 0,
            AuthRejectionView::RequestTooLarge => e.message().len() > 0,
            AuthRejectionView::InvalidBodyLimit => e.message().len() > 0,
            AuthRejectionView::MissingPermission { server_name, permission } => mentions(e.message(), server_name) && mentions(e.message(), permission),
        },
{
    texts_mention_their_parts();
    reveal_strlit("invalid or expired request timestamp");
    reveal_strlit("invalid request nonce");
    reveal_strlit("invalid request signature");
    reveal_strlit("invalid signed request authentication");
    reveal_strlit("invalid signed request body limit");
    reveal_strlit("missing signed request authentication");
    reveal_strlit("request body checksum does not match");
    reveal_strlit("request nonce was already used");
    reveal_strlit("signed request body is too large");
    reveal_strlit("unknown signing key id");
}

} // verus!
