//! The job store: which job runs are accepted, and what becomes of them.
use vstd::prelude::*;

use crate::artifacts::store::{ArtifactStore, MetadataFile};
use crate::config::JobsConfig;
use crate::digest;
use crate::job::{JobCreatedResponse, JobOutputMetadata, JobStatus};
use crate::jobs::error::{JobError, JobErrorView};
use crate::jobs::execution;
use crate::jobs::execution::{ExecutionOutcome, FinishedJob};
use crate::jobs::inputs;
use crate::jobs::models::{
    JobCreated, JobExecution, JobExecutionView, JobLogs, JobMetadata, JobMetadataView,
};
use crate::jobs::outputs;
use crate::jobs::outputs::OutputRegistration;
use crate::json::JsonValue;
use crate::manifest::spec::{JobManifest, ManifestView};
use crate::manifest::store::ManifestStore;
use crate::names;
use crate::names::NameMap;
use crate::paths;
use crate::schema::Concurrency;
use crate::search;
use crate::text;
use crate::time;
use crate::time::UtcInstant;

verus! {

/// A job run that has not ended.
#[derive(Debug, Clone)]
pub struct RunningJob {
    pub job_id: String,
    pub name: String,
    pub metadata_path: String,
    pub concurrency: Concurrency,
}

/// The mathematical counterpart of `RunningJob`.
pub struct RunningJobView {
    pub job_id: Seq<char>,
    pub name: Seq<char>,
    pub metadata_path: Seq<char>,
    pub concurrency: Concurrency,
}

impl View for RunningJob {
    type V = RunningJobView;

    open spec fn view(&self) -> RunningJobView {
        RunningJobView {
            job_id: self.job_id@,
            name: self.name@,
            metadata_path: self.metadata_path@,
            concurrency: self.concurrency,
        }
    }
}

/// What reading a job run's metadata file gave. A `String` is the message of
/// the failure.
#[derive(Debug)]
pub enum JobFile {
    Missing(String),
    Unreadable(String),
    Unparsable(String),
    Parsed(JobMetadata),
}

/// What reading a log file gave.
#[derive(Debug)]
pub enum LogFile {
    Missing,
    Unreadable(String),
    Text(String),
}

/// What lies at the place of a job run that is about to be created.
#[derive(Debug)]
pub enum ExistingJob {
    Absent,
    Present(JobFile),
}

/// An idempotency key: 1 to 128 ASCII letters, digits, `-` and `_`.
pub open spec fn is_idempotency_key(key: Seq<char>) -> bool {
    &&& 1 <= key.len() <= 128
    &&& forall|i: int|
        0 <= i < key.len() ==> text::is_alphanumeric(#[trigger] key[i]) || key[i] == '-' || key[i]
            == '_'
}

pub fn validate_idempotency_key(idempotency_key: &str) -> (r: Result<(), JobError>)
    ensures
        match r {
            Ok(()) => is_idempotency_key(idempotency_key@),
            Err(e) => !is_idempotency_key(idempotency_key@) && e@
                == JobErrorView::InvalidIdempotencyKey(idempotency_key@),
        },
{
    let chars = text::chars_of(idempotency_key);
    if chars.len() == 0 || chars.len() > 128 {
        return Err(JobError::InvalidIdempotencyKey(idempotency_key.to_owned()));
    }
    let mut i: usize = 0;
    while i < chars.len()
        invariant
            i <= chars.len() <= 128,
            1 <= chars.len(),
            chars@ == idempotency_key@,
            forall|k: int|
                0 <= k < i ==> text::is_alphanumeric(#[trigger] idempotency_key@[k])
                    || idempotency_key@[k] == '-' || idempotency_key@[k] == '_',
        decreases chars.len() - i,
    {
        if !text::alphanumeric(chars[i]) && chars[i] != '-' && chars[i] != '_' {
            assert(!text::is_alphanumeric(idempotency_key@[i as int]));
            return Err(JobError::InvalidIdempotencyKey(idempotency_key.to_owned()));
        }
        i += 1;
    }
    Ok(())
}

/// An identifier of a job run: `job_` and 32 hexadecimal digits.
pub open spec fn is_job_id(job_id: Seq<char>) -> bool {
    digest::is_prefixed_hex_id(job_id, "job_"@)
}

pub fn validate_job_id(job_id: &str) -> (r: Result<(), JobError>)
    ensures
        match r {
            Ok(()) => is_job_id(job_id@),
            Err(e) => !is_job_id(job_id@) && e@ == JobErrorView::InvalidJobId(job_id@),
        },
{
    if digest::validate_prefixed_hex_id(job_id, "job_") {
        Ok(())
    } else {
        Err(JobError::InvalidJobId(job_id.to_owned()))
    }
}

/// The identifier of the job run that an idempotency key stands for.
pub open spec fn job_id_of(idempotency_key: Seq<char>) -> Seq<char> {
    "job_"@ + digest::request_hash("job"@, vstd::utf8::encode_utf8(idempotency_key)).take(32)
}

/// The identifier of the job run that an idempotency key stands for; it is
/// always a valid one.
pub fn job_id_for_idempotency_key(idempotency_key: &str) -> (r: String)
    ensures
        r@ == job_id_of(idempotency_key@),
        is_job_id(r@),
{
    let hash = digest::hash_request("job", idempotency_key.as_bytes());
    let suffix = hash.as_str().substring_char(0, 32);
    let mut job_id = "job_".to_owned();
    job_id.append(suffix);
    proof {
        assert(suffix@ =~= hash@.take(32));
        assert forall|i: int| 0 <= i < suffix@.len() implies text::is_lower_hex_digit(
            #[trigger] suffix@[i],
        ) by {
            assert(suffix@[i] == hash@[i]);
        }
        crate::artifacts::store::prefixed_suffix_is_id("job_"@, suffix@);
    }
    job_id
}

/// Why a job may not start while another runs. A `global_exclusive` job runs
/// alone, and a `job_exclusive` job runs once at a time.
pub open spec fn conflict_check(name: Seq<char>, concurrency: Concurrency) -> spec_fn(
    (Seq<char>, RunningJobView),
) -> Option<Seq<char>> {
    |other: (Seq<char>, RunningJobView)|
        match concurrency {
            Concurrency::Parallel => if other.1.concurrency is GlobalExclusive {
                Some("cannot start job while a global_exclusive job is running"@)
            } else {
                None
            },
            Concurrency::JobExclusive => if other.1.concurrency is GlobalExclusive {
                Some("cannot start job while a global_exclusive job is running"@)
            } else if other.1.name == name {
                Some(
                    "cannot start job "@ + name + " while another instance is running ("@
                        + other.1.job_id + ")"@,
                )
            } else {
                None
            },
            Concurrency::GlobalExclusive => Some(
                "cannot start global_exclusive job while another job is running"@,
            ),
        }
}

/// The first reason, going through the running jobs in the order of their
/// identifiers, why a job may not start.
pub open spec fn conflict(
    name: Seq<char>,
    concurrency: Concurrency,
    running: Seq<(Seq<char>, RunningJobView)>,
) -> Option<Seq<char>> {
    search::first_failure(running, conflict_check(name, concurrency))
}

/// What the concurrency rules keep of the running jobs: a `global_exclusive`
/// job runs alone, and no two runs of one `job_exclusive` job overlap.
pub open spec fn exclusive(running: Seq<(Seq<char>, RunningJobView)>) -> bool {
    &&& forall|i: int|
        0 <= i < running.len() && (#[trigger] running[i]).1.concurrency is GlobalExclusive
            ==> running.len() == 1
    &&& forall|i: int, j: int|
        0 <= i < j < running.len() && (#[trigger] running[i]).1.concurrency is JobExclusive && (
        #[trigger] running[j]).1.concurrency is JobExclusive ==> running[i].1.name
            != running[j].1.name
}

/// Starting a job that meets no conflict keeps the running jobs exclusive.
pub proof fn starting_keeps_exclusive(
    running: Seq<(Seq<char>, RunningJobView)>,
    job_id: Seq<char>,
    job: RunningJobView,
)
    requires
        names::names_sorted(running),
        exclusive(running),
        conflict(job.name, job.concurrency, running) is None,
    ensures
        exclusive(names::inserted(running, job_id, job)),
{
    let check = conflict_check(job.name, job.concurrency);
    search::nothing_fails(running, check);
    names::insert_position_splits(running, job_id);
    let p = names::insert_position(running, job_id) as int;
    let after = names::inserted(running, job_id, job);
    let replaces = p < running.len() && running[p].0 == job_id;
    assert forall|i: int| 0 <= i < running.len() implies check(#[trigger] running[i]) is None by {}
    assert forall|i: int| 0 <= i < after.len() && i != p implies ({
        let k = if i < p || replaces { i } else { i - 1 };
        0 <= k < running.len() && #[trigger] after[i] == running[k]
    }) by {
        if i < p || replaces {
            assert(after[i] == running[i]);
        } else {
            assert(after[i] == running[i - 1]);
        }
    }
    assert(after[p] == (job_id, job));
    if job.concurrency is GlobalExclusive {
        if running.len() > 0 {
            assert(check(running[0]) is None);
        }
    } else {
        assert forall|i: int|
            0 <= i < after.len() && (#[trigger] after[i]).1.concurrency is GlobalExclusive implies after.len()
            == 1 by {
            let k = if i < p || replaces { i } else { i - 1 };
            assert(after[i] == running[k]);
            assert(check(running[k]) is None);
        }
        assert forall|i: int, j: int|
            0 <= i < j < after.len() && (#[trigger] after[i]).1.concurrency is JobExclusive && (
            #[trigger] after[j]).1.concurrency is JobExclusive implies after[i].1.name
            != after[j].1.name by {
            let a = if i < p || replaces { i } else { i - 1 };
            let b = if j < p || replaces { j } else { j - 1 };
            if i == p {
                assert(after[j] == running[b]);
                assert(check(running[b]) is None);
            } else if j == p {
                assert(after[i] == running[a]);
                assert(check(running[a]) is None);
            } else {
                assert(after[i] == running[a] && after[j] == running[b]);
            }
        }
    }
}

/// Ending a job keeps the running jobs exclusive.
pub proof fn ending_keeps_exclusive(running: Seq<(Seq<char>, RunningJobView)>, job_id: Seq<char>)
    requires
        exclusive(running),
    ensures
        exclusive(names::removed(running, job_id)),
{
    let after = names::removed(running, job_id);
    if names::has_name(running, job_id) {
        let p = names::position_of(running, job_id);
        assert forall|i: int|
            0 <= i < after.len() && (#[trigger] after[i]).1.concurrency is GlobalExclusive implies after.len()
            == 1 by {
            let k = if i < p { i } else { i + 1 };
            assert(after[i] == running[k]);
        }
        assert forall|i: int, j: int|
            0 <= i < j < after.len() && (#[trigger] after[i]).1.concurrency is JobExclusive && (
            #[trigger] after[j]).1.concurrency is JobExclusive implies after[i].1.name
            != after[j].1.name by {
            let a = if i < p { i } else { i + 1 };
            let b = if j < p { j } else { j + 1 };
            assert(after[i] == running[a] && after[j] == running[b]);
        }
    }
}

/// A running job by its mathematical counterpart.
pub open spec fn running_model() -> spec_fn(RunningJob) -> RunningJobView {
    |job: RunningJob| job@
}

/// Whether the job of a manifest may start beside the running jobs.
pub fn enforce_concurrency(manifest: &JobManifest, running_jobs: &NameMap<RunningJob>) -> (r:
    Result<(), JobError>)
    ensures
        ({
            let running = names::with_values(running_jobs@, running_model());
            let problem = conflict(manifest@.name, manifest@.concurrency, running);
            match r {
                Ok(()) => problem is None,
                Err(e) => problem matches Some(reason) && e@ == (
                JobErrorView::ConcurrencyConflict { reason }),
            }
        }),
{
    let ghost running = names::with_values(running_jobs@, running_model());
    let ghost check = conflict_check(manifest@.name, manifest@.concurrency);
    let n = running_jobs.len();
    let mut i: usize = 0;
    while i < n
        invariant
            i <= n,
            n == running_jobs@.len(),
            running == names::with_values(running_jobs@, running_model()),
            check == conflict_check(manifest@.name, manifest@.concurrency),
            forall|j: int| 0 <= j < i ==> check(#[trigger] running[j]) is None,
        decreases n - i,
    {
        let job = running_jobs.value_at(i);
        assert(running[i as int].1 == job@);
        let reason = match manifest.concurrency {
            Concurrency::Parallel => {
                if job.concurrency == Concurrency::GlobalExclusive {
                    Some("cannot start job while a global_exclusive job is running".to_owned())
                } else {
                    None
                }
            },
            Concurrency::JobExclusive => {
                if job.concurrency == Concurrency::GlobalExclusive {
                    Some("cannot start job while a global_exclusive job is running".to_owned())
                } else if text::same(job.name.as_str(), manifest.name.as_str()) {
                    let mut reason = "cannot start job ".to_owned();
                    reason.append(manifest.name.as_str());
                    reason.append(" while another instance is running (");
                    reason.append(job.job_id.as_str());
                    reason.append(")");
                    Some(reason)
                } else {
                    None
                }
            },
            Concurrency::GlobalExclusive => {
                Some("cannot start global_exclusive job while another job is running".to_owned())
            },
        };
        if let Some(reason) = reason {
            proof {
                search::first_failure_at(running, check, i as int);
            }
            return Err(JobError::ConcurrencyConflict { reason });
        }
        i += 1;
    }
    proof {
        search::nothing_fails(running, check);
    }
    Ok(())
}

/// A request to run a job.
#[derive(Debug)]
pub struct JobRequest<'a> {
    pub name: &'a str,
    pub idempotency_key: &'a str,
    pub body: &'a [u8],
    pub inputs: NameMap<JsonValue>,
}

/// What a request to run a job led to: a run that an earlier request had
/// started, or a new one.
#[derive(Debug)]
pub enum JobAdmission {
    Existing(JobCreatedResponse),
    Started { execution: JobExecution, response: JobCreatedResponse },
}

/// What a client is told of a job run.
pub struct CreatedView {
    pub job_id: Seq<char>,
    pub status: JobStatus,
    pub started_at: Seq<char>,
}

/// The mathematical counterpart of `JobCreatedResponse`.
pub open spec fn created_view(response: JobCreatedResponse) -> CreatedView {
    CreatedView {
        job_id: response.job_id@,
        status: response.status,
        started_at: response.started_at@,
    }
}

/// What the client is told of a run that has just started.
pub open spec fn told_of(run: JobExecutionView) -> CreatedView {
    CreatedView {
        job_id: run.job_id,
        status: JobStatus::Running,
        started_at: run.metadata.started_at,
    }
}

/// The mathematical counterpart of `JobAdmission`.
pub enum AdmissionView {
    Existing(CreatedView),
    Started { run: JobExecutionView, told: CreatedView },
}

impl View for JobAdmission {
    type V = AdmissionView;

    open spec fn view(&self) -> AdmissionView {
        match self {
            JobAdmission::Existing(response) => AdmissionView::Existing(created_view(*response)),
            JobAdmission::Started { execution, response } => AdmissionView::Started {
                run: execution@,
                told: created_view(*response),
            },
        }
    }
}

/// The bytes that a job run's log may hold, where 64 bits can count them.
pub open spec fn log_limit(max_size_mb: u64) -> Option<u64> {
    if max_size_mb * 1_048_576 <= u64::MAX {
        Some((max_size_mb * 1_048_576) as u64)
    } else {
        None
    }
}

/// The directory of a job run.
pub open spec fn job_directory(root: Seq<char>, job_id: Seq<char>) -> Seq<char> {
    paths::joined(root, job_id)
}

/// A job run as it starts.
pub open spec fn started_run(
    root: Seq<char>,
    manifest: ManifestView,
    idempotency_key: Seq<char>,
    body: Seq<u8>,
    inputs: Seq<(Seq<char>, JsonValue)>,
    resolved: Seq<(Seq<char>, Seq<char>)>,
    limit: u64,
    config: JobsConfig,
    started_at: Seq<char>,
) -> JobExecutionView {
    let job_id = job_id_of(idempotency_key);
    let directory = job_directory(root, job_id);
    JobExecutionView {
        manifest,
        job_id,
        metadata_path: paths::joined(directory, "metadata.json"@),
        work_dir: paths::joined(directory, "work"@),
        output_dir: paths::joined(directory, "output"@),
        stdout_path: paths::joined(directory, "stdout.log"@),
        stderr_path: paths::joined(directory, "stderr.log"@),
        log_limit_bytes: limit,
        cleanup_successful_workdirs: config.cleanup_successful_workdirs,
        keep_failed_workdirs: config.keep_failed_workdirs,
        metadata: JobMetadataView {
            job_id,
            name: manifest.name,
            idempotency_key,
            request_hash: digest::request_hash(manifest.name, body),
            status: JobStatus::Running,
            started_at,
            finished_at: None,
            duration_ms: None,
            exit_code: None,
            terminal_reason: None,
            failure_category: None,
            inputs: inputs::shown_inputs(manifest.inputs, inputs),
            resolved_artifacts: resolved,
            outputs: Seq::empty(),
            output_metadata: JobOutputMetadata::nothing(),
        },
        raw_inputs: inputs,
    }
}

/// What a request gets that finds a job run in its place: that run, where the
/// request is the one that started it.
pub open spec fn existing_run(
    root: Seq<char>,
    name: Seq<char>,
    idempotency_key: Seq<char>,
    body: Seq<u8>,
    file: JobFile,
) -> Result<AdmissionView, JobErrorView> {
    let job_id = job_id_of(idempotency_key);
    let path = paths::joined(job_directory(root, job_id), "metadata.json"@);
    match file {
        JobFile::Missing(source) | JobFile::Unreadable(source) => Err(
            JobErrorView::ReadFile { path, source: source@ },
        ),
        JobFile::Unparsable(source) => Err(JobErrorView::ParseMetadata { path, source: source@ }),
        JobFile::Parsed(metadata) => if metadata.job_id@ == job_id && metadata.name@ == name
            && metadata.idempotency_key@ == idempotency_key && metadata.request_hash@
            == digest::request_hash(name, body) {
            Ok(
                AdmissionView::Existing(
                    CreatedView {
                        job_id: metadata.job_id@,
                        status: metadata.status,
                        started_at: metadata.started_at@,
                    },
                ),
            )
        } else {
            Err(JobErrorView::IdempotencyConflict { key: idempotency_key })
        },
    }
}

/// The answer to a request that starts a run.
pub open spec fn started(run: JobExecutionView) -> AdmissionView {
    AdmissionView::Started { run, told: told_of(run) }
}

/// The mathematical counterpart of `JobStore`.
pub struct JobStoreView {
    pub root_dir: Seq<char>,
    pub running: Seq<(Seq<char>, RunningJobView)>,
    pub shutting_down: bool,
}

impl JobStoreView {
    /// The running jobs are in the order of their identifiers, each identifier
    /// once, and as exclusive as their concurrency asks.
    pub open spec fn valid(self) -> bool {
        names::names_sorted(self.running) && exclusive(self.running)
    }

    /// What a request to run a job leads to at `now`.
    pub open spec fn admission(
        self,
        name: Seq<char>,
        idempotency_key: Seq<char>,
        body: Seq<u8>,
        inputs: Seq<(Seq<char>, JsonValue)>,
        manifests: Seq<(Seq<char>, ManifestView)>,
        artifacts: ArtifactStore,
        files: Seq<(Seq<char>, MetadataFile)>,
        existing: ExistingJob,
        config: JobsConfig,
        now: UtcInstant,
    ) -> Result<AdmissionView, JobErrorView> {
        if self.shutting_down {
            Err(JobErrorView::ShuttingDown)
        } else if !is_idempotency_key(idempotency_key) {
            Err(JobErrorView::InvalidIdempotencyKey(idempotency_key))
        } else {
            match names::lookup(manifests, name) {
                None => Err(JobErrorView::UnknownJob(name)),
                Some(manifest) => match inputs::validated_inputs(
                    manifest,
                    inputs,
                    artifacts,
                    files,
                    now,
                ) {
                    Err(problem) => Err(problem),
                    Ok(resolved) => match log_limit(config.default_log_limit_mb) {
                        None => Err(
                            JobErrorView::InvalidLogLimit {
                                max_size_mb: config.default_log_limit_mb,
                            },
                        ),
                        Some(limit) => match existing {
                            ExistingJob::Present(file) => existing_run(
                                self.root_dir,
                                name,
                                idempotency_key,
                                body,
                                file,
                            ),
                            ExistingJob::Absent => match conflict(
                                manifest.name,
                                manifest.concurrency,
                                self.running,
                            ) {
                                Some(reason) => Err(JobErrorView::ConcurrencyConflict { reason }),
                                None => Ok(
                                    started(
                                        started_run(
                                            self.root_dir,
                                            manifest,
                                            idempotency_key,
                                            body,
                                            inputs,
                                            resolved,
                                            limit,
                                            config,
                                            time::rfc3339(now.seconds as int),
                                        ),
                                    ),
                                ),
                            },
                        },
                    },
                },
            }
        }
    }

    /// The store once a request was answered: a started run is running.
    pub open spec fn after_admission(self, outcome: Result<AdmissionView, JobErrorView>) -> Self {
        match outcome {
            Ok(AdmissionView::Started { run, .. }) => JobStoreView {
                running: names::inserted(
                    self.running,
                    run.job_id,
                    RunningJobView {
                        job_id: run.job_id,
                        name: run.manifest.name,
                        metadata_path: run.metadata_path,
                        concurrency: run.manifest.concurrency,
                    },
                ),
                ..self
            },
            _ => self,
        }
    }
}

/// A run is no longer among the running ones, and every other run is as it was.
pub open spec fn ends_run(before: JobStoreView, after: JobStoreView, job_id: Seq<char>) -> bool {
    &&& !names::has_name(after.running, job_id)
    &&& forall|other: Seq<char>|
        other != job_id ==> #[trigger] names::lookup(after.running, other) == names::lookup(
            before.running,
            other,
        )
}

/// Taking a run out of a valid store ends that run and no other, and leaves the
/// store valid.
pub proof fn run_is_ended(store: JobStoreView, job_id: Seq<char>)
    requires
        store.valid(),
    ensures
        ({
            let after = JobStoreView {
                running: names::removed(store.running, job_id),
                ..store
            };
            after.valid() && ends_run(store, after, job_id)
        }),
{
    let after = JobStoreView { running: names::removed(store.running, job_id), ..store };
    names::removed_sorted(store.running, job_id);
    ending_keeps_exclusive(store.running, job_id);
    names::removed_lookup(store.running, job_id, job_id);
    assert forall|other: Seq<char>| other != job_id implies #[trigger] names::lookup(
        after.running,
        other,
    ) == names::lookup(store.running, other) by {
        names::removed_lookup(store.running, job_id, other);
    }
}

/// The request was answered as expected.
pub open spec fn admits(
    r: Result<JobAdmission, JobError>,
    expected: Result<AdmissionView, JobErrorView>,
) -> bool {
    match r {
        Ok(admission) => expected matches Ok(view) && view == admission@,
        Err(e) => expected matches Err(problem) && problem == e@,
    }
}

/// The job runs of a runner.
#[derive(Debug)]
pub struct JobStore {
    root_dir: String,
    running_jobs: NameMap<RunningJob>,
    shutting_down: bool,
}

impl View for JobStore {
    type V = JobStoreView;

    closed spec fn view(&self) -> JobStoreView {
        JobStoreView {
            root_dir: self.root_dir@,
            running: names::with_values(self.running_jobs@, running_model()),
            shutting_down: self.shutting_down,
        }
    }
}

/// Finds the job run that an earlier request under the same key had started.
fn load_existing_job_for_request(
    metadata_path: &str,
    job_id: &str,
    name: &str,
    idempotency_key: &str,
    request_hash: &str,
    file: &JobFile,
) -> (r: Result<JobCreatedResponse, JobError>)
    ensures
        match file {
            JobFile::Missing(source) | JobFile::Unreadable(source) => r matches Err(e) && e@ == (
            JobErrorView::ReadFile { path: metadata_path@, source: source@ }),
            JobFile::Unparsable(source) => r matches Err(e) && e@ == (JobErrorView::ParseMetadata {
                path: metadata_path@,
                source: source@,
            }),
            JobFile::Parsed(metadata) => if metadata.job_id@ == job_id@ && metadata.name@ == name@
                && metadata.idempotency_key@ == idempotency_key@ && metadata.request_hash@
                == request_hash@ {
                r matches Ok(response) && response.job_id@ == job_id@ && response.status
                    == metadata.status && response.started_at@ == metadata.started_at@
            } else {
                r matches Err(e) && e@ == (JobErrorView::IdempotencyConflict {
                    key: idempotency_key@,
                })
            },
        },
{
    match file {
        JobFile::Missing(source) | JobFile::Unreadable(source) => Err(
            JobError::ReadFile { path: metadata_path.to_owned(), source: source.clone() },
        ),
        JobFile::Unparsable(source) => Err(
            JobError::ParseMetadata { path: metadata_path.to_owned(), source: source.clone() },
        ),
        JobFile::Parsed(metadata) => {
            if !text::same(metadata.job_id.as_str(), job_id) || !text::same(
                metadata.name.as_str(),
                name,
            ) || !text::same(metadata.idempotency_key.as_str(), idempotency_key) || !text::same(
                metadata.request_hash.as_str(),
                request_hash,
            ) {
                return Err(JobError::IdempotencyConflict { key: idempotency_key.to_owned() });
            }
            Ok(
                JobCreatedResponse {
                    job_id: metadata.job_id.clone(),
                    status: metadata.status,
                    started_at: metadata.started_at.clone(),
                },
            )
        },
    }
}

impl JobStore {
    #[verifier::type_invariant]
    spec fn holds_valid_runs(self) -> bool {
        self@.valid()
    }

    /// An empty store that keeps job runs below `data_dir`.
    pub fn new(data_dir: &str) -> (r: Self)
        ensures
            r@ == (JobStoreView {
                root_dir: paths::joined(data_dir@, "jobs"@),
                running: Seq::empty(),
                shutting_down: false,
            }),
            r@.valid(),
    {
        let running_jobs: NameMap<RunningJob> = NameMap::new();
        assert(names::with_values(running_jobs@, running_model()) =~= Seq::empty());
        JobStore { root_dir: paths::join(data_dir, "jobs"), running_jobs, shutting_down: false }
    }

    /// The directory that holds all job runs.
    pub fn root_dir(&self) -> (r: String)
        ensures
            r@ == self@.root_dir,
    {
        self.root_dir.clone()
    }

    /// The directory that holds a job run.
    pub fn job_dir(&self, job_id: &str) -> (r: String)
        ensures
            r@ == job_directory(self@.root_dir, job_id@),
    {
        paths::join(self.root_dir.as_str(), job_id)
    }

    /// The metadata file of a job run.
    pub fn metadata_path(&self, job_id: &str) -> (r: String)
        ensures
            r@ == paths::joined(job_directory(self@.root_dir, job_id@), "metadata.json"@),
    {
        paths::join(self.job_dir(job_id).as_str(), "metadata.json")
    }

    pub fn is_shutting_down(&self) -> (r: bool)
        ensures
            r == self@.shutting_down,
    {
        self.shutting_down
    }

    /// The job runs that have not ended, in the order of their identifiers. A
    /// `global_exclusive` job is alone among them, and no `job_exclusive` job
    /// is among them twice.
    pub fn running_jobs(&self) -> (r: Vec<&RunningJob>)
        ensures
            r@.len() == self@.running.len(),
            forall|i: int| 0 <= i < r@.len() ==> (#[trigger] r@[i])@ == self@.running[i].1,
            self@.valid(),
    {
        proof {
            use_type_invariant(&*self);
        }
        let mut out: Vec<&RunningJob> = Vec::new();
        let n = self.running_jobs.len();
        let mut i: usize = 0;
        while i < n
            invariant
                i <= n,
                n == self.running_jobs@.len(),
                out@.len() == i,
                forall|j: int| 0 <= j < i ==> (#[trigger] out@[j])@ == self.running_jobs@[j].1@,
            decreases n - i,
        {
            out.push(self.running_jobs.value_at(i));
            i += 1;
        }
        out
    }

    /// Answers a request to run a job at `now`. `files` holds what the metadata
    /// files of the artifacts that the inputs name were found to hold, and
    /// `existing` what lies at the place of the job run.
    pub fn create_job_at(
        &mut self,
        request: JobRequest<'_>,
        manifests: &ManifestStore,
        artifacts: &ArtifactStore,
        files: &NameMap<MetadataFile>,
        existing: &ExistingJob,
        config: &JobsConfig,
        now: &UtcInstant,
    ) -> (r: Result<JobAdmission, JobError>)
        requires
            now.in_calendar(),
        ensures
            old(self)@.valid(),
            final(self)@.valid(),
            ({
                let expected = old(self)@.admission(
                    request.name@,
                    request.idempotency_key@,
                    request.body@,
                    request.inputs@,
                    manifests@,
                    *artifacts,
                    files@,
                    *existing,
                    *config,
                    *now,
                );
                &&& admits(r, expected)
                &&& final(self)@ == old(self)@.after_admission(expected)
            }),
    {
        proof {
            use_type_invariant(&*self);
        }
        if self.shutting_down {
            return Err(JobError::ShuttingDown);
        }
        if let Err(e) = validate_idempotency_key(request.idempotency_key) {
            return Err(e);
        }
        let manifest = match manifests.get(request.name) {
            Some(manifest) => manifest.clone(),
            None => {
                return Err(JobError::UnknownJob(request.name.to_owned()));
            },
        };
        let resolved = match inputs::validate_inputs(
            &manifest,
            &request.inputs,
            artifacts,
            files,
            now,
        ) {
            Ok(resolved) => resolved,
            Err(e) => {
                return Err(e);
            },
        };
        let metadata_inputs = inputs::redact_sensitive_inputs(&manifest, &request.inputs);
        let max_size_mb: u64 = config.default_log_limit_mb;
        let log_limit_bytes: u64 = match max_size_mb.checked_mul(1_048_576) {
            Some(bytes) => bytes,
            None => {
                return Err(JobError::InvalidLogLimit { max_size_mb });
            },
        };
        let request_hash = digest::hash_request(request.name, request.body);
        let job_id = job_id_for_idempotency_key(request.idempotency_key);
        let job_dir = self.job_dir(job_id.as_str());
        let metadata_path = paths::join(job_dir.as_str(), "metadata.json");
        if let ExistingJob::Present(file) = existing {
            return match load_existing_job_for_request(
                metadata_path.as_str(),
                job_id.as_str(),
                request.name,
                request.idempotency_key,
                request_hash.as_str(),
                file,
            ) {
                Ok(response) => Ok(JobAdmission::Existing(response)),
                Err(e) => Err(e),
            };
        }
        if let Err(e) = enforce_concurrency(&manifest, &self.running_jobs) {
            return Err(e);
        }
        let started_at = time::format_rfc3339(now.seconds);
        let outputs = NameMap::new();
        assert(outputs@ =~= Seq::empty());
        let metadata = JobMetadata {
            job_id: job_id.clone(),
            name: manifest.name.clone(),
            idempotency_key: request.idempotency_key.to_owned(),
            request_hash,
            status: JobStatus::Running,
            started_at: started_at.clone(),
            finished_at: None,
            duration_ms: None,
            exit_code: None,
            terminal_reason: None,
            failure_category: None,
            inputs: metadata_inputs,
            resolved_artifacts: resolved,
            outputs,
            output_metadata: JobOutputMetadata::default(),
        };
        self.start(
            job_id.clone(),
            RunningJob {
                job_id: job_id.clone(),
                name: manifest.name.clone(),
                metadata_path: metadata_path.clone(),
                concurrency: manifest.concurrency,
            },
        );
        let response = JobCreatedResponse::from(
            JobCreated { job_id: job_id.clone(), status: JobStatus::Running, started_at },
        );
        let execution = JobExecution {
            manifest,
            job_id,
            metadata_path,
            work_dir: paths::join(job_dir.as_str(), "work"),
            output_dir: paths::join(job_dir.as_str(), "output"),
            stdout_path: paths::join(job_dir.as_str(), "stdout.log"),
            stderr_path: paths::join(job_dir.as_str(), "stderr.log"),
            log_limit_bytes,
            cleanup_successful_workdirs: config.cleanup_successful_workdirs,
            keep_failed_workdirs: config.keep_failed_workdirs,
            metadata,
            raw_inputs: request.inputs,
        };
        Ok(JobAdmission::Started { execution, response })
    }

    /// Answers a request to run a job now.
    pub fn create_job(
        &mut self,
        request: JobRequest<'_>,
        manifests: &ManifestStore,
        artifacts: &ArtifactStore,
        files: &NameMap<MetadataFile>,
        existing: &ExistingJob,
        config: &JobsConfig,
    ) -> (r: Result<JobAdmission, JobError>)
        ensures
            old(self)@.valid(),
            final(self)@.valid(),
            exists|now: UtcInstant|
                now.clock_reading() && ({
                    let expected = #[trigger] old(self)@.admission(
                        request.name@,
                        request.idempotency_key@,
                        request.body@,
                        request.inputs@,
                        manifests@,
                        *artifacts,
                        files@,
                        *existing,
                        *config,
                        now,
                    );
                    &&& admits(r, expected)
                    &&& final(self)@ == old(self)@.after_admission(expected)
                }),
    {
        let now = time::utc_now();
        self.create_job_at(request, manifests, artifacts, files, existing, config, &now)
    }

    fn start(&mut self, job_id: String, job: RunningJob)
        requires
            conflict(job@.name, job@.concurrency, old(self)@.running) is None,
        ensures
            final(self)@ == (JobStoreView {
                running: names::inserted(old(self)@.running, job_id@, job@),
                ..old(self)@
            }),
            final(self)@.valid(),
    {
        proof {
            use_type_invariant(&*self);
        }
        let ghost before = self@.running;
        let ghost taken = self.running_jobs@;
        assert(names::with_values(Seq::<(Seq<char>, RunningJob)>::empty(), running_model())
            =~= Seq::empty());
        let mut running_jobs: NameMap<RunningJob> = NameMap::new();
        std::mem::swap(&mut running_jobs, &mut self.running_jobs);
        running_jobs.insert(job_id, job);
        proof {
            names::with_values_lookup(taken, running_model(), job_id@);
            names::with_values_inserted(taken, running_model(), job_id@, job);
            names::inserted_sorted(before, job_id@, job@);
            starting_keeps_exclusive(before, job_id@, job@);
        }
        self.running_jobs = running_jobs;
    }

    /// Takes a job run out of the running ones: it has ended, or it could not
    /// be set up after all. It is no longer among them, and the others still are.
    pub fn remove_running(&mut self, job_id: &str)
        ensures
            final(self)@ == (JobStoreView {
                running: names::removed(old(self)@.running, job_id@),
                ..old(self)@
            }),
            old(self)@.valid(),
            final(self)@.valid(),
            ends_run(old(self)@, final(self)@, job_id@),
    {
        proof {
            use_type_invariant(&*self);
        }
        let ghost before = self.running_jobs@;
        proof {
            run_is_ended(self@, job_id@);
            assert(names::with_values(Seq::<(Seq<char>, RunningJob)>::empty(), running_model())
                =~= Seq::empty());
        }
        let mut running_jobs: NameMap<RunningJob> = NameMap::new();
        std::mem::swap(&mut running_jobs, &mut self.running_jobs);
        running_jobs.remove(job_id);
        proof {
            names::with_values_removed(before, running_model(), job_id@);
        }
        self.running_jobs = running_jobs;
    }
}

/// A job run's metadata, given what its metadata file holds.
pub open spec fn found_job(root: Seq<char>, job_id: Seq<char>, file: JobFile) -> Result<
    JobMetadata,
    JobErrorView,
> {
    let path = paths::joined(job_directory(root, job_id), "metadata.json"@);
    if !is_job_id(job_id) {
        Err(JobErrorView::InvalidJobId(job_id))
    } else {
        match file {
            JobFile::Missing(_) => Err(JobErrorView::JobNotFound(job_id)),
            JobFile::Unreadable(source) => Err(JobErrorView::ReadFile { path, source: source@ }),
            JobFile::Unparsable(source) => Err(
                JobErrorView::ParseMetadata { path, source: source@ },
            ),
            JobFile::Parsed(metadata) => Ok(metadata),
        }
    }
}

/// The text of one of a job run's log files.
pub open spec fn found_log(path: Seq<char>, job_id: Seq<char>, log: LogFile) -> Result<
    Seq<char>,
    JobErrorView,
> {
    match log {
        LogFile::Missing => Err(JobErrorView::JobNotFound(job_id)),
        LogFile::Unreadable(source) => Err(JobErrorView::ReadFile { path, source: source@ }),
        LogFile::Text(t) => Ok(t@),
    }
}

/// Both logs of a job run; standard output counts first.
pub open spec fn found_logs(
    root: Seq<char>,
    job_id: Seq<char>,
    stdout: LogFile,
    stderr: LogFile,
) -> Result<(Seq<char>, Seq<char>), JobErrorView> {
    let directory = job_directory(root, job_id);
    if !is_job_id(job_id) {
        Err(JobErrorView::InvalidJobId(job_id))
    } else {
        match (
            found_log(paths::joined(directory, "stdout.log"@), job_id, stdout),
            found_log(paths::joined(directory, "stderr.log"@), job_id, stderr),
        ) {
            (Err(problem), _) => Err(problem),
            (_, Err(problem)) => Err(problem),
            (Ok(out), Ok(err)) => Ok((out, err)),
        }
    }
}

fn read_log(path: String, job_id: &str, log: LogFile) -> (r: Result<String, JobError>)
    ensures
        match r {
            Ok(t) => found_log(path@, job_id@, log) == Ok::<_, JobErrorView>(t@),
            Err(e) => found_log(path@, job_id@, log) == Err::<Seq<char>, _>(e@),
        },
{
    match log {
        LogFile::Missing => Err(JobError::JobNotFound(job_id.to_owned())),
        LogFile::Unreadable(source) => Err(JobError::ReadFile { path, source }),
        LogFile::Text(t) => Ok(t),
    }
}

/// Whether a status gives way to the next one: a terminal status never does,
/// and one that is not the expected one stays.
pub open spec fn moves_on(
    status: JobStatus,
    expected_current: Option<JobStatus>,
    next: JobStatus,
) -> bool {
    &&& !status.terminal()
    &&& expected_current matches Some(expected) ==> status == expected
    &&& status != next
}

/// The metadata to write when a job run is to move to the next status, if it
/// moves at all.
pub fn transition_metadata_status(
    metadata: JobMetadata,
    expected_current: Option<JobStatus>,
    next: JobStatus,
) -> (r: Option<JobMetadata>)
    ensures
        r == if moves_on(metadata.status, expected_current, next) {
            Some(JobMetadata { status: next, ..metadata })
        } else {
            None
        },
{
    if metadata.status.is_terminal() {
        return None;
    }
    if let Some(expected) = expected_current {
        if metadata.status != expected {
            return None;
        }
    }
    if metadata.status == next {
        return None;
    }
    let mut metadata = metadata;
    metadata.status = next;
    Some(metadata)
}

/// What a request to cancel a job run leads to.
#[derive(Debug)]
pub enum CancelStep {
    /// Nothing is left to do.
    AlreadyCanceled,
    /// Write the metadata, if there is something to write, then tell the run.
    Signal { persist: Option<JobMetadata> },
}

/// The metadata to write of a job run that is told to stop, given what its
/// metadata file holds: a running one is now asked to cancel, and of any other
/// there is nothing to write.
pub open spec fn cancel_requested(file: JobFile) -> Option<JobMetadata> {
    match file {
        JobFile::Parsed(metadata) => if metadata.status is Running {
            Some(JobMetadata { status: JobStatus::CancelRequested, ..metadata })
        } else {
            None
        },
        _ => None,
    }
}

/// The metadata to write of a job run that is told to stop because the runner
/// shuts down. What keeps the file from being read or parsed does not keep the
/// run from being told.
pub fn shutdown_step(file: JobFile) -> (r: Option<JobMetadata>)
    ensures
        r == cancel_requested(file),
{
    match file {
        JobFile::Parsed(metadata) => transition_metadata_status(
            metadata,
            Some(JobStatus::Running),
            JobStatus::CancelRequested,
        ),
        _ => None,
    }
}

/// What a request to cancel a job run leads to. A run that is not running can
/// only have been canceled before.
pub open spec fn cancellation(store: JobStoreView, job_id: Seq<char>, file: JobFile) -> Result<
    CancelStep,
    JobErrorView,
> {
    if !is_job_id(job_id) {
        Err(JobErrorView::InvalidJobId(job_id))
    } else {
        match names::lookup(store.running, job_id) {
            None => match found_job(store.root_dir, job_id, file) {
                Ok(metadata) => if metadata.status is CancelRequested
                    || metadata.status is Canceling || metadata.status is Canceled {
                    Ok(CancelStep::AlreadyCanceled)
                } else {
                    Err(JobErrorView::JobNotRunning(job_id))
                },
                Err(problem) => Err(problem),
            },
            Some(job) => match file {
                JobFile::Missing(source) | JobFile::Unreadable(source) => Err(
                    JobErrorView::ReadFile { path: job.metadata_path, source: source@ },
                ),
                JobFile::Unparsable(source) => Err(
                    JobErrorView::ParseMetadata { path: job.metadata_path, source: source@ },
                ),
                JobFile::Parsed(_) => Ok(CancelStep::Signal { persist: cancel_requested(file) }),
            },
        }
    }
}

impl JobStore {
    pub fn read_job(&self, job_id: &str, file: JobFile) -> (r: Result<JobMetadata, JobError>)
        ensures
            match r {
                Ok(metadata) => found_job(self@.root_dir, job_id@, file) == Ok::<_, JobErrorView>(
                    metadata,
                ),
                Err(e) => found_job(self@.root_dir, job_id@, file) == Err::<JobMetadata, _>(e@),
            },
    {
        if let Err(e) = validate_job_id(job_id) {
            return Err(e);
        }
        match file {
            JobFile::Missing(_) => Err(JobError::JobNotFound(job_id.to_owned())),
            JobFile::Unreadable(source) => Err(
                JobError::ReadFile { path: self.metadata_path(job_id), source },
            ),
            JobFile::Unparsable(source) => Err(
                JobError::ParseMetadata { path: self.metadata_path(job_id), source },
            ),
            JobFile::Parsed(metadata) => Ok(metadata),
        }
    }

    pub fn read_logs(&self, job_id: &str, stdout: LogFile, stderr: LogFile) -> (r: Result<
        JobLogs,
        JobError,
    >)
        ensures
            ({
                let expected = found_logs(self@.root_dir, job_id@, stdout, stderr);
                match r {
                    Ok(logs) => expected == Ok::<_, JobErrorView>((logs.stdout@, logs.stderr@)),
                    Err(e) => expected == Err::<(Seq<char>, Seq<char>), _>(e@),
                }
            }),
    {
        if let Err(e) = validate_job_id(job_id) {
            return Err(e);
        }
        let job_dir = self.job_dir(job_id);
        let stdout_path = paths::join(job_dir.as_str(), "stdout.log");
        let stderr_path = paths::join(job_dir.as_str(), "stderr.log");
        let stdout = match read_log(stdout_path, job_id, stdout) {
            Ok(t) => t,
            Err(e) => {
                return Err(e);
            },
        };
        let stderr = match read_log(stderr_path, job_id, stderr) {
            Ok(t) => t,
            Err(e) => {
                return Err(e);
            },
        };
        Ok(JobLogs { stdout, stderr })
    }

    /// Decides on a request to cancel a job run, given what its metadata file
    /// holds.
    pub fn cancel_job(&self, job_id: &str, file: JobFile) -> (r: Result<CancelStep, JobError>)
        ensures
            match r {
                Ok(step) => cancellation(self@, job_id@, file) == Ok::<_, JobErrorView>(step),
                Err(e) => cancellation(self@, job_id@, file) == Err::<CancelStep, _>(e@),
            },
    {
        if let Err(e) = validate_job_id(job_id) {
            return Err(e);
        }
        let found = self.running_jobs.get(job_id);
        proof {
            names::with_values_lookup(self.running_jobs@, running_model(), job_id@);
        }
        match found {
            None => match self.read_job(job_id, file) {
                Ok(metadata) => match metadata.status {
                    JobStatus::CancelRequested | JobStatus::Canceling | JobStatus::Canceled => Ok(
                        CancelStep::AlreadyCanceled,
                    ),
                    _ => Err(JobError::JobNotRunning(job_id.to_owned())),
                },
                Err(e) => Err(e),
            },
            Some(job) => match file {
                JobFile::Missing(source) | JobFile::Unreadable(source) => Err(
                    JobError::ReadFile { path: job.metadata_path.clone(), source },
                ),
                JobFile::Unparsable(source) => Err(
                    JobError::ParseMetadata { path: job.metadata_path.clone(), source },
                ),
                JobFile::Parsed(metadata) => {
                    let persist = transition_metadata_status(
                        metadata,
                        Some(JobStatus::Running),
                        JobStatus::CancelRequested,
                    );
                    Ok(CancelStep::Signal { persist })
                },
            },
        }
    }

    /// Stops accepting job runs, and says how many are to be told to stop: each
    /// of `running_jobs`, for which `shutdown_step` gives the metadata to write.
    pub fn begin_shutdown(&mut self) -> (r: usize)
        ensures
            final(self)@ == (JobStoreView { shutting_down: true, ..old(self)@ }),
            r == old(self)@.running.len(),
            old(self)@.valid(),
            final(self)@.valid(),
    {
        proof {
            use_type_invariant(&*self);
        }
        self.shutting_down = true;
        self.running_jobs.len()
    }

    /// Whether waiting for the job runs to end is over: with success once none
    /// is left, without once the deadline has come.
    pub fn drained(&self, now: u128, deadline: u128) -> (r: Option<bool>)
        ensures
            r == if self@.running.len() == 0 {
                Some(true)
            } else if now >= deadline {
                Some(false)
            } else {
                None
            },
    {
        if self.running_jobs.is_empty() {
            return Some(true);
        }
        if now >= deadline {
            return Some(false);
        }
        None
    }

    /// Ends a job run at `finished_at`.
    pub fn finish_job_at(
        &mut self,
        execution: JobExecution,
        outcome: Result<ExecutionOutcome, JobError>,
        registration: OutputRegistration,
        finished_at: &str,
    ) -> (r: FinishedJob)
        ensures
            r@ == execution::finished(
                execution@.metadata,
                execution::outcome_view(outcome),
                (registration.outputs@, outputs::failure_view(registration.failure)),
                execution.cleanup_successful_workdirs,
                execution.keep_failed_workdirs,
                finished_at@,
            ),
            final(self)@ == (JobStoreView {
                running: names::removed(old(self)@.running, execution.job_id@),
                ..old(self)@
            }),
            old(self)@.valid(),
            final(self)@.valid(),
            ends_run(old(self)@, final(self)@, execution.job_id@),
    {
        self.remove_running(execution.job_id.as_str());
        execution::finish(
            execution.metadata,
            outcome,
            registration,
            execution.cleanup_successful_workdirs,
            execution.keep_failed_workdirs,
            finished_at,
        )
    }

    /// Ends a job run now.
    pub fn finish_job(
        &mut self,
        execution: JobExecution,
        outcome: Result<ExecutionOutcome, JobError>,
        registration: OutputRegistration,
    ) -> (r: FinishedJob)
        ensures
            exists|second: int|
                0 <= second <= time::CALENDAR_LAST_SECOND && r@ == execution::finished(
                    execution@.metadata,
                    execution::outcome_view(outcome),
                    (registration.outputs@, outputs::failure_view(registration.failure)),
                    execution.cleanup_successful_workdirs,
                    execution.keep_failed_workdirs,
                    #[trigger] time::rfc3339(second),
                ),
            final(self)@ == (JobStoreView {
                running: names::removed(old(self)@.running, execution.job_id@),
                ..old(self)@
            }),
            old(self)@.valid(),
            final(self)@.valid(),
            ends_run(old(self)@, final(self)@, execution.job_id@),
    {
        let finished_at = time::now_rfc3339();
        self.finish_job_at(execution, outcome, registration, finished_at.as_str())
    }
}

/// A terminal status never gives way to another one.
pub proof fn terminal_status_is_final(
    status: JobStatus,
    expected_current: Option<JobStatus>,
    next: JobStatus,
)
    requires
        status.terminal(),
    ensures
        !moves_on(status, expected_current, next),
{
}

/// A shutdown writes of a run that has not ended what a request to cancel that
/// run writes.
pub proof fn shutdown_cancels_as_a_request_does(
    store: JobStoreView,
    job_id: Seq<char>,
    metadata: JobMetadata,
)
    requires
        is_job_id(job_id),
        names::has_name(store.running, job_id),
    ensures
        cancellation(store, job_id, JobFile::Parsed(metadata)) == Ok::<_, JobErrorView>(
            CancelStep::Signal { persist: cancel_requested(JobFile::Parsed(metadata)) },
        ),
{
}

/// A runner that shuts down accepts no job run, whatever is asked of it.
pub proof fn nothing_starts_during_shutdown(
    store: JobStoreView,
    name: Seq<char>,
    idempotency_key: Seq<char>,
    body: Seq<u8>,
    inputs: Seq<(Seq<char>, JsonValue)>,
    manifests: Seq<(Seq<char>, ManifestView)>,
    artifacts: ArtifactStore,
    files: Seq<(Seq<char>, MetadataFile)>,
    existing: ExistingJob,
    config: JobsConfig,
    now: UtcInstant,
)
    requires
        store.shutting_down,
    ensures
        ({
            let outcome = store.admission(
                name,
                idempotency_key,
                body,
                inputs,
                manifests,
                artifacts,
                files,
                existing,
                config,
                now,
            );
            &&& outcome == Err::<AdmissionView, _>(JobErrorView::ShuttingDown)
            &&& store.after_admission(outcome) == store
        }),
{
}

/// A request that started a run, made again while the run's metadata is there
/// and its inputs still hold, finds that run and starts no second one, whatever
/// else has started or ended in the meantime.
pub proof fn repeated_request_finds_its_run(
    first: JobStoreView,
    again: JobStoreView,
    name: Seq<char>,
    idempotency_key: Seq<char>,
    body: Seq<u8>,
    inputs: Seq<(Seq<char>, JsonValue)>,
    manifests: Seq<(Seq<char>, ManifestView)>,
    artifacts: ArtifactStore,
    files: Seq<(Seq<char>, MetadataFile)>,
    later_files: Seq<(Seq<char>, MetadataFile)>,
    config: JobsConfig,
    now: UtcInstant,
    later: UtcInstant,
    run: JobExecutionView,
    metadata: JobMetadata,
)
    requires
        crate::manifest::store::usable(manifests),
        first.admission(
            name,
            idempotency_key,
            body,
            inputs,
            manifests,
            artifacts,
            files,
            ExistingJob::Absent,
            config,
            now,
        ) == Ok::<_, JobErrorView>(started(run)),
        metadata@.job_id == run.metadata.job_id,
        metadata@.name == run.metadata.name,
        metadata@.idempotency_key == run.metadata.idempotency_key,
        metadata@.request_hash == run.metadata.request_hash,
        !again.shutting_down,
        inputs::validated_inputs(
            names::lookup(manifests, name)->0,
            inputs,
            artifacts,
            later_files,
            later,
        ) is Ok,
    ensures
        ({
            let outcome = again.admission(
                name,
                idempotency_key,
                body,
                inputs,
                manifests,
                artifacts,
                later_files,
                ExistingJob::Present(JobFile::Parsed(metadata)),
                config,
                later,
            );
            &&& outcome == Ok::<_, JobErrorView>(
                AdmissionView::Existing(
                    CreatedView {
                        job_id: run.job_id,
                        status: metadata.status,
                        started_at: metadata@.started_at,
                    },
                ),
            )
            &&& again.after_admission(outcome) == again
        }),
{
    let p = names::position_of(manifests, name);
    assert(manifests[p].1.name == manifests[p].0);
}

/// A request under a key that stands for another request's run is refused.
pub proof fn changed_request_conflicts(
    store: JobStoreView,
    name: Seq<char>,
    idempotency_key: Seq<char>,
    body: Seq<u8>,
    inputs: Seq<(Seq<char>, JsonValue)>,
    manifests: Seq<(Seq<char>, ManifestView)>,
    artifacts: ArtifactStore,
    files: Seq<(Seq<char>, MetadataFile)>,
    config: JobsConfig,
    now: UtcInstant,
    metadata: JobMetadata,
)
    requires
        !store.shutting_down,
        is_idempotency_key(idempotency_key),
        names::lookup(manifests, name) is Some,
        inputs::validated_inputs(
            names::lookup(manifests, name)->0,
            inputs,
            artifacts,
            files,
            now,
        ) is Ok,
        log_limit(config.default_log_limit_mb) is Some,
        metadata@.job_id != job_id_of(idempotency_key) || metadata@.name != name
            || metadata@.idempotency_key != idempotency_key || metadata@.request_hash
            != digest::request_hash(name, body),
    ensures
        store.admission(
            name,
            idempotency_key,
            body,
            inputs,
            manifests,
            artifacts,
            files,
            ExistingJob::Present(JobFile::Parsed(metadata)),
            config,
            now,
        ) == Err::<AdmissionView, _>(JobErrorView::IdempotencyConflict { key: idempotency_key }),
{
}

/// A request that differs from the one that started a run, in its name or its
/// body, and comes under the same key is refused and starts nothing, unless
/// SHA-256 takes the bytes of both requests to one digest.
pub proof fn another_request_conflicts(
    first: JobStoreView,
    again: JobStoreView,
    name: Seq<char>,
    later_name: Seq<char>,
    idempotency_key: Seq<char>,
    body: Seq<u8>,
    later_body: Seq<u8>,
    inputs: Seq<(Seq<char>, JsonValue)>,
    later_inputs: Seq<(Seq<char>, JsonValue)>,
    manifests: Seq<(Seq<char>, ManifestView)>,
    artifacts: ArtifactStore,
    files: Seq<(Seq<char>, MetadataFile)>,
    later_files: Seq<(Seq<char>, MetadataFile)>,
    config: JobsConfig,
    now: UtcInstant,
    later: UtcInstant,
    run: JobExecutionView,
    metadata: JobMetadata,
)
    requires
        crate::manifest::store::usable(manifests),
        first.admission(
            name,
            idempotency_key,
            body,
            inputs,
            manifests,
            artifacts,
            files,
            ExistingJob::Absent,
            config,
            now,
        ) == Ok::<_, JobErrorView>(started(run)),
        metadata@.job_id == run.metadata.job_id,
        metadata@.name == run.metadata.name,
        metadata@.idempotency_key == run.metadata.idempotency_key,
        metadata@.request_hash == run.metadata.request_hash,
        later_name != name || later_body != body,
        digest::sha256(digest::request_bytes(name, body)) == digest::sha256(
            digest::request_bytes(later_name, later_body),
        ) ==> digest::request_bytes(name, body) == digest::request_bytes(later_name, later_body),
        !again.shutting_down,
        names::lookup(manifests, later_name) is Some,
        inputs::validated_inputs(
            names::lookup(manifests, later_name)->0,
            later_inputs,
            artifacts,
            later_files,
            later,
        ) is Ok,
    ensures
        ({
            let outcome = again.admission(
                later_name,
                idempotency_key,
                later_body,
                later_inputs,
                manifests,
                artifacts,
                later_files,
                ExistingJob::Present(JobFile::Parsed(metadata)),
                config,
                later,
            );
            &&& outcome == Err::<AdmissionView, _>(
                JobErrorView::IdempotencyConflict { key: idempotency_key },
            )
            &&& again.after_admission(outcome) == again
        }),
{
    let p = names::position_of(manifests, name);
    assert(manifests[p].1.name == manifests[p].0);
    if later_name == name && digest::request_hash(name, body) == digest::request_hash(
        later_name,
        later_body,
    ) {
        let (x, y) = (
            digest::request_bytes(name, body),
            digest::request_bytes(later_name, later_body),
        );
        digest::hex_is_injective(digest::sha256(x), digest::sha256(y));
        let start = (vstd::utf8::encode_utf8(name) + seq![0u8]).len() as int;
        assert(x.skip(start) =~= body);
        assert(y.skip(start) =~= later_body);
    }
}

/// A started run is running until it is ended, and other runs are left alone.
pub proof fn started_run_is_running(
    store: JobStoreView,
    run: JobExecutionView,
    other: Seq<char>,
)
    requires
        store.valid(),
    ensures
        ({
            let after = store.after_admission(Ok(started(run)));
            &&& names::lookup(after.running, run.job_id) matches Some(job) && job.name
                == run.manifest.name && job.concurrency == run.manifest.concurrency
            &&& other != run.job_id ==> names::lookup(after.running, other) == names::lookup(
                store.running,
                other,
            )
            &&& names::lookup(names::removed(after.running, run.job_id), run.job_id) is None
        }),
{
    let job = RunningJobView {
        job_id: run.job_id,
        name: run.manifest.name,
        metadata_path: run.metadata_path,
        concurrency: run.manifest.concurrency,
    };
    names::inserted_sorted(store.running, run.job_id, job);
    names::inserted_lookup(store.running, run.job_id, job, run.job_id);
    names::inserted_lookup(store.running, run.job_id, job, other);
    names::removed_lookup(
        names::inserted(store.running, run.job_id, job),
        run.job_id,
        run.job_id,
    );
}

} // verus!
