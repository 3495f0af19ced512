//! Which requests start a job run, and what becomes of the run.
use vstd::prelude::*;

use crate::artifacts::store::{ArtifactStore, MetadataFile};
use crate::config::JobsConfig;
use crate::digest;
use crate::job::{JobArtifactMetadata, JobOutputMetadata, JobStatus, JobStreamMetadata};
use crate::jobs::error::JobErrorView;
use crate::jobs::input_laws;
use crate::jobs::inputs;
use crate::jobs::models::JobMetadata;
use crate::jobs::store;
use crate::jobs::store::{
    AdmissionView, CancelStep, CreatedView, ExistingJob, JobFile, JobStoreView, LogFile,
    RunningJobView,
};
use crate::json::JsonValue;
use crate::manifest::spec::ManifestView;
use crate::names;
use crate::paths;
use crate::schema::Concurrency;
use crate::search;
use crate::text;
use crate::time;
use crate::time::UtcInstant;

verus! {

/// The job may start beside the running ones: nothing else runs if it is
/// `global_exclusive`; otherwise no `global_exclusive` job runs, and, if it is
/// `job_exclusive`, no job of its name.
pub open spec fn may_start(
    name: Seq<char>,
    concurrency: Concurrency,
    running: Seq<(Seq<char>, RunningJobView)>,
) -> bool {
    match concurrency {
        Concurrency::GlobalExclusive => running.len() == 0,
        Concurrency::JobExclusive => forall|i: int|
            0 <= i < running.len() ==> (#[trigger] running[i]).1.concurrency
                != Concurrency::GlobalExclusive && running[i].1.name != name,
        Concurrency::Parallel => forall|i: int|
            0 <= i < running.len() ==> (#[trigger] running[i]).1.concurrency
                != Concurrency::GlobalExclusive,
    }
}

/// A job meets no conflict exactly if it may start beside the running ones.
pub proof fn which_jobs_conflict(
    name: Seq<char>,
    concurrency: Concurrency,
    running: Seq<(Seq<char>, RunningJobView)>,
)
    ensures
        (store::conflict(name, concurrency, running) is None) == may_start(
            name,
            concurrency,
            running,
        ),
{
    let check = store::conflict_check(name, concurrency);
    search::nothing_fails(running, check);
    if store::conflict(name, concurrency, running) is None {
        assert forall|i: int| 0 <= i < running.len() implies check(#[trigger] running[i]) is None by {}
        if running.len() > 0 {
            assert(check(running[0]) is None);
        }
        assert forall|i: int| 0 <= i < running.len() implies {
            &&& (#[trigger] running[i]).1.concurrency != Concurrency::GlobalExclusive
            &&& concurrency == Concurrency::JobExclusive ==> running[i].1.name != name
        } by {
            assert(check(running[i]) is None);
        }
    }
}

/// Of the running jobs that are in the way, the first says why a job may not
/// start.
pub proof fn first_conflict_is_reported(
    name: Seq<char>,
    concurrency: Concurrency,
    running: Seq<(Seq<char>, RunningJobView)>,
    i: int,
)
    requires
        0 <= i < running.len(),
        may_start(name, concurrency, running.take(i)),
        !may_start(name, concurrency, running.take(i + 1)),
    ensures
        store::conflict(name, concurrency, running) == Some(
            if concurrency == Concurrency::GlobalExclusive {
                "cannot start global_exclusive job while another job is running"@
            } else if running[i].1.concurrency == Concurrency::GlobalExclusive {
                "cannot start job while a global_exclusive job is running"@
            } else {
                "cannot start job "@ + name + " while another instance is running ("@
                    + running[i].1.job_id + ")"@
            },
        ),
{
    let check = store::conflict_check(name, concurrency);
    let (front, upto) = (running.take(i), running.take(i + 1));
    assert forall|k: int| 0 <= k < i implies check(#[trigger] running[k]) is None by {
        assert(front[k] == running[k]);
    }
    if check(running[i]) is None {
        assert forall|k: int| 0 <= k < upto.len() implies {
            &&& (#[trigger] upto[k]).1.concurrency != Concurrency::GlobalExclusive
            &&& concurrency == Concurrency::JobExclusive ==> upto[k].1.name != name
        } by {
            assert(check(running[k]) is None);
            assert(upto[k] == running[k]);
        }
    }
    search::first_failure_at(running, check, i);
}

/// 1 to 128 ASCII letters, digits, `-` and `_`.
pub open spec fn plain_key(key: Seq<char>) -> bool {
    &&& 1 <= key.len() <= 128
    &&& forall|i: int|
        0 <= i < key.len() ==> {
            ||| 'a' <= #[trigger] key[i] <= 'z'
            ||| 'A' <= key[i] <= 'Z'
            ||| '0' <= key[i] <= '9'
            ||| key[i] == '-'
            ||| key[i] == '_'
        }
}

/// Which idempotency keys pass.
pub proof fn which_keys_pass(key: Seq<char>)
    ensures
        store::is_idempotency_key(key) == plain_key(key),
{
    if store::is_idempotency_key(key) {
        assert forall|i: int| 0 <= i < key.len() implies {
            ||| 'a' <= #[trigger] key[i] <= 'z'
            ||| 'A' <= key[i] <= 'Z'
            ||| '0' <= key[i] <= '9'
            ||| key[i] == '-'
            ||| key[i] == '_'
        } by {
            assert(text::is_alphanumeric(key[i]) || key[i] == '-' || key[i] == '_');
        }
    }
    if plain_key(key) {
        assert forall|i: int| 0 <= i < key.len() implies text::is_alphanumeric(#[trigger] key[i])
            || key[i] == '-' || key[i] == '_' by {}
    }
}

/// Which identifiers of job runs pass.
pub proof fn which_job_ids_pass(job_id: Seq<char>)
    ensures
        store::is_job_id(job_id) == input_laws::plain_id(job_id, seq!['j', 'o', 'b', '_']),
{
    reveal_strlit("job_");
    assert("job_"@ =~= seq!['j', 'o', 'b', '_']);
    input_laws::which_ids_pass(job_id, "job_"@);
}

/// The run that a request under this key starts or finds: `job_` and the first
/// 32 hexadecimal digits of a digest of the key.
pub open spec fn run_id(key: Seq<char>) -> Seq<char> {
    seq!['j', 'o', 'b', '_'] + digest::hex(
        digest::sha256(seq![106u8, 111u8, 98u8, 0u8] + vstd::utf8::encode_utf8(key)),
    ).take(32)
}

proof fn run_ids(key: Seq<char>)
    ensures
        store::job_id_of(key) == run_id(key),
{
    reveal_strlit("job_");
    reveal_strlit("job");
    assert("job_"@ =~= seq!['j', 'o', 'b', '_']);
    let name = "job"@;
    assert(name =~= seq!['j', 'o', 'b']);
    assert(vstd::utf8::is_ascii_chars(name));
    vstd::utf8::is_ascii_chars_encode_utf8(name);
    assert(vstd::utf8::encode_utf8(name) =~= seq![106u8, 111u8, 98u8]);
    assert(digest::request_bytes(name, vstd::utf8::encode_utf8(key)) =~= seq![
        106u8,
        111u8,
        98u8,
        0u8,
    ] + vstd::utf8::encode_utf8(key));
}

/// The digest of a named request: of its name, a zero byte and its body.
pub open spec fn digest_of_request(name: Seq<char>, body: Seq<u8>) -> Seq<char> {
    digest::hex(digest::sha256(vstd::utf8::encode_utf8(name) + seq![0u8] + body))
}

/// `file` in the directory of a run.
pub open spec fn in_run(root: Seq<char>, job_id: Seq<char>, file: Seq<char>) -> Seq<char> {
    paths::joined(paths::joined(root, job_id), file)
}

/// A request that is refused before it is looked up whether it was made before:
/// a runner that shuts down refuses everything; otherwise the key, the job, its
/// inputs and the log limit are looked at in this order.
pub open spec fn refused_early(
    jobs: JobStoreView,
    name: Seq<char>,
    key: Seq<char>,
    body: Seq<u8>,
    given: Seq<(Seq<char>, JsonValue)>,
    manifests: Seq<(Seq<char>, ManifestView)>,
    artifacts: ArtifactStore,
    files: Seq<(Seq<char>, MetadataFile)>,
    config: JobsConfig,
    now: UtcInstant,
    outcome: Result<AdmissionView, JobErrorView>,
) -> bool {
    let refused = |e: JobErrorView| outcome == Err::<AdmissionView, _>(e);
    ||| jobs.shutting_down && refused(JobErrorView::ShuttingDown)
    ||| !jobs.shutting_down && !plain_key(key) && refused(JobErrorView::InvalidIdempotencyKey(key))
    ||| !jobs.shutting_down && plain_key(key) && !listed(manifests, name) && refused(
        JobErrorView::UnknownJob(name),
    )
    ||| exists|m: int|
        !jobs.shutting_down && plain_key(key) && 0 <= m < manifests.len() && (
        #[trigger] manifests[m]).0 == name && match inputs::validated_inputs(
            manifests[m].1,
            given,
            artifacts,
            files,
            now,
        ) {
            Err(problem) => refused(problem),
            Ok(_) => config.default_log_limit_mb * 1_048_576 > u64::MAX && refused(
                JobErrorView::InvalidLogLimit { max_size_mb: config.default_log_limit_mb },
            ),
        }
}

/// A manifest is listed under the name.
pub open spec fn listed(manifests: Seq<(Seq<char>, ManifestView)>, name: Seq<char>) -> bool {
    exists|m: int| 0 <= m < manifests.len() && (#[trigger] manifests[m]).0 == name
}

/// Nothing is wrong with a request for the job at `m`, but for what may lie at
/// the place of its run and for what else is running.
pub open spec fn in_order(
    jobs: JobStoreView,
    name: Seq<char>,
    key: Seq<char>,
    body: Seq<u8>,
    given: Seq<(Seq<char>, JsonValue)>,
    manifests: Seq<(Seq<char>, ManifestView)>,
    artifacts: ArtifactStore,
    files: Seq<(Seq<char>, MetadataFile)>,
    config: JobsConfig,
    now: UtcInstant,
    m: int,
) -> bool {
    &&& !jobs.shutting_down
    &&& plain_key(key)
    &&& 0 <= m < manifests.len()
    &&& manifests[m].0 == name
    &&& inputs::validated_inputs(manifests[m].1, given, artifacts, files, now) is Ok
    &&& config.default_log_limit_mb * 1_048_576 <= u64::MAX
}

/// What becomes of a request whose place is free. If it is in order and its job
/// may start beside the running ones, it starts a run, and only then. What fails
/// first is the reason why it is refused.
pub proof fn which_requests_start_a_run(
    jobs: JobStoreView,
    name: Seq<char>,
    key: Seq<char>,
    body: Seq<u8>,
    given: Seq<(Seq<char>, JsonValue)>,
    manifests: Seq<(Seq<char>, ManifestView)>,
    artifacts: ArtifactStore,
    files: Seq<(Seq<char>, MetadataFile)>,
    config: JobsConfig,
    now: UtcInstant,
)
    requires
        names::names_sorted(manifests),
    ensures
        ({
            let outcome = jobs.admission(
                name,
                key,
                body,
                given,
                manifests,
                artifacts,
                files,
                ExistingJob::Absent,
                config,
                now,
            );
            ||| refused_early(jobs, name, key, body, given, manifests, artifacts, files, config, now, outcome)
            ||| exists|m: int|
                #[trigger] in_order(jobs, name, key, body, given, manifests, artifacts, files, config, now, m)
                    && if may_start(
                    manifests[m].1.name,
                    manifests[m].1.concurrency,
                    jobs.running,
                ) {
                    outcome is Ok && outcome->Ok_0 is Started
                } else {
                    outcome == Err::<AdmissionView, _>(
                        JobErrorView::ConcurrencyConflict {
                            reason: store::conflict(
                                manifests[m].1.name,
                                manifests[m].1.concurrency,
                                jobs.running,
                            )->0,
                        },
                    )
                }
        }),
{
    which_keys_pass(key);
    if names::has_name(manifests, name) {
        let m = names::position_of(manifests, name);
        assert(manifests[m].0 == name);
        which_jobs_conflict(manifests[m].1.name, manifests[m].1.concurrency, jobs.running);
        assert(inputs::validated_inputs(manifests[m].1, given, artifacts, files, now) is Ok
            && config.default_log_limit_mb * 1_048_576 <= u64::MAX && !jobs.shutting_down
            && plain_key(key) ==> in_order(
            jobs,
            name,
            key,
            body,
            given,
            manifests,
            artifacts,
            files,
            config,
            now,
            m,
        ));
    } else {
        assert(!listed(manifests, name));
    }
}

/// What a started run is: it has the identifier of its key, its files lie in the
/// directory of that name, and its metadata says that the job of that name runs
/// since now, with these inputs, and nothing yet of its end. The client is told
/// the same.
pub proof fn what_a_started_run_is(
    jobs: JobStoreView,
    name: Seq<char>,
    key: Seq<char>,
    body: Seq<u8>,
    given: Seq<(Seq<char>, JsonValue)>,
    manifests: Seq<(Seq<char>, ManifestView)>,
    artifacts: ArtifactStore,
    files: Seq<(Seq<char>, MetadataFile)>,
    config: JobsConfig,
    now: UtcInstant,
    m: int,
)
    requires
        names::names_sorted(manifests),
        in_order(jobs, name, key, body, given, manifests, artifacts, files, config, now, m),
        may_start(manifests[m].1.name, manifests[m].1.concurrency, jobs.running),
    ensures
        ({
            let outcome = jobs.admission(
                name,
                key,
                body,
                given,
                manifests,
                artifacts,
                files,
                ExistingJob::Absent,
                config,
                now,
            );
            &&& outcome matches Ok(AdmissionView::Started { run, told })
            &&& run.manifest == manifests[m].1
            &&& run.job_id == run_id(key)
            &&& run.metadata_path == in_run(jobs.root_dir, run_id(key), "metadata.json"@)
            &&& run.work_dir == in_run(jobs.root_dir, run_id(key), "work"@)
            &&& run.output_dir == in_run(jobs.root_dir, run_id(key), "output"@)
            &&& run.stdout_path == in_run(jobs.root_dir, run_id(key), "stdout.log"@)
            &&& run.stderr_path == in_run(jobs.root_dir, run_id(key), "stderr.log"@)
            &&& run.log_limit_bytes == config.default_log_limit_mb * 1_048_576
            &&& run.cleanup_successful_workdirs == config.cleanup_successful_workdirs
            &&& run.keep_failed_workdirs == config.keep_failed_workdirs
            &&& run.raw_inputs == given
            &&& run.metadata.job_id == run_id(key)
            &&& run.metadata.name == manifests[m].1.name
            &&& run.metadata.idempotency_key == key
            &&& run.metadata.request_hash == digest_of_request(manifests[m].1.name, body)
            &&& run.metadata.status == JobStatus::Running
            &&& run.metadata.started_at == time::rfc3339(now.seconds as int)
            &&& run.metadata.finished_at is None
            &&& run.metadata.duration_ms is None
            &&& run.metadata.exit_code is None
            &&& run.metadata.terminal_reason is None
            &&& run.metadata.failure_category is None
            &&& run.metadata.inputs == inputs::shown_inputs(manifests[m].1.inputs, given)
            &&& run.metadata.resolved_artifacts == inputs::validated_inputs(
                manifests[m].1,
                given,
                artifacts,
                files,
                now,
            )->Ok_0
            &&& run.metadata.outputs.len() == 0
            &&& run.metadata.output_metadata == (JobOutputMetadata {
                stdout: JobStreamMetadata { bytes: 0, truncated: false },
                stderr: JobStreamMetadata { bytes: 0, truncated: false },
                artifacts: JobArtifactMetadata { count: 0, bytes: 0 },
            })
            &&& told.job_id == run_id(key)
            &&& told.status == JobStatus::Running
            &&& told.started_at == time::rfc3339(now.seconds as int)
        }),
{
    which_keys_pass(key);
    run_ids(key);
    names::lookup_at(manifests, m);
    which_jobs_conflict(manifests[m].1.name, manifests[m].1.concurrency, jobs.running);
}

/// What becomes of a request that is in order and whose place is taken, whatever
/// else is running. If the run there was started under the same key by a request
/// for the same job with the same digest, the client is told of it; if by another
/// request, or if the run's metadata cannot be read, it is refused. Nothing
/// starts.
pub proof fn what_a_taken_place_means(
    jobs: JobStoreView,
    name: Seq<char>,
    key: Seq<char>,
    body: Seq<u8>,
    given: Seq<(Seq<char>, JsonValue)>,
    manifests: Seq<(Seq<char>, ManifestView)>,
    artifacts: ArtifactStore,
    files: Seq<(Seq<char>, MetadataFile)>,
    file: JobFile,
    config: JobsConfig,
    now: UtcInstant,
    m: int,
)
    requires
        names::names_sorted(manifests),
        in_order(jobs, name, key, body, given, manifests, artifacts, files, config, now, m),
    ensures
        ({
            let outcome = jobs.admission(
                name,
                key,
                body,
                given,
                manifests,
                artifacts,
                files,
                ExistingJob::Present(file),
                config,
                now,
            );
            let path = in_run(jobs.root_dir, run_id(key), "metadata.json"@);
            &&& jobs.after_admission(outcome) == jobs
            &&& match file {
                JobFile::Missing(source) => outcome == Err::<AdmissionView, _>(
                    JobErrorView::ReadFile { path, source: source@ },
                ),
                JobFile::Unreadable(source) => outcome == Err::<AdmissionView, _>(
                    JobErrorView::ReadFile { path, source: source@ },
                ),
                JobFile::Unparsable(source) => outcome == Err::<AdmissionView, _>(
                    JobErrorView::ParseMetadata { path, source: source@ },
                ),
                JobFile::Parsed(metadata) => if metadata.job_id@ == run_id(key) && metadata.name@
                    == name && metadata.idempotency_key@ == key && metadata.request_hash@
                    == digest_of_request(name, body) {
                    outcome == Ok::<_, JobErrorView>(
                        AdmissionView::Existing(
                            CreatedView {
                                job_id: run_id(key),
                                status: metadata.status,
                                started_at: metadata.started_at@,
                            },
                        ),
                    )
                } else {
                    outcome == Err::<AdmissionView, _>(
                        JobErrorView::IdempotencyConflict { key },
                    )
                },
            }
        }),
{
    which_keys_pass(key);
    run_ids(key);
    names::lookup_at(manifests, m);
}

/// A request whose place is taken is refused early for the reasons for which one
/// whose place is free is.
pub proof fn a_taken_place_changes_no_early_refusal(
    jobs: JobStoreView,
    name: Seq<char>,
    key: Seq<char>,
    body: Seq<u8>,
    given: Seq<(Seq<char>, JsonValue)>,
    manifests: Seq<(Seq<char>, ManifestView)>,
    artifacts: ArtifactStore,
    files: Seq<(Seq<char>, MetadataFile)>,
    file: JobFile,
    config: JobsConfig,
    now: UtcInstant,
)
    requires
        names::names_sorted(manifests),
    ensures
        ({
            let outcome = jobs.admission(
                name,
                key,
                body,
                given,
                manifests,
                artifacts,
                files,
                ExistingJob::Present(file),
                config,
                now,
            );
            ||| refused_early(jobs, name, key, body, given, manifests, artifacts, files, config, now, outcome)
            ||| exists|m: int|
                #[trigger] in_order(jobs, name, key, body, given, manifests, artifacts, files, config, now, m)
        }),
{
    which_keys_pass(key);
    if names::has_name(manifests, name) {
        let m = names::position_of(manifests, name);
        assert(manifests[m].0 == name);
        assert(inputs::validated_inputs(manifests[m].1, given, artifacts, files, now) is Ok
            && config.default_log_limit_mb * 1_048_576 <= u64::MAX && !jobs.shutting_down
            && plain_key(key) ==> in_order(
            jobs,
            name,
            key,
            body,
            given,
            manifests,
            artifacts,
            files,
            config,
            now,
            m,
        ));
    } else {
        assert(!listed(manifests, name));
    }
}

/// Once a request was answered, exactly the run that it started, if it started
/// one, is running besides those that ran before.
pub proof fn what_runs_after_a_request(
    jobs: JobStoreView,
    outcome: Result<AdmissionView, JobErrorView>,
    q: Seq<char>,
)
    requires
        jobs.valid(),
    ensures
        ({
            let after = jobs.after_admission(outcome);
            &&& after.root_dir == jobs.root_dir
            &&& after.shutting_down == jobs.shutting_down
            &&& match outcome {
                Ok(AdmissionView::Started { run, .. }) => names::lookup(after.running, q) == if q
                    == run.job_id {
                    Some(
                        RunningJobView {
                            job_id: run.job_id,
                            name: run.manifest.name,
                            metadata_path: run.metadata_path,
                            concurrency: run.manifest.concurrency,
                        },
                    )
                } else {
                    names::lookup(jobs.running, q)
                },
                _ => after.running == jobs.running,
            }
        }),
{
    if let Ok(AdmissionView::Started { run, told }) = outcome {
        let job = RunningJobView {
            job_id: run.job_id,
            name: run.manifest.name,
            metadata_path: run.metadata_path,
            concurrency: run.manifest.concurrency,
        };
        names::inserted_lookup(jobs.running, run.job_id, job, q);
    }
}

/// A status gives way exactly if the run is running, asked to cancel or
/// canceling, stands where it is expected to stand, and the next status is
/// another one.
pub proof fn which_statuses_move_on(
    status: JobStatus,
    expected: Option<JobStatus>,
    next: JobStatus,
)
    ensures
        store::moves_on(status, expected, next) == {
            &&& status == JobStatus::Running || status == JobStatus::CancelRequested || status
                == JobStatus::Canceling
            &&& expected is None || expected == Some(status)
            &&& next != status
        },
        status.terminal() == (status == JobStatus::Success || status == JobStatus::Failed || status
            == JobStatus::TimedOut || status == JobStatus::Canceled || status
            == JobStatus::Rejected),
{
}

/// What a request to cancel leads to. A run that has not ended is told to stop,
/// and if it was still running its metadata now says so. Of a run that has ended
/// nothing is left to do if it was canceled, and it is too late otherwise.
pub proof fn what_canceling_does(jobs: JobStoreView, job_id: Seq<char>, file: JobFile)
    requires
        jobs.valid(),
    ensures
        ({
            let outcome = store::cancellation(jobs, job_id, file);
            let refused = |e: JobErrorView| outcome == Err::<CancelStep, _>(e);
            let path = in_run(jobs.root_dir, job_id, "metadata.json"@);
            if !input_laws::plain_id(job_id, seq!['j', 'o', 'b', '_']) {
                refused(JobErrorView::InvalidJobId(job_id))
            } else if exists|i: int|
                0 <= i < jobs.running.len() && (#[trigger] jobs.running[i]).0 == job_id {
                forall|i: int|
                    0 <= i < jobs.running.len() && (#[trigger] jobs.running[i]).0 == job_id
                        ==> match file {
                        JobFile::Missing(source) => refused(
                            JobErrorView::ReadFile {
                                path: jobs.running[i].1.metadata_path,
                                source: source@,
                            },
                        ),
                        JobFile::Unreadable(source) => refused(
                            JobErrorView::ReadFile {
                                path: jobs.running[i].1.metadata_path,
                                source: source@,
                            },
                        ),
                        JobFile::Unparsable(source) => refused(
                            JobErrorView::ParseMetadata {
                                path: jobs.running[i].1.metadata_path,
                                source: source@,
                            },
                        ),
                        JobFile::Parsed(metadata) => {
                            &&& outcome matches Ok(CancelStep::Signal { persist })
                            &&& if metadata.status == JobStatus::Running {
                                persist == Some(
                                    JobMetadata { status: JobStatus::CancelRequested, ..metadata },
                                )
                            } else {
                                persist is None
                            }
                        },
                    }
            } else {
                match file {
                    JobFile::Missing(_) => refused(JobErrorView::JobNotFound(job_id)),
                    JobFile::Unreadable(source) => refused(
                        JobErrorView::ReadFile { path, source: source@ },
                    ),
                    JobFile::Unparsable(source) => refused(
                        JobErrorView::ParseMetadata { path, source: source@ },
                    ),
                    JobFile::Parsed(metadata) => match metadata.status {
                        JobStatus::CancelRequested | JobStatus::Canceling | JobStatus::Canceled => {
                            outcome == Ok::<_, JobErrorView>(CancelStep::AlreadyCanceled)
                        },
                        JobStatus::Running | JobStatus::Success | JobStatus::Failed
                        | JobStatus::TimedOut | JobStatus::Rejected => refused(
                            JobErrorView::JobNotRunning(job_id),
                        ),
                    },
                }
            }
        }),
{
    which_job_ids_pass(job_id);
    assert forall|i: int| 0 <= i < jobs.running.len() && (#[trigger] jobs.running[i]).0
        == job_id implies names::lookup(jobs.running, job_id) == Some(jobs.running[i].1) by {
        names::lookup_at(jobs.running, i);
    }
}

/// A shutdown asks exactly the runs whose metadata says that they are running to
/// cancel, and changes nothing else of their metadata.
pub proof fn what_a_shutdown_writes(file: JobFile)
    ensures
        match store::cancel_requested(file) {
            Some(written) => file matches JobFile::Parsed(metadata) && metadata.status
                == JobStatus::Running && written == (JobMetadata {
                status: JobStatus::CancelRequested,
                ..metadata
            }),
            None => file matches JobFile::Parsed(metadata) ==> metadata.status != JobStatus::Running,
        },
{
}

/// What is told of a run: what its metadata file holds, under a well-formed
/// identifier; both logs, from the files that the run writes them to.
pub proof fn what_is_read_of_a_run(
    root: Seq<char>,
    job_id: Seq<char>,
    file: JobFile,
    stdout: LogFile,
    stderr: LogFile,
)
    ensures
        ({
            let job = store::found_job(root, job_id, file);
            let refused = |e: JobErrorView| job == Err::<JobMetadata, _>(e);
            if !input_laws::plain_id(job_id, seq!['j', 'o', 'b', '_']) {
                refused(JobErrorView::InvalidJobId(job_id))
            } else {
                match file {
                    JobFile::Missing(_) => refused(JobErrorView::JobNotFound(job_id)),
                    JobFile::Unreadable(source) => refused(
                        JobErrorView::ReadFile {
                            path: in_run(root, job_id, "metadata.json"@),
                            source: source@,
                        },
                    ),
                    JobFile::Unparsable(source) => refused(
                        JobErrorView::ParseMetadata {
                            path: in_run(root, job_id, "metadata.json"@),
                            source: source@,
                        },
                    ),
                    JobFile::Parsed(metadata) => job == Ok::<_, JobErrorView>(metadata),
                }
            }
        }),
        ({
            let logs = store::found_logs(root, job_id, stdout, stderr);
            let refused = |e: JobErrorView| logs == Err::<(Seq<char>, Seq<char>), _>(e);
            if !input_laws::plain_id(job_id, seq!['j', 'o', 'b', '_']) {
                refused(JobErrorView::InvalidJobId(job_id))
            } else {
                match (stdout, stderr) {
                    (LogFile::Text(out), LogFile::Text(err)) => logs == Ok::<_, JobErrorView>(
                        (out@, err@),
                    ),
                    (LogFile::Missing, _) => refused(JobErrorView::JobNotFound(job_id)),
                    (LogFile::Unreadable(source), _) => refused(
                        JobErrorView::ReadFile {
                            path: in_run(root, job_id, "stdout.log"@),
                            source: source@,
                        },
                    ),
                    (LogFile::Text(_), LogFile::Missing) => refused(
                        JobErrorView::JobNotFound(job_id),
                    ),
                    (LogFile::Text(_), LogFile::Unreadable(source)) => refused(
                        JobErrorView::ReadFile {
                            path: in_run(root, job_id, "stderr.log"@),
                            source: source@,
                        },
                    ),
                }
            }
        }),
{
    which_job_ids_pass(job_id);
}

} // verus!
