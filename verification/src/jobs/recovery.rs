//! Picking up after a runner that stopped while jobs were running.
use vstd::prelude::*;

use crate::job::{FailureCategory, JobStatus, TerminalReason};
use crate::jobs::error::{JobError, JobErrorView};
use crate::jobs::models::{JobMetadata, JobMetadataView};
use crate::jobs::outputs;
use crate::jobs::store::{JobFile, JobStore};
use crate::paths;
use crate::time;

verus! {

pub const RECOVERY_RUNNING_MESSAGE: &'static str =
    "runner restarted before job completion; marking job as failed";

pub const RECOVERY_CANCEL_MESSAGE: &'static str =
    "runner restarted while canceling the job; marking job as canceled";

/// An entry of the jobs directory, with what its metadata file holds.
#[derive(Debug)]
pub enum JobEntry {
    Unreadable(String),
    NotDirectory,
    Directory { path: String, metadata: JobFile },
}

/// What is done about a job run that was interrupted.
#[derive(Debug)]
pub enum RecoveryAction {
    /// The run left nothing usable: its directory goes.
    RemoveDirectory { path: String },
    /// The run is over: its metadata is written, and its log says why.
    Close {
        metadata_path: String,
        metadata: JobMetadata,
        stderr_path: String,
        message: &'static str,
    },
}

/// The mathematical counterpart of `RecoveryAction`.
pub enum RecoveryActionView {
    RemoveDirectory { path: Seq<char> },
    Close {
        metadata_path: Seq<char>,
        metadata: JobMetadataView,
        stderr_path: Seq<char>,
        message: Seq<char>,
    },
}

impl View for RecoveryAction {
    type V = RecoveryActionView;

    open spec fn view(&self) -> RecoveryActionView {
        match self {
            RecoveryAction::RemoveDirectory { path } => RecoveryActionView::RemoveDirectory {
                path: path@,
            },
            RecoveryAction::Close { metadata_path, metadata, stderr_path, message } => {
                RecoveryActionView::Close {
                    metadata_path: metadata_path@,
                    metadata: metadata@,
                    stderr_path: stderr_path@,
                    message: message@,
                }
            },
        }
    }
}

/// What a recovery does, in order, and the failure that ends it early. The runs
/// that it recovers are those that it does something about.
#[derive(Debug)]
pub struct Recovery {
    pub actions: Vec<RecoveryAction>,
    pub failure: Option<JobError>,
}

/// The mathematical counterpart of `Recovery`.
pub struct RecoveryView {
    pub actions: Seq<RecoveryActionView>,
    pub failure: Option<JobErrorView>,
}

/// An action by its mathematical counterpart.
pub open spec fn action_model() -> spec_fn(RecoveryAction) -> RecoveryActionView {
    |action: RecoveryAction| action@
}

impl View for Recovery {
    type V = RecoveryView;

    open spec fn view(&self) -> RecoveryView {
        RecoveryView {
            actions: self.actions@.map_values(action_model()),
            failure: outputs::failure_view(self.failure),
        }
    }
}

/// How an interrupted run ends, and what its log is told: a running one has
/// failed, one that was being canceled is canceled, and the rest had ended.
pub open spec fn interrupted(status: JobStatus) -> Option<(JobStatus, FailureCategory, Seq<char>)> {
    match status {
        JobStatus::Running => Some(
            (
                JobStatus::Failed,
                FailureCategory::Infra,
                "runner restarted before job completion; marking job as failed"@,
            ),
        ),
        JobStatus::CancelRequested | JobStatus::Canceling => Some(
            (
                JobStatus::Canceled,
                FailureCategory::Canceled,
                "runner restarted while canceling the job; marking job as canceled"@,
            ),
        ),
        _ => None,
    }
}

/// The metadata of a run that recovery closes at `finished_at`.
pub open spec fn closed(
    metadata: JobMetadataView,
    status: JobStatus,
    category: FailureCategory,
    finished_at: Seq<char>,
) -> JobMetadataView {
    JobMetadataView {
        status,
        finished_at: Some(finished_at),
        duration_ms: time::duration_ms(metadata.started_at, Some(finished_at)),
        exit_code: None,
        terminal_reason: Some(TerminalReason::Shutdown),
        failure_category: Some(category),
        ..metadata
    }
}

/// What recovery does about one entry of the jobs directory.
pub open spec fn recovery_step(root: Seq<char>, entry: JobEntry, finished_at: Seq<char>) -> Result<
    Option<RecoveryActionView>,
    JobErrorView,
> {
    match entry {
        JobEntry::Unreadable(source) => Err(
            JobErrorView::ReadFile { path: root, source: source@ },
        ),
        JobEntry::NotDirectory => Ok(None),
        JobEntry::Directory { path, metadata } => match metadata {
            JobFile::Missing(_) | JobFile::Unparsable(_) => Ok(
                Some(RecoveryActionView::RemoveDirectory { path: path@ }),
            ),
            JobFile::Unreadable(source) => Err(
                JobErrorView::ReadFile {
                    path: paths::joined(path@, "metadata.json"@),
                    source: source@,
                },
            ),
            JobFile::Parsed(metadata) => match interrupted(metadata.status) {
                None => Ok(None),
                Some((status, category, message)) => Ok(
                    Some(
                        RecoveryActionView::Close {
                            metadata_path: paths::joined(path@, "metadata.json"@),
                            metadata: closed(metadata@, status, category, finished_at),
                            stderr_path: paths::joined(path@, "stderr.log"@),
                            message,
                        },
                    ),
                ),
            },
        },
    }
}

/// What recovery does about the first `n` entries of the jobs directory.
pub open spec fn recovered(
    root: Seq<char>,
    entries: Seq<JobEntry>,
    finished_at: Seq<char>,
    n: nat,
) -> RecoveryView
    decreases n,
{
    if n == 0 {
        RecoveryView { actions: Seq::empty(), failure: None }
    } else {
        let before = recovered(root, entries, finished_at, (n - 1) as nat);
        if before.failure is Some {
            before
        } else {
            match recovery_step(root, entries[n - 1], finished_at) {
                Err(problem) => RecoveryView { failure: Some(problem), ..before },
                Ok(None) => before,
                Ok(Some(action)) => RecoveryView {
                    actions: before.actions.push(action),
                    ..before
                },
            }
        }
    }
}

proof fn recovery_stops_at_failure(
    root: Seq<char>,
    entries: Seq<JobEntry>,
    finished_at: Seq<char>,
    k: nat,
    n: nat,
)
    requires
        k <= n,
        recovered(root, entries, finished_at, k).failure is Some,
    ensures
        recovered(root, entries, finished_at, n) == recovered(root, entries, finished_at, k),
    decreases n,
{
    if k < n {
        recovery_stops_at_failure(root, entries, finished_at, k, (n - 1) as nat);
    }
}

fn close_run(
    metadata: &JobMetadata,
    status: JobStatus,
    category: FailureCategory,
    finished_at: &str,
) -> (r: JobMetadata)
    ensures
        r@ == closed(metadata@, status, category, finished_at@),
{
    let mut out = metadata.clone();
    out.status = status;
    out.duration_ms = time::calculate_duration_ms(out.started_at.as_str(), Some(finished_at));
    out.finished_at = Some(finished_at.to_owned());
    out.exit_code = None;
    out.terminal_reason = Some(TerminalReason::Shutdown);
    out.failure_category = Some(category);
    out
}

/// Decides what recovery does about one entry of the jobs directory at `root`.
pub fn recover_entry(root: &str, entry: &JobEntry, finished_at: &str) -> (r: Result<
    Option<RecoveryAction>,
    JobError,
>)
    ensures
        ({
            let expected = recovery_step(root@, *entry, finished_at@);
            match r {
                Ok(Some(action)) => expected == Ok::<_, JobErrorView>(Some(action@)),
                Ok(None) => expected == Ok::<Option<RecoveryActionView>, JobErrorView>(None),
                Err(e) => expected == Err::<Option<RecoveryActionView>, _>(e@),
            }
        }),
{
    match entry {
        JobEntry::Unreadable(source) => Err(
            JobError::ReadFile { path: root.to_owned(), source: source.clone() },
        ),
        JobEntry::NotDirectory => Ok(None),
        JobEntry::Directory { path, metadata } => match metadata {
            JobFile::Missing(_) | JobFile::Unparsable(_) => Ok(
                Some(RecoveryAction::RemoveDirectory { path: path.clone() }),
            ),
            JobFile::Unreadable(source) => Err(
                JobError::ReadFile {
                    path: paths::join(path.as_str(), "metadata.json"),
                    source: source.clone(),
                },
            ),
            JobFile::Parsed(metadata) => {
                let (status, category, message) = match metadata.status {
                    JobStatus::Running => (
                        JobStatus::Failed,
                        FailureCategory::Infra,
                        RECOVERY_RUNNING_MESSAGE,
                    ),
                    JobStatus::CancelRequested | JobStatus::Canceling => (
                        JobStatus::Canceled,
                        FailureCategory::Canceled,
                        RECOVERY_CANCEL_MESSAGE,
                    ),
                    _ => {
                        return Ok(None);
                    },
                };
                Ok(
                    Some(
                        RecoveryAction::Close {
                            metadata_path: paths::join(path.as_str(), "metadata.json"),
                            metadata: close_run(metadata, status, category, finished_at),
                            stderr_path: paths::join(path.as_str(), "stderr.log"),
                            message,
                        },
                    ),
                )
            },
        },
    }
}

/// Decides what recovery does about all entries of the jobs directory at `root`.
pub fn recover_interrupted_jobs_at(root: &str, entries: &Vec<JobEntry>, finished_at: &str) -> (r:
    Recovery)
    ensures
        r@ == recovered(root@, entries@, finished_at@, entries@.len()),
{
    let mut recovery = Recovery { actions: Vec::new(), failure: None };
    assert(recovery@.actions =~= Seq::empty());
    let mut i: usize = 0;
    while i < entries.len()
        invariant
            i <= entries@.len(),
            recovery.failure is None,
            recovery@ == recovered(root@, entries@, finished_at@, i as nat),
        decreases entries@.len() - i,
    {
        let ghost before = recovery@;
        match recover_entry(root, &entries[i], finished_at) {
            Err(e) => {
                recovery.failure = Some(e);
                proof {
                    assert(recovery@ == recovered(root@, entries@, finished_at@, (i + 1) as nat));
                    recovery_stops_at_failure(
                        root@,
                        entries@,
                        finished_at@,
                        (i + 1) as nat,
                        entries@.len(),
                    );
                }
                return recovery;
            },
            Ok(None) => {},
            Ok(Some(action)) => {
                recovery.actions.push(action);
                assert(recovery@.actions =~= before.actions.push(action@));
            },
        }
        i += 1;
    }
    recovery
}

impl JobStore {
    /// Decides what is done, now, about the job runs that an earlier runner
    /// left behind.
    pub fn recover_interrupted_jobs(&self, entries: &Vec<JobEntry>) -> (r: Recovery)
        ensures
            exists|second: int|
                0 <= second <= time::CALENDAR_LAST_SECOND && r@ == recovered(
                    self@.root_dir,
                    entries@,
                    #[trigger] time::rfc3339(second),
                    entries@.len(),
                ),
    {
        let finished_at = time::now_rfc3339();
        let root = self.root_dir();
        recover_interrupted_jobs_at(root.as_str(), entries, finished_at.as_str())
    }
}

/// Recovery leaves a run alone exactly when the run had ended.
pub proof fn recovery_leaves_ended_runs_alone(
    root: Seq<char>,
    path: String,
    metadata: JobMetadata,
    finished_at: Seq<char>,
)
    ensures
        (recovery_step(
            root,
            JobEntry::Directory { path, metadata: JobFile::Parsed(metadata) },
            finished_at,
        ) == Ok::<Option<RecoveryActionView>, JobErrorView>(None)) == metadata.status.terminal(),
{
}

/// What recovery writes is a run that has ended, with its identity and inputs
/// unchanged; a second recovery finds nothing to do about it.
pub proof fn recovered_run_has_ended(
    root: Seq<char>,
    path: String,
    metadata: JobMetadata,
    finished_at: Seq<char>,
    rewritten: JobMetadata,
    later: Seq<char>,
)
    requires
        recovery_step(
            root,
            JobEntry::Directory { path, metadata: JobFile::Parsed(metadata) },
            finished_at,
        ) matches Ok(Some(RecoveryActionView::Close { metadata: m, .. })) && m == rewritten@,
    ensures
        rewritten.status.terminal(),
        rewritten@.finished_at == Some(finished_at),
        rewritten@.job_id == metadata@.job_id,
        rewritten@.name == metadata@.name,
        rewritten@.idempotency_key == metadata@.idempotency_key,
        rewritten@.request_hash == metadata@.request_hash,
        rewritten@.started_at == metadata@.started_at,
        rewritten@.inputs == metadata@.inputs,
        recovery_step(
            root,
            JobEntry::Directory { path, metadata: JobFile::Parsed(rewritten) },
            later,
        ) == Ok::<Option<RecoveryActionView>, JobErrorView>(None),
{
    assert(rewritten@.status == rewritten.status);
}

} // verus!
