//! How a job run is watched, ends, and is picked up after a restart.
use vstd::prelude::*;

use crate::job::{FailureCategory, JobOutput, JobStatus, TerminalReason};
use crate::jobs::error::JobErrorView;
use crate::jobs::execution;
use crate::jobs::execution::{
    ActionView, CaptureEnd, OutcomeView, ProcessEvent, ProcessPhase, SpawnResult, StderrView,
};
use crate::jobs::models::JobMetadataView;
use crate::jobs::recovery;
use crate::jobs::recovery::{JobEntry, RecoveryActionView};
use crate::jobs::store::JobFile;
use crate::paths;
use crate::time;

verus! {

/// A watch waits for one thing at a time: for the spawn, then in turn for the
/// clock, for a signal and for the exit status, and at last for the streams.
/// Anything else is ignored.
pub proof fn what_a_watch_waits_for(
    script: Seq<char>,
    deadline: u128,
    phase: ProcessPhase,
    event: ProcessEvent,
)
    ensures
        ({
            let (next, action) = execution::watched(script, deadline, phase, event);
            let waited_for = match phase {
                ProcessPhase::Spawning => event is Spawn,
                ProcessPhase::CheckingDeadline => event is Clock,
                ProcessPhase::AwaitingSignal => event is CancelSignal || event is LogLimit || event
                    is Quiet,
                ProcessPhase::Polling => event is WaitFailed || event is StillRunning || event
                    is Exited,
                ProcessPhase::CollectingLogs { .. } => event is Captured,
                ProcessPhase::Ended => false,
            };
            &&& waited_for == (action != ActionView::Ignore)
            &&& !waited_for ==> next == phase
            &&& action is Terminate || action is Finish ==> next == ProcessPhase::Ended
            &&& waited_for && next != ProcessPhase::Ended ==> action == ActionView::Continue
        }),
{
}

/// A round of a watch over a process that does not exit: if its time is not up,
/// nothing is signalled and it still runs, the watch is where it was.
pub proof fn a_quiet_round_changes_nothing(script: Seq<char>, deadline: u128, now: u128)
    requires
        now < deadline,
    ensures
        ({
            let a = execution::watched(
                script,
                deadline,
                ProcessPhase::CheckingDeadline,
                ProcessEvent::Clock(now),
            );
            let b = execution::watched(script, deadline, a.0, ProcessEvent::Quiet);
            let c = execution::watched(script, deadline, b.0, ProcessEvent::StillRunning);
            &&& a.1 == ActionView::Continue
            &&& b.1 == ActionView::Continue
            &&& c == (ProcessPhase::CheckingDeadline, ActionView::Continue)
        }),
{
}

/// A process whose time is up is killed and has timed out; one that is told to
/// stop is killed and is canceled; one that writes too much is killed and has
/// failed, with the message; and none of them has an exit code.
pub proof fn what_kills_a_process(
    script: Seq<char>,
    deadline: u128,
    phase: ProcessPhase,
    event: ProcessEvent,
)
    ensures
        match execution::watched(script, deadline, phase, event).1 {
            ActionView::Terminate(outcome) => {
                &&& outcome.exit_code is None
                &&& match event {
                    ProcessEvent::Clock(now) => phase == ProcessPhase::CheckingDeadline && now
                        >= deadline && outcome.status == JobStatus::TimedOut && outcome.message
                        is None,
                    ProcessEvent::CancelSignal => phase == ProcessPhase::AwaitingSignal
                        && outcome.status == JobStatus::Canceled && outcome.message is None,
                    ProcessEvent::LogLimit(message) => phase == ProcessPhase::AwaitingSignal
                        && outcome.status == JobStatus::Failed && outcome.message == Some(message@),
                    _ => false,
                }
            },
            _ => !{
                ||| phase == ProcessPhase::CheckingDeadline && (event matches ProcessEvent::Clock(
                    now,
                ) && now >= deadline)
                ||| phase == ProcessPhase::AwaitingSignal && (event is CancelSignal || event
                    is LogLimit)
            },
        },
{
}

/// A process that is seen to exit, and both of whose streams are captured to
/// their ends, has succeeded exactly if its exit was a success, and its exit code
/// is the run's.
pub proof fn what_an_exit_means(
    script: Seq<char>,
    deadline: u128,
    success: bool,
    exit_code: Option<i32>,
    stdout: CaptureEnd,
    stderr: CaptureEnd,
)
    ensures
        ({
            let seen = execution::watched(
                script,
                deadline,
                ProcessPhase::Polling,
                ProcessEvent::Exited { success, exit_code },
            );
            let (next, action) = execution::watched(
                script,
                deadline,
                seen.0,
                ProcessEvent::Captured { stdout, stderr },
            );
            let lost = |source: String|
                JobErrorView::ReadFile { path: "job output capture task"@, source: source@ };
            &&& seen.1 == ActionView::Continue
            &&& next == ProcessPhase::Ended
            &&& action == ActionView::Finish(
                match (stdout, stderr) {
                    (CaptureEnd::Done, CaptureEnd::Done) => Ok(
                        OutcomeView {
                            status: if success {
                                JobStatus::Success
                            } else {
                                JobStatus::Failed
                            },
                            exit_code,
                            message: None,
                        },
                    ),
                    (CaptureEnd::Failed(e), _) => Err(e@),
                    (CaptureEnd::TaskLost(source), _) => Err(lost(source)),
                    (CaptureEnd::Done, CaptureEnd::Failed(e)) => Err(e@),
                    (CaptureEnd::Done, CaptureEnd::TaskLost(source)) => Err(lost(source)),
                },
            )
        }),
{
}

/// A process that cannot be spawned, lacks a stream, or whose exit status cannot
/// be had ends the watch with an error that names the script.
pub proof fn what_goes_wrong_with_a_process(
    script: Seq<char>,
    deadline: u128,
    spawned: SpawnResult,
    source: String,
)
    ensures
        execution::watched(
            script,
            deadline,
            ProcessPhase::Spawning,
            ProcessEvent::Spawn(spawned),
        ) == match spawned {
            SpawnResult::Spawned => (ProcessPhase::CheckingDeadline, ActionView::Continue),
            SpawnResult::Failed(reason) => (
                ProcessPhase::Ended,
                ActionView::Finish(Err(JobErrorView::SpawnProcess { script, source: reason@ })),
            ),
            SpawnResult::NoStdout => (
                ProcessPhase::Ended,
                ActionView::Finish(
                    Err(JobErrorView::SpawnProcess { script, source: "stdout pipe missing"@ }),
                ),
            ),
            SpawnResult::NoStderr => (
                ProcessPhase::Ended,
                ActionView::Finish(
                    Err(JobErrorView::SpawnProcess { script, source: "stderr pipe missing"@ }),
                ),
            ),
        },
        execution::watched(
            script,
            deadline,
            ProcessPhase::Polling,
            ProcessEvent::WaitFailed(source),
        ) == (
            ProcessPhase::Ended,
            ActionView::Finish(Err(JobErrorView::WaitProcess { script, source: source@ })),
        ),
{
}

/// What the end of a run leaves as it was: who it is, what it was asked and when
/// it started.
pub open spec fn same_run(before: JobMetadataView, after: JobMetadataView) -> bool {
    &&& after.job_id == before.job_id
    &&& after.name == before.name
    &&& after.idempotency_key == before.idempotency_key
    &&& after.request_hash == before.request_hash
    &&& after.started_at == before.started_at
    &&& after.inputs == before.inputs
    &&& after.resolved_artifacts == before.resolved_artifacts
    &&& after.output_metadata == before.output_metadata
}

/// How a run ends whose process came to an end. It has succeeded exactly if the
/// process did and its outputs could be registered; a process that did not
/// succeed says how the run ended, and leaves no outputs. The log gets what the
/// process was killed for, then what kept the outputs from being registered.
pub proof fn how_a_run_ends(
    metadata: JobMetadataView,
    outcome: OutcomeView,
    registered: (Seq<(Seq<char>, JobOutput)>, Option<JobErrorView>),
    cleanup: bool,
    keep_failed: bool,
    finished_at: Seq<char>,
)
    ensures
        ({
            let end = execution::finished(
                metadata,
                Ok(outcome),
                registered,
                cleanup,
                keep_failed,
                finished_at,
            );
            &&& same_run(metadata, end.metadata)
            &&& end.metadata.finished_at == Some(finished_at)
            &&& end.metadata.exit_code == outcome.exit_code
            &&& end.metadata.terminal_reason == metadata.terminal_reason
            &&& end.metadata.failure_category == metadata.failure_category
            &&& end.metadata.duration_ms == metadata.duration_ms
            &&& (end.metadata.status == JobStatus::Success) == (outcome.status == JobStatus::Success
                && registered.1 is None)
            &&& outcome.status == JobStatus::Success && registered.1 is Some ==> end.metadata.status
                == JobStatus::Failed
            &&& outcome.status != JobStatus::Success ==> end.metadata.status == outcome.status
                && end.metadata.outputs == metadata.outputs
            &&& outcome.status == JobStatus::Success ==> end.metadata.outputs == registered.0
            &&& end.stderr matches StderrView::Append(messages)
            &&& messages.len() == (if outcome.message is Some {
                1int
            } else {
                0
            }) + if outcome.status == JobStatus::Success && registered.1 is Some {
                1int
            } else {
                0
            }
            &&& outcome.message matches Some(message) ==> messages[0] == message
            &&& outcome.status == JobStatus::Success && registered.1 is Some ==> messages.last()
                == registered.1->0.message()
            &&& end.remove_work_dir == match end.metadata.status {
                JobStatus::Success => cleanup,
                JobStatus::Failed | JobStatus::TimedOut => !keep_failed,
                _ => false,
            }
        }),
{
}

/// A run whose process could not be watched to its end has failed. Its log says
/// why and nothing else, and what it left in its directory stays.
pub proof fn how_a_broken_run_ends(
    metadata: JobMetadataView,
    problem: JobErrorView,
    registered: (Seq<(Seq<char>, JobOutput)>, Option<JobErrorView>),
    cleanup: bool,
    keep_failed: bool,
    finished_at: Seq<char>,
)
    ensures
        ({
            let end = execution::finished(
                metadata,
                Err(problem),
                registered,
                cleanup,
                keep_failed,
                finished_at,
            );
            &&& same_run(metadata, end.metadata)
            &&& end.metadata.status == JobStatus::Failed
            &&& end.metadata.exit_code is None
            &&& end.metadata.finished_at == Some(finished_at)
            &&& end.metadata.outputs == metadata.outputs
            &&& end.stderr == StderrView::Replace(problem.message().push('\n'))
            &&& !end.remove_work_dir
        }),
{
    reveal_strlit("\n");
    assert(problem.message() + "\n"@ =~= problem.message().push('\n'));
}

/// A message that is added to a log stands on the last line, alone, and what the
/// log held before is kept; no empty line is left between them.
pub proof fn a_message_gets_its_own_line(log: Seq<char>, message: Seq<char>)
    ensures
        ({
            let after = execution::with_message(log, message);
            let start = after.len() - 1 - message.len();
            &&& start >= log.len()
            &&& log.is_prefix_of(after)
            &&& after.last() == '\n'
            &&& after.subrange(start, after.len() - 1) == message
            &&& start == 0 || after[start - 1] == '\n'
            &&& start <= log.len() + 1
            &&& log.len() == 0 || log.last() == '\n' ==> start == log.len()
        }),
{
    reveal_strlit("\n");
    let after = execution::with_message(log, message);
    let start = after.len() - 1 - message.len();
    assert(after.subrange(0, log.len() as int) =~= log);
    assert(after.subrange(start, after.len() - 1) =~= message);
}

/// What recovery does about an entry: a run that was running has failed, for the
/// runner's sake; one that was being canceled is canceled; one that had ended is
/// left alone; and a directory that holds no run goes.
pub proof fn what_recovery_does(root: Seq<char>, entry: JobEntry, finished_at: Seq<char>)
    ensures
        ({
            let step = recovery::recovery_step(root, entry, finished_at);
            match entry {
                JobEntry::Unreadable(source) => step == Err::<Option<RecoveryActionView>, _>(
                    JobErrorView::ReadFile { path: root, source: source@ },
                ),
                JobEntry::NotDirectory => step == Ok::<Option<RecoveryActionView>, JobErrorView>(
                    None,
                ),
                JobEntry::Directory { path, metadata } => match metadata {
                    JobFile::Missing(_) => step == Ok::<_, JobErrorView>(
                        Some(RecoveryActionView::RemoveDirectory { path: path@ }),
                    ),
                    JobFile::Unparsable(_) => step == Ok::<_, JobErrorView>(
                        Some(RecoveryActionView::RemoveDirectory { path: path@ }),
                    ),
                    JobFile::Unreadable(source) => step == Err::<Option<RecoveryActionView>, _>(
                        JobErrorView::ReadFile {
                            path: paths::joined(path@, "metadata.json"@),
                            source: source@,
                        },
                    ),
                    JobFile::Parsed(metadata) => {
                        let open = metadata.status == JobStatus::Running || metadata.status
                            == JobStatus::CancelRequested || metadata.status
                            == JobStatus::Canceling;
                        let failed = metadata.status == JobStatus::Running;
                        if !open {
                            step == Ok::<Option<RecoveryActionView>, JobErrorView>(None)
                        } else {
                            &&& step matches Ok(
                                Some(
                                    RecoveryActionView::Close {
                                        metadata_path,
                                        metadata: after,
                                        stderr_path,
                                        message,
                                    },
                                ),
                            )
                            &&& metadata_path == paths::joined(path@, "metadata.json"@)
                            &&& stderr_path == paths::joined(path@, "stderr.log"@)
                            &&& same_run(metadata@, after)
                            &&& after.outputs == metadata@.outputs
                            &&& after.finished_at == Some(finished_at)
                            &&& after.duration_ms == time::duration_ms(
                                metadata.started_at@,
                                Some(finished_at),
                            )
                            &&& after.exit_code is None
                            &&& after.terminal_reason == Some(TerminalReason::Shutdown)
                            &&& failed ==> after.status == JobStatus::Failed
                                && after.failure_category == Some(FailureCategory::Infra) && message
                                == "runner restarted before job completion; marking job as failed"@
                            &&& !failed ==> after.status == JobStatus::Canceled
                                && after.failure_category == Some(FailureCategory::Canceled)
                                && message
                                == "runner restarted while canceling the job; marking job as canceled"@
                        }
                    },
                },
            }
        }),
{
}

/// Recovery goes through the entries in order, and does about each, as long as
/// none is in its way, what is to be done about it: nothing is done twice, left
/// out, or done out of turn. The first entry in its way ends it.
pub proof fn recovery_goes_in_order(
    root: Seq<char>,
    entries: Seq<JobEntry>,
    finished_at: Seq<char>,
    n: nat,
)
    requires
        n < entries.len(),
    ensures
        ({
            let before = recovery::recovered(root, entries, finished_at, n);
            let after = recovery::recovered(root, entries, finished_at, n + 1);
            &&& recovery::recovered(root, entries, finished_at, 0).actions.len() == 0
            &&& recovery::recovered(root, entries, finished_at, 0).failure is None
            &&& before.failure is Some ==> after == before
            &&& before.failure is None ==> match recovery::recovery_step(
                root,
                entries[n as int],
                finished_at,
            ) {
                Err(problem) => after.actions == before.actions && after.failure == Some(problem),
                Ok(None) => after.actions == before.actions && after.failure is None,
                Ok(Some(action)) => after.actions == before.actions + seq![action]
                    && after.failure is None,
            }
        }),
{
    let before = recovery::recovered(root, entries, finished_at, n);
    if let Ok(Some(action)) = recovery::recovery_step(root, entries[n as int], finished_at) {
        assert(before.actions.push(action) =~= before.actions + seq![action]);
    }
}

} // verus!
