//! Executing a job run: watching its process, capturing its logs, and closing
//! its books.
use vstd::prelude::*;

use crate::job::{JobOutput, JobStatus};
use crate::jobs::error::{JobError, JobErrorView};
use crate::jobs::models::{JobMetadata, JobMetadataView};
use crate::jobs::outputs;
use crate::jobs::outputs::OutputRegistration;
use crate::text;

verus! {

/// How a job's process came to its end.
#[derive(Debug)]
pub struct ExecutionOutcome {
    pub status: JobStatus,
    pub exit_code: Option<i32>,
    pub message: Option<String>,
}

/// The mathematical counterpart of `ExecutionOutcome`.
pub struct OutcomeView {
    pub status: JobStatus,
    pub exit_code: Option<i32>,
    pub message: Option<Seq<char>>,
}

impl View for ExecutionOutcome {
    type V = OutcomeView;

    open spec fn view(&self) -> OutcomeView {
        OutcomeView {
            status: self.status,
            exit_code: self.exit_code,
            message: match self.message {
                Some(m) => Some(m@),
                None => None,
            },
        }
    }
}

/// What spawning a job's process gave.
#[derive(Debug)]
pub enum SpawnResult {
    Failed(String),
    NoStdout,
    NoStderr,
    Spawned,
}

/// How capturing one of the process's streams ended.
#[derive(Debug)]
pub enum CaptureEnd {
    Done,
    Failed(JobError),
    TaskLost(String),
}

/// What may happen while a job's process is watched.
#[derive(Debug)]
pub enum ProcessEvent {
    /// The process was spawned, or not.
    Spawn(SpawnResult),
    /// The clock was read, in milliseconds.
    Clock(u128),
    /// Cancellation was requested.
    CancelSignal,
    /// A stream went over its limit.
    LogLimit(String),
    /// Nothing was signalled for a while.
    Quiet,
    /// Asking for the process's exit status failed.
    WaitFailed(String),
    /// The process has not exited.
    StillRunning,
    /// The process has exited.
    Exited { success: bool, exit_code: Option<i32> },
    /// Both streams have ended.
    Captured { stdout: CaptureEnd, stderr: CaptureEnd },
}

/// What the watcher of a process waits for.
#[derive(Debug, Clone, Copy, PartialEq, Eq, Structural)]
pub enum ProcessPhase {
    /// Whether the process could be spawned.
    Spawning,
    /// The time, to hold it against the deadline.
    CheckingDeadline,
    /// A signal, or a while without one.
    AwaitingSignal,
    /// Whether the process has exited.
    Polling,
    /// The end of both streams.
    CollectingLogs { success: bool, exit_code: Option<i32> },
    /// Nothing: the outcome is known.
    Ended,
}

/// What is to be done next.
#[derive(Debug)]
pub enum ProcessAction {
    /// Go on with what the watcher waits for.
    Continue,
    /// Kill the process and drop its streams; this is the outcome.
    Terminate(ExecutionOutcome),
    /// The process is gone; this is the outcome.
    Finish(Result<ExecutionOutcome, JobError>),
    /// The event is none that the watcher waits for.
    Ignore,
}

/// The mathematical counterpart of `ProcessAction`.
pub enum ActionView {
    Continue,
    Terminate(OutcomeView),
    Finish(Result<OutcomeView, JobErrorView>),
    Ignore,
}

impl View for ProcessAction {
    type V = ActionView;

    open spec fn view(&self) -> ActionView {
        match self {
            ProcessAction::Continue => ActionView::Continue,
            ProcessAction::Terminate(outcome) => ActionView::Terminate(outcome@),
            ProcessAction::Finish(Ok(outcome)) => ActionView::Finish(Ok(outcome@)),
            ProcessAction::Finish(Err(e)) => ActionView::Finish(Err(e@)),
            ProcessAction::Ignore => ActionView::Ignore,
        }
    }
}

/// An outcome without exit code and message.
pub open spec fn bare_outcome(status: JobStatus) -> OutcomeView {
    OutcomeView { status, exit_code: None, message: None }
}

/// Why a spawn did not give a process with both streams.
pub open spec fn spawn_problem(script: Seq<char>, spawned: SpawnResult) -> Option<JobErrorView> {
    match spawned {
        SpawnResult::Failed(source) => Some(
            JobErrorView::SpawnProcess { script, source: source@ },
        ),
        SpawnResult::NoStdout => Some(
            JobErrorView::SpawnProcess { script, source: "stdout pipe missing"@ },
        ),
        SpawnResult::NoStderr => Some(
            JobErrorView::SpawnProcess { script, source: "stderr pipe missing"@ },
        ),
        SpawnResult::Spawned => None,
    }
}

/// Why a stream was not captured to its end.
pub open spec fn capture_problem(end: CaptureEnd) -> Option<JobErrorView> {
    match end {
        CaptureEnd::Done => None,
        CaptureEnd::Failed(e) => Some(e@),
        CaptureEnd::TaskLost(source) => Some(
            JobErrorView::ReadFile { path: "job output capture task"@, source: source@ },
        ),
    }
}

/// The watcher of one job's process.
#[derive(Debug)]
pub struct ProcessWatch {
    pub script: String,
    pub deadline: u128,
    pub phase: ProcessPhase,
}

/// The next phase of the watch, and what is to be done, when an event comes in.
/// The deadline counts before signals, signals before the exit status, and
/// standard output before standard error.
pub open spec fn watched(
    script: Seq<char>,
    deadline: u128,
    phase: ProcessPhase,
    event: ProcessEvent,
) -> (ProcessPhase, ActionView) {
    match (phase, event) {
        (ProcessPhase::Spawning, ProcessEvent::Spawn(spawned)) => match spawn_problem(
            script,
            spawned,
        ) {
            Some(problem) => (ProcessPhase::Ended, ActionView::Finish(Err(problem))),
            None => (ProcessPhase::CheckingDeadline, ActionView::Continue),
        },
        (ProcessPhase::CheckingDeadline, ProcessEvent::Clock(now)) => if now >= deadline {
            (ProcessPhase::Ended, ActionView::Terminate(bare_outcome(JobStatus::TimedOut)))
        } else {
            (ProcessPhase::AwaitingSignal, ActionView::Continue)
        },
        (ProcessPhase::AwaitingSignal, ProcessEvent::CancelSignal) => (
            ProcessPhase::Ended,
            ActionView::Terminate(bare_outcome(JobStatus::Canceled)),
        ),
        (ProcessPhase::AwaitingSignal, ProcessEvent::LogLimit(message)) => (
            ProcessPhase::Ended,
            ActionView::Terminate(
                OutcomeView {
                    status: JobStatus::Failed,
                    exit_code: None,
                    message: Some(message@),
                },
            ),
        ),
        (ProcessPhase::AwaitingSignal, ProcessEvent::Quiet) => (
            ProcessPhase::Polling,
            ActionView::Continue,
        ),
        (ProcessPhase::Polling, ProcessEvent::WaitFailed(source)) => (
            ProcessPhase::Ended,
            ActionView::Finish(Err(JobErrorView::WaitProcess { script, source: source@ })),
        ),
        (ProcessPhase::Polling, ProcessEvent::StillRunning) => (
            ProcessPhase::CheckingDeadline,
            ActionView::Continue,
        ),
        (ProcessPhase::Polling, ProcessEvent::Exited { success, exit_code }) => (
            ProcessPhase::CollectingLogs { success, exit_code },
            ActionView::Continue,
        ),
        (
            ProcessPhase::CollectingLogs { success, exit_code },
            ProcessEvent::Captured { stdout, stderr },
        ) => (
            ProcessPhase::Ended,
            ActionView::Finish(
                if capture_problem(stdout) is Some {
                    Err(capture_problem(stdout)->0)
                } else if capture_problem(stderr) is Some {
                    Err(capture_problem(stderr)->0)
                } else {
                    Ok(
                        OutcomeView {
                            status: if success {
                                JobStatus::Success
                            } else {
                                JobStatus::Failed
                            },
                            exit_code,
                            message: None,
                        },
                    )
                },
            ),
        ),
        _ => (phase, ActionView::Ignore),
    }
}

fn check_spawn(script: &str, spawned: SpawnResult) -> (r: Result<(), JobError>)
    ensures
        match r {
            Ok(()) => spawn_problem(script@, spawned) is None,
            Err(e) => spawn_problem(script@, spawned) == Some(e@),
        },
{
    match spawned {
        SpawnResult::Failed(source) => Err(
            JobError::SpawnProcess { script: script.to_owned(), source },
        ),
        SpawnResult::NoStdout => Err(
            JobError::SpawnProcess {
                script: script.to_owned(),
                source: "stdout pipe missing".to_owned(),
            },
        ),
        SpawnResult::NoStderr => Err(
            JobError::SpawnProcess {
                script: script.to_owned(),
                source: "stderr pipe missing".to_owned(),
            },
        ),
        SpawnResult::Spawned => Ok(()),
    }
}

fn await_capture_result(end: CaptureEnd) -> (r: Result<(), JobError>)
    ensures
        match r {
            Ok(()) => capture_problem(end) is None,
            Err(e) => capture_problem(end) == Some(e@),
        },
{
    match end {
        CaptureEnd::Done => Ok(()),
        CaptureEnd::Failed(e) => Err(e),
        CaptureEnd::TaskLost(source) => Err(
            JobError::ReadFile { path: "job output capture task".to_owned(), source },
        ),
    }
}

fn collect_logs(
    success: bool,
    exit_code: Option<i32>,
    stdout: CaptureEnd,
    stderr: CaptureEnd,
) -> (r: Result<ExecutionOutcome, JobError>)
    ensures
        match r {
            Ok(outcome) => capture_problem(stdout) is None && capture_problem(stderr) is None
                && outcome@ == (OutcomeView {
                status: if success {
                    JobStatus::Success
                } else {
                    JobStatus::Failed
                },
                exit_code,
                message: None,
            }),
            Err(e) => (if capture_problem(stdout) is Some {
                capture_problem(stdout)
            } else {
                capture_problem(stderr)
            }) == Some(e@),
        },
{
    if let Err(e) = await_capture_result(stdout) {
        return Err(e);
    }
    if let Err(e) = await_capture_result(stderr) {
        return Err(e);
    }
    Ok(
        ExecutionOutcome {
            status: if success {
                JobStatus::Success
            } else {
                JobStatus::Failed
            },
            exit_code,
            message: None,
        },
    )
}

impl ProcessWatch {
    /// Starts to watch a script that is spawned at `now`, in milliseconds, and
    /// has that many seconds to run.
    pub fn new(script: &str, now: u64, timeout_seconds: u64) -> (r: Self)
        ensures
            r.script@ == script@,
            r.deadline == now + timeout_seconds * 1000,
            r.phase == ProcessPhase::Spawning,
    {
        ProcessWatch {
            script: script.to_owned(),
            deadline: now as u128 + timeout_seconds as u128 * 1000,
            phase: ProcessPhase::Spawning,
        }
    }

    /// Takes an event in and says what is to be done.
    pub fn observe(&mut self, event: ProcessEvent) -> (r: ProcessAction)
        ensures
            ({
                let expected = watched(
                    old(self).script@,
                    old(self).deadline,
                    old(self).phase,
                    event,
                );
                &&& final(self).phase == expected.0
                &&& r@ == expected.1
                &&& final(self).script == old(self).script
                &&& final(self).deadline == old(self).deadline
            }),
    {
        match (self.phase, event) {
            (ProcessPhase::Spawning, ProcessEvent::Spawn(spawned)) => {
                match check_spawn(self.script.as_str(), spawned) {
                    Err(e) => self.end(ProcessAction::Finish(Err(e))),
                    Ok(()) => self.go_on(ProcessPhase::CheckingDeadline),
                }
            },
            (ProcessPhase::CheckingDeadline, ProcessEvent::Clock(now)) => {
                if now >= self.deadline {
                    let outcome = ExecutionOutcome {
                        status: JobStatus::TimedOut,
                        exit_code: None,
                        message: None,
                    };
                    self.end(ProcessAction::Terminate(outcome))
                } else {
                    self.go_on(ProcessPhase::AwaitingSignal)
                }
            },
            (ProcessPhase::AwaitingSignal, ProcessEvent::CancelSignal) => {
                let outcome = ExecutionOutcome {
                    status: JobStatus::Canceled,
                    exit_code: None,
                    message: None,
                };
                self.end(ProcessAction::Terminate(outcome))
            },
            (ProcessPhase::AwaitingSignal, ProcessEvent::LogLimit(message)) => {
                let outcome = ExecutionOutcome {
                    status: JobStatus::Failed,
                    exit_code: None,
                    message: Some(message),
                };
                self.end(ProcessAction::Terminate(outcome))
            },
            (ProcessPhase::AwaitingSignal, ProcessEvent::Quiet) => {
                self.go_on(ProcessPhase::Polling)
            },
            (ProcessPhase::Polling, ProcessEvent::WaitFailed(source)) => {
                let e = JobError::WaitProcess { script: self.script.clone(), source };
                self.end(ProcessAction::Finish(Err(e)))
            },
            (ProcessPhase::Polling, ProcessEvent::StillRunning) => {
                self.go_on(ProcessPhase::CheckingDeadline)
            },
            (ProcessPhase::Polling, ProcessEvent::Exited { success, exit_code }) => {
                self.go_on(ProcessPhase::CollectingLogs { success, exit_code })
            },
            (
                ProcessPhase::CollectingLogs { success, exit_code },
                ProcessEvent::Captured { stdout, stderr },
            ) => {
                let result = collect_logs(success, exit_code, stdout, stderr);
                self.end(ProcessAction::Finish(result))
            },
            _ => ProcessAction::Ignore,
        }
    }

    fn go_on(&mut self, phase: ProcessPhase) -> (r: ProcessAction)
        ensures
            r@ == ActionView::Continue,
            final(self).phase == phase,
            final(self).script == old(self).script,
            final(self).deadline == old(self).deadline,
    {
        self.phase = phase;
        ProcessAction::Continue
    }

    fn end(&mut self, action: ProcessAction) -> (r: ProcessAction)
        ensures
            r == action,
            final(self).phase == ProcessPhase::Ended,
            final(self).script == old(self).script,
            final(self).deadline == old(self).deadline,
    {
        self.phase = ProcessPhase::Ended;
        action
    }
}

/// The outcome of a watch over a whole course of events: what the first event
/// that ends it says.
pub open spec fn course(
    script: Seq<char>,
    deadline: u128,
    phase: ProcessPhase,
    events: Seq<ProcessEvent>,
) -> (ProcessPhase, Option<ActionView>)
    decreases events.len(),
{
    if events.len() == 0 {
        (phase, None)
    } else {
        let (next, action) = watched(script, deadline, phase, events[0]);
        if action is Terminate || action is Finish {
            (next, Some(action))
        } else {
            course(script, deadline, next, events.drop_first())
        }
    }
}

/// The status with which a watch ends.
pub open spec fn end_status(action: ActionView) -> Option<JobStatus> {
    match action {
        ActionView::Terminate(outcome) => Some(outcome.status),
        ActionView::Finish(Ok(outcome)) => Some(outcome.status),
        _ => None,
    }
}

/// A watch that has ended takes no event in any more.
pub proof fn ended_watch_is_final(script: Seq<char>, deadline: u128, event: ProcessEvent)
    ensures
        watched(script, deadline, ProcessPhase::Ended, event) == (
            ProcessPhase::Ended,
            ActionView::Ignore,
        ),
{
}

/// A watch ends exactly when it says an outcome, and the status that it then
/// says is a terminal one.
pub proof fn watch_ends_with_its_outcome(
    script: Seq<char>,
    deadline: u128,
    phase: ProcessPhase,
    event: ProcessEvent,
)
    requires
        phase != ProcessPhase::Ended,
    ensures
        ({
            let (next, action) = watched(script, deadline, phase, event);
            &&& (next == ProcessPhase::Ended) == (action is Terminate || action is Finish)
            &&& end_status(action) matches Some(status) ==> status.terminal()
        }),
{
}

/// A watch over any course of events is over exactly when an outcome was said,
/// and that outcome kills or closes the process with a terminal status.
pub proof fn course_ends_with_its_outcome(
    script: Seq<char>,
    deadline: u128,
    phase: ProcessPhase,
    events: Seq<ProcessEvent>,
)
    requires
        phase != ProcessPhase::Ended,
    ensures
        ({
            let (end, outcome) = course(script, deadline, phase, events);
            &&& (end == ProcessPhase::Ended) == (outcome is Some)
            &&& outcome matches Some(action) ==> (action is Terminate || action is Finish) && (
            end_status(action) matches Some(status) ==> status.terminal())
        }),
    decreases events.len(),
{
    if events.len() > 0 {
        let (next, action) = watched(script, deadline, phase, events[0]);
        watch_ends_with_its_outcome(script, deadline, phase, events[0]);
        if !(action is Terminate || action is Finish) {
            course_ends_with_its_outcome(script, deadline, next, events.drop_first());
        }
    }
}

/// A process that is past its deadline is killed at the next look at the clock,
/// whatever else has happened.
pub proof fn deadline_ends_the_watch(script: Seq<char>, deadline: u128, now: u128)
    requires
        now >= deadline,
    ensures
        watched(
            script,
            deadline,
            ProcessPhase::CheckingDeadline,
            ProcessEvent::Clock(now),
        ).1 == ActionView::Terminate(bare_outcome(JobStatus::TimedOut)),
{
}

/// The process was found to have exited successfully.
pub open spec fn exited_well(event: ProcessEvent) -> bool {
    event matches ProcessEvent::Exited { success, .. } && success
}

/// Success is only ever reported of a process that was seen to exit
/// successfully.
pub proof fn success_needs_a_successful_exit(
    script: Seq<char>,
    deadline: u128,
    phase: ProcessPhase,
    events: Seq<ProcessEvent>,
)
    requires
        course(script, deadline, phase, events).1 matches Some(action) && end_status(action)
            == Some(JobStatus::Success),
    ensures
        (phase matches ProcessPhase::CollectingLogs { success, .. } && success) || exists|i: int|
            0 <= i < events.len() && exited_well(#[trigger] events[i]),
    decreases events.len(),
{
    let (next, action) = watched(script, deadline, phase, events[0]);
    if !(action is Terminate || action is Finish) {
        let rest = events.drop_first();
        success_needs_a_successful_exit(script, deadline, next, rest);
        if exists|i: int| 0 <= i < rest.len() && exited_well(#[trigger] rest[i]) {
            let i = choose|i: int| 0 <= i < rest.len() && exited_well(#[trigger] rest[i]);
            assert(exited_well(events[i + 1]));
        } else if !(phase is CollectingLogs) {
            assert(exited_well(events[0]));
        }
    }
}

/// The message that tells of a stream that went over its limit.
pub open spec fn log_limit_text(stream_name: Seq<char>, limit_bytes: u64) -> Seq<char> {
    "job "@ + stream_name + " log exceeded configured limit of "@ + text::decimal(
        limit_bytes as nat,
    ) + " bytes"@
}

pub fn log_limit_message(stream_name: &str, limit_bytes: u64) -> (r: String)
    ensures
        r@ == log_limit_text(stream_name@, limit_bytes),
{
    let mut message = "job ".to_owned();
    message.append(stream_name);
    message.append(" log exceeded configured limit of ");
    message.append(text::decimal_text(limit_bytes).as_str());
    message.append(" bytes");
    message
}

/// The account of one captured stream.
#[derive(Debug)]
pub struct LogCapture {
    pub stream_name: &'static str,
    pub limit_bytes: u64,
    pub written: u64,
}

/// What to do with bytes that were read from a stream: write the first `write`
/// of them; then stop, if there is something to stop for.
#[derive(Debug)]
pub struct CaptureStep {
    pub write: usize,
    pub stop: CaptureStop,
}

/// Whether a capture goes on, is at its end, or is cut off with a message.
#[derive(Debug)]
pub enum CaptureStop {
    GoOn,
    End,
    LimitReached(String),
}

/// The mathematical counterpart of `CaptureStop`.
pub enum StopView {
    GoOn,
    End,
    LimitReached(Seq<char>),
}

impl View for CaptureStop {
    type V = StopView;

    open spec fn view(&self) -> StopView {
        match self {
            CaptureStop::GoOn => StopView::GoOn,
            CaptureStop::End => StopView::End,
            CaptureStop::LimitReached(message) => StopView::LimitReached(message@),
        }
    }
}

/// How many of `read` bytes are written when `written` bytes were before them,
/// and whether the capture stops. A read of no bytes is the end of the stream.
pub open spec fn capture_step(
    stream_name: Seq<char>,
    limit_bytes: u64,
    written: int,
    read: int,
) -> (int, StopView) {
    let room = limit_bytes - written;
    if read == 0 {
        (0, StopView::End)
    } else if read <= room {
        (read, StopView::GoOn)
    } else {
        (room, StopView::LimitReached(log_limit_text(stream_name, limit_bytes)))
    }
}

/// What a capture that has written `written` bytes writes of the chunks that
/// are still read from its stream, and the messages that it sends.
pub open spec fn captured(
    stream_name: Seq<char>,
    limit_bytes: u64,
    written: int,
    chunks: Seq<Seq<u8>>,
) -> (Seq<u8>, Seq<Seq<char>>)
    decreases chunks.len(),
{
    let chunk = if chunks.len() == 0 {
        Seq::empty()
    } else {
        chunks[0]
    };
    let (write, stop) = capture_step(stream_name, limit_bytes, written, chunk.len() as int);
    match stop {
        StopView::End => (chunk.take(write), Seq::empty()),
        StopView::LimitReached(message) => (chunk.take(write), seq![message]),
        StopView::GoOn => if chunks.len() == 0 {
            (chunk.take(write), Seq::empty())
        } else {
            let rest = captured(
                stream_name,
                limit_bytes,
                written + write,
                chunks.drop_first(),
            );
            (chunk.take(write) + rest.0, rest.1)
        },
    }
}

/// However a stream comes in chunks, its log holds the stream's first bytes up
/// to the limit, and one message is sent exactly when the stream is longer.
pub proof fn capture_keeps_the_start_of_a_stream(
    stream_name: Seq<char>,
    limit_bytes: u64,
    written: int,
    chunks: Seq<Seq<u8>>,
)
    requires
        0 <= written <= limit_bytes,
        forall|i: int| 0 <= i < chunks.len() ==> (#[trigger] chunks[i]).len() > 0,
    ensures
        ({
            let stream = chunks.flatten();
            let room = limit_bytes - written;
            captured(stream_name, limit_bytes, written, chunks) == if stream.len() <= room {
                (stream, Seq::<Seq<char>>::empty())
            } else {
                (stream.take(room), seq![log_limit_text(stream_name, limit_bytes)])
            }
        }),
    decreases chunks.len(),
{
    let stream = chunks.flatten();
    let room = limit_bytes - written;
    if chunks.len() == 0 {
        assert(captured(stream_name, limit_bytes, written, chunks).0 =~= stream);
    } else {
        let chunk = chunks[0];
        let later = chunks.drop_first();
        assert forall|i: int| 0 <= i < later.len() implies (#[trigger] later[i]).len() > 0 by {
            assert(later[i] == chunks[i + 1]);
        }
        assert(stream =~= chunk + later.flatten());
        if chunk.len() <= room {
            let next = written + chunk.len();
            capture_keeps_the_start_of_a_stream(stream_name, limit_bytes, next, later);
            assert(chunk.take(chunk.len() as int) =~= chunk);
            if stream.len() > room {
                assert(stream.take(room) =~= chunk + later.flatten().take(room - chunk.len()));
            }
        } else {
            assert(stream.take(room) =~= chunk.take(room));
        }
    }
}

impl LogCapture {
    /// No more than the limit was ever written.
    pub open spec fn within_limit(self) -> bool {
        self.written <= self.limit_bytes
    }

    pub fn new(stream_name: &'static str, limit_bytes: u64) -> (r: Self)
        ensures
            r.stream_name == stream_name,
            r.limit_bytes == limit_bytes,
            r.written == 0,
            r.within_limit(),
    {
        LogCapture { stream_name, limit_bytes, written: 0 }
    }

    /// Takes account of `read` bytes that came from the stream. What goes over
    /// the limit is not written, and ends the capture.
    pub fn accept(&mut self, read: usize) -> (r: CaptureStep)
        requires
            old(self).within_limit(),
        ensures
            final(self).within_limit(),
            final(self).stream_name == old(self).stream_name,
            final(self).limit_bytes == old(self).limit_bytes,
            final(self).written == old(self).written + r.write,
            (r.write as int, r.stop@) == capture_step(
                old(self).stream_name@,
                old(self).limit_bytes,
                old(self).written as int,
                read as int,
            ),
    {
        if read == 0 {
            return CaptureStep { write: 0, stop: CaptureStop::End };
        }
        let remaining: u64 = self.limit_bytes - self.written;
        if read as u64 <= remaining {
            self.written = self.written + read as u64;
            return CaptureStep { write: read, stop: CaptureStop::GoOn };
        }
        self.written = self.limit_bytes;
        CaptureStep {
            write: remaining as usize,
            stop: CaptureStop::LimitReached(log_limit_message(self.stream_name, self.limit_bytes)),
        }
    }
}

/// A log file's text with a message on a line of its own at the end.
pub open spec fn with_message(log: Seq<char>, message: Seq<char>) -> Seq<char> {
    if log.len() > 0 && log.last() != '\n' {
        log + "\n"@ + message + "\n"@
    } else {
        log + message + "\n"@
    }
}

pub fn append_runtime_message(log: &str, message: &str) -> (r: String)
    ensures
        r@ == with_message(log@, message@),
{
    let chars = text::chars_of(log);
    let mut out = log.to_owned();
    if chars.len() > 0 && chars[chars.len() - 1] != '\n' {
        out.append("\n");
    }
    out.append(message);
    out.append("\n");
    out
}

/// What is done to a job run's standard error log when the run ends.
#[derive(Debug)]
pub enum StderrUpdate {
    /// Each message goes to the end, on a line of its own.
    Append(Vec<String>),
    /// The log holds this and nothing else.
    Replace(String),
}

/// The mathematical counterpart of `StderrUpdate`.
pub enum StderrView {
    Append(Seq<Seq<char>>),
    Replace(Seq<char>),
}

impl View for StderrUpdate {
    type V = StderrView;

    open spec fn view(&self) -> StderrView {
        match self {
            StderrUpdate::Append(messages) => StderrView::Append(
                messages@.map_values(crate::jobs::models::text_model()),
            ),
            StderrUpdate::Replace(message) => StderrView::Replace(message@),
        }
    }
}

/// A job run that has ended, and what is left to do about it.
#[derive(Debug)]
pub struct FinishedJob {
    pub metadata: JobMetadata,
    pub stderr: StderrUpdate,
    pub remove_work_dir: bool,
}

/// The mathematical counterpart of `FinishedJob`.
pub struct FinishedView {
    pub metadata: JobMetadataView,
    pub stderr: StderrView,
    pub remove_work_dir: bool,
}

impl View for FinishedJob {
    type V = FinishedView;

    open spec fn view(&self) -> FinishedView {
        FinishedView {
            metadata: self.metadata@,
            stderr: self.stderr@,
            remove_work_dir: self.remove_work_dir,
        }
    }
}

/// The outcome of a job run by its mathematical counterpart.
pub open spec fn outcome_view(outcome: Result<ExecutionOutcome, JobError>) -> Result<
    OutcomeView,
    JobErrorView,
> {
    match outcome {
        Ok(o) => Ok(o@),
        Err(e) => Err(e@),
    }
}

/// The final status of a run whose process came to an end: a success whose
/// outputs could not be registered is a failure.
pub open spec fn final_status(status: JobStatus, failure: Option<JobErrorView>) -> JobStatus {
    if status is Success && failure is Some {
        JobStatus::Failed
    } else {
        status
    }
}

/// Whether a run's working directory goes: a success cleans up if so
/// configured, a failure unless its traces are to be kept.
pub open spec fn removes_work_dir(status: JobStatus, cleanup: bool, keep_failed: bool) -> bool {
    ||| status is Success && cleanup
    ||| (status is Failed || status is TimedOut) && !keep_failed
}

/// How a job run ends.
pub open spec fn finished(
    metadata: JobMetadataView,
    outcome: Result<OutcomeView, JobErrorView>,
    registered: (Seq<(Seq<char>, JobOutput)>, Option<JobErrorView>),
    cleanup: bool,
    keep_failed: bool,
    finished_at: Seq<char>,
) -> FinishedView {
    match outcome {
        Ok(outcome) => {
            let success = outcome.status is Success;
            let status = final_status(outcome.status, registered.1);
            let first = match outcome.message {
                Some(message) => seq![message],
                None => Seq::empty(),
            };
            let second = match registered.1 {
                Some(problem) => if success {
                    seq![problem.message()]
                } else {
                    Seq::empty()
                },
                None => Seq::empty(),
            };
            FinishedView {
                metadata: JobMetadataView {
                    status,
                    exit_code: outcome.exit_code,
                    finished_at: Some(finished_at),
                    outputs: if success {
                        registered.0
                    } else {
                        metadata.outputs
                    },
                    ..metadata
                },
                stderr: StderrView::Append(first + second),
                remove_work_dir: removes_work_dir(status, cleanup, keep_failed),
            }
        },
        Err(problem) => FinishedView {
            metadata: JobMetadataView {
                status: JobStatus::Failed,
                exit_code: None,
                finished_at: Some(finished_at),
                ..metadata
            },
            stderr: StderrView::Replace(problem.message() + "\n"@),
            remove_work_dir: false,
        },
    }
}

/// Closes the books of a job run that ended at `finished_at`. The registration
/// counts only where the process succeeded.
pub fn finish(
    metadata: JobMetadata,
    outcome: Result<ExecutionOutcome, JobError>,
    registration: OutputRegistration,
    cleanup_successful_workdirs: bool,
    keep_failed_workdirs: bool,
    finished_at: &str,
) -> (r: FinishedJob)
    ensures
        r@ == finished(
            metadata@,
            outcome_view(outcome),
            (registration.outputs@, outputs::failure_view(registration.failure)),
            cleanup_successful_workdirs,
            keep_failed_workdirs,
            finished_at@,
        ),
{
    let mut metadata = metadata;
    match outcome {
        Ok(outcome) => {
            let mut messages: Vec<String> = Vec::new();
            assert(messages@.map_values(crate::jobs::models::text_model()) =~= Seq::empty());
            if let Some(message) = outcome.message {
                messages.push(message);
                assert(messages@.map_values(crate::jobs::models::text_model())
                    =~= seq![message@]);
            }
            let ghost first = messages@.map_values(crate::jobs::models::text_model());
            let mut status = outcome.status;
            if status == JobStatus::Success {
                metadata.outputs = registration.outputs;
                if let Some(e) = registration.failure {
                    let message = e.message();
                    messages.push(message);
                    assert(messages@.map_values(crate::jobs::models::text_model())
                        =~= first + seq![message@]);
                    status = JobStatus::Failed;
                }
            }
            assert(first + Seq::<Seq<char>>::empty() =~= first);
            metadata.status = status;
            metadata.exit_code = outcome.exit_code;
            metadata.finished_at = Some(finished_at.to_owned());
            let remove_work_dir = match status {
                JobStatus::Success => cleanup_successful_workdirs,
                JobStatus::Failed | JobStatus::TimedOut => !keep_failed_workdirs,
                _ => false,
            };
            FinishedJob { metadata, stderr: StderrUpdate::Append(messages), remove_work_dir }
        },
        Err(e) => {
            metadata.status = JobStatus::Failed;
            metadata.exit_code = None;
            metadata.finished_at = Some(finished_at.to_owned());
            let mut message = e.message();
            message.append("\n");
            FinishedJob {
                metadata,
                stderr: StderrUpdate::Replace(message),
                remove_work_dir: false,
            }
        },
    }
}

/// A run that ends with a terminal outcome is terminal in the books, and stays
/// the run that it was.
pub proof fn finished_run_is_terminal(
    metadata: JobMetadataView,
    outcome: Result<OutcomeView, JobErrorView>,
    registered: (Seq<(Seq<char>, JobOutput)>, Option<JobErrorView>),
    cleanup: bool,
    keep_failed: bool,
    finished_at: Seq<char>,
)
    requires
        outcome matches Ok(o) ==> o.status.terminal(),
    ensures
        ({
            let after = finished(metadata, outcome, registered, cleanup, keep_failed, finished_at);
            &&& after.metadata.status.terminal()
            &&& after.metadata.finished_at == Some(finished_at)
            &&& after.metadata.job_id == metadata.job_id
            &&& after.metadata.name == metadata.name
            &&& after.metadata.idempotency_key == metadata.idempotency_key
            &&& after.metadata.request_hash == metadata.request_hash
            &&& after.metadata.started_at == metadata.started_at
            &&& after.metadata.inputs == metadata.inputs
        }),
{
}

/// A run is a success in the books exactly when its process succeeded and its
/// outputs were registered.
pub proof fn finished_success(
    metadata: JobMetadataView,
    outcome: Result<OutcomeView, JobErrorView>,
    registered: (Seq<(Seq<char>, JobOutput)>, Option<JobErrorView>),
    cleanup: bool,
    keep_failed: bool,
    finished_at: Seq<char>,
)
    ensures
        (finished(
            metadata,
            outcome,
            registered,
            cleanup,
            keep_failed,
            finished_at,
        ).metadata.status is Success) == (outcome matches Ok(o) && o.status is Success
            && registered.1 is None),
{
}

} // verus!
