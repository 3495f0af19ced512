//! The runner as a process: its configuration path, its health and its
//! readiness.
use vstd::prelude::*;

use crate::time;

verus! {

/// How many seconds a runner that shuts down waits for its job runs.
pub const SHUTDOWN_DRAIN_TIMEOUT_SECONDS: u64 = 10;

/// The answer to a question for the runner's health.
#[derive(Debug)]
pub struct HealthResponse {
    pub status: String,
    pub listen: String,
    pub manifest_count: usize,
}

/// What the runner did when it started.
#[derive(Debug, Clone, Copy, PartialEq, Eq, Structural)]
pub struct StartupValidationStatus {
    pub completed: bool,
    pub recovered_artifacts: usize,
    pub recovered_jobs: usize,
}

/// How a background task is doing.
#[derive(Debug, Clone)]
pub struct BackgroundTaskStatus {
    pub name: &'static str,
    pub running: bool,
    pub last_success_at: Option<String>,
    pub last_error: Option<String>,
}

/// The answer to a question for the runner's readiness.
#[derive(Debug, Clone)]
pub struct ReadinessResponse {
    pub status: String,
    pub listen: String,
    pub manifest_count: usize,
    pub startup: StartupValidationStatus,
    pub background_tasks: Vec<BackgroundTaskStatus>,
}

/// What is known of a background task.
#[derive(Debug)]
pub struct BackgroundTaskHealth {
    pub running: bool,
    pub last_success_at: Option<String>,
    pub last_error: Option<String>,
}

/// The mathematical counterpart of `BackgroundTaskHealth`.
pub struct TaskView {
    pub running: bool,
    pub last_success_at: Option<Seq<char>>,
    pub last_error: Option<Seq<char>>,
}

/// An optional text by its characters.
pub open spec fn optional(text: Option<String>) -> Option<Seq<char>> {
    match text {
        Some(t) => Some(t@),
        None => None,
    }
}

impl View for BackgroundTaskHealth {
    type V = TaskView;

    open spec fn view(&self) -> TaskView {
        TaskView {
            running: self.running,
            last_success_at: optional(self.last_success_at),
            last_error: optional(self.last_error),
        }
    }
}

/// What the runner knows of itself.
#[derive(Debug)]
pub struct RuntimeStatus {
    pub startup: StartupValidationStatus,
    pub artifact_cleanup: BackgroundTaskHealth,
}

fn copy_text(text: &Option<String>) -> (r: Option<String>)
    ensures
        optional(r) == optional(*text),
{
    match text {
        Some(t) => Some(t.clone()),
        None => None,
    }
}

impl RuntimeStatus {
    /// Startup is complete, and the cleanup of artifacts runs without an error.
    pub open spec fn ready(self) -> bool {
        &&& self.startup.completed
        &&& self.artifact_cleanup.running
        &&& self.artifact_cleanup.last_error is None
    }

    pub fn new(recovered_artifacts: usize, recovered_jobs: usize) -> (r: Self)
        ensures
            r.startup == (StartupValidationStatus {
                completed: true,
                recovered_artifacts,
                recovered_jobs,
            }),
            r.artifact_cleanup@ == (TaskView {
                running: true,
                last_success_at: None,
                last_error: None,
            }),
            r.ready(),
    {
        RuntimeStatus {
            startup: StartupValidationStatus {
                completed: true,
                recovered_artifacts,
                recovered_jobs,
            },
            artifact_cleanup: BackgroundTaskHealth {
                running: true,
                last_success_at: None,
                last_error: None,
            },
        }
    }

    /// Notes that the cleanup of artifacts succeeded at `finished_at`.
    pub fn record_artifact_cleanup_success_at(&mut self, finished_at: String)
        ensures
            final(self).startup == old(self).startup,
            final(self).artifact_cleanup@ == (TaskView {
                running: old(self).artifact_cleanup.running,
                last_success_at: Some(finished_at@),
                last_error: None,
            }),
    {
        self.artifact_cleanup.last_success_at = Some(finished_at);
        self.artifact_cleanup.last_error = None;
    }

    /// Notes that the cleanup of artifacts succeeded just now.
    pub fn record_artifact_cleanup_success(&mut self)
        ensures
            final(self).startup == old(self).startup,
            exists|second: int|
                0 <= second <= time::CALENDAR_LAST_SECOND && final(self).artifact_cleanup@ == (
                TaskView {
                    running: old(self).artifact_cleanup.running,
                    last_success_at: Some(#[trigger] time::rfc3339(second)),
                    last_error: None,
                }),
    {
        let finished_at = time::now_rfc3339();
        self.record_artifact_cleanup_success_at(finished_at);
    }

    pub fn record_artifact_cleanup_error(&mut self, error: &str)
        ensures
            final(self).startup == old(self).startup,
            final(self).artifact_cleanup@ == (TaskView {
                last_error: Some(error@),
                ..old(self).artifact_cleanup@
            }),
            !final(self).ready(),
    {
        self.artifact_cleanup.last_error = Some(error.to_owned());
    }

    pub fn mark_artifact_cleanup_stopped(&mut self)
        ensures
            final(self).startup == old(self).startup,
            final(self).artifact_cleanup@ == (TaskView {
                running: false,
                ..old(self).artifact_cleanup@
            }),
            !final(self).ready(),
    {
        self.artifact_cleanup.running = false;
    }

    pub fn artifact_cleanup_status(&self) -> (r: BackgroundTaskStatus)
        ensures
            r.name@ == "artifact_cleanup"@,
            r.running == self.artifact_cleanup.running,
            optional(r.last_success_at) == self.artifact_cleanup@.last_success_at,
            optional(r.last_error) == self.artifact_cleanup@.last_error,
    {
        BackgroundTaskStatus {
            name: "artifact_cleanup",
            running: self.artifact_cleanup.running,
            last_success_at: copy_text(&self.artifact_cleanup.last_success_at),
            last_error: copy_text(&self.artifact_cleanup.last_error),
        }
    }

    pub fn is_ready(&self) -> (r: bool)
        ensures
            r == self.ready(),
    {
        self.startup.completed && self.artifact_cleanup.running
            && self.artifact_cleanup.last_error.is_none()
    }

    /// The answer to a question for the runner's readiness, with its HTTP
    /// status. A runner that shuts down is not ready.
    pub fn readiness(&self, shutting_down: bool, listen: &str, manifest_count: usize) -> (r: (
        u16,
        ReadinessResponse,
    ))
        ensures
            r.0 == if !shutting_down && self.ready() {
                200u16
            } else {
                503
            },
            r.1.status@ == if !shutting_down && self.ready() {
                "ready"@
            } else {
                "not_ready"@
            },
            r.1.listen@ == listen@,
            r.1.manifest_count == manifest_count,
            r.1.startup == self.startup,
            r.1.background_tasks@.len() == 1,
            r.1.background_tasks@[0].name@ == "artifact_cleanup"@,
            r.1.background_tasks@[0].running == self.artifact_cleanup.running,
            optional(r.1.background_tasks@[0].last_success_at)
                == self.artifact_cleanup@.last_success_at,
            optional(r.1.background_tasks@[0].last_error) == self.artifact_cleanup@.last_error,
    {
        let ready = !shutting_down && self.is_ready();
        let mut background_tasks: Vec<BackgroundTaskStatus> = Vec::new();
        background_tasks.push(self.artifact_cleanup_status());
        (
            if ready {
                200
            } else {
                503
            },
            ReadinessResponse {
                status: if ready {
                    "ready".to_owned()
                } else {
                    "not_ready".to_owned()
                },
                listen: listen.to_owned(),
                manifest_count,
                startup: self.startup,
                background_tasks,
            },
        )
    }
}

/// The answer to a question for the runner's health.
pub fn health(shutting_down: bool, listen: &str, manifest_count: usize) -> (r: HealthResponse)
    ensures
        r.status@ == if shutting_down {
            "shutting_down"@
        } else {
            "ok"@
        },
        r.listen@ == listen@,
        r.manifest_count == manifest_count,
{
    HealthResponse {
        status: if shutting_down {
            "shutting_down".to_owned()
        } else {
            "ok".to_owned()
        },
        listen: listen.to_owned(),
        manifest_count,
    }
}

/// The path of the configuration file: the first argument, else the
/// environment's, else the default.
pub fn config_path(argument: Option<String>, environment: Option<String>) -> (r: String)
    ensures
        r@ == match (argument, environment) {
            (Some(path), _) => path@,
            (None, Some(path)) => path@,
            (None, None) => "runner.toml"@,
        },
{
    match argument {
        Some(path) => path,
        None => match environment {
            Some(path) => path,
            None => "runner.toml".to_owned(),
        },
    }
}

/// How many seconds pass between two cleanups of artifacts: at least one.
pub fn cleanup_interval_seconds(configured: u64) -> (r: u64)
    ensures
        r == if configured >= 1 {
            configured
        } else {
            1
        },
{
    if configured >= 1 {
        configured
    } else {
        1
    }
}

/// After an error the runner is not ready until a cleanup succeeds; then, if it
/// was started and the cleanup still runs, it is.
pub proof fn success_restores_readiness(before: RuntimeStatus, after: RuntimeStatus)
    requires
        after.startup == before.startup,
        after.artifact_cleanup@.running == before.artifact_cleanup@.running,
        after.artifact_cleanup@.last_error is None,
        before.startup.completed,
        before.artifact_cleanup.running,
    ensures
        after.ready(),
{
}

} // verus!
