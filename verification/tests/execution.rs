use janus::artifacts::{ArtifactError, ArtifactMetadata, ArtifactStore, MetadataFile};
use janus::config::JobsConfig;
use janus::job::{JobOutput, JobStatus};
use janus::jobs::environment::{build_job_env, normalize_input_env, DEFAULT_JOB_PATH};
use janus::jobs::execution::{
    append_runtime_message, CaptureEnd, CaptureStop, ExecutionOutcome, FinishedJob, LogCapture,
    ProcessAction, ProcessEvent, ProcessPhase, ProcessWatch, SpawnResult, StderrUpdate,
};
use janus::jobs::models::{JobExecution, JobOutputArtifact, JobOutputResponse};
use janus::jobs::outputs::{
    plan_outputs, register_outputs, safe_output_path, FileProbe, OutputPlan, OutputRegistration,
};
use janus::jobs::store::{ExistingJob, JobAdmission, JobRequest, JobStore};
use janus::jobs::JobError;
use janus::json::JsonValue;
use janus::manifest::{
    DirectoryEntry, DirectoryRead, InputSpec, JobManifest, ManifestRead, ManifestStore, OutputSpec,
    ScriptProbe,
};
use janus::names::NameMap;
use janus::schema::{Concurrency, InputType, OutputType};
use janus::time::UtcInstant;

const NOW: UtcInstant = UtcInstant {
    seconds: 1_767_225_600,
    nanos: 0,
};

fn config(cleanup: bool, keep: bool) -> JobsConfig {
    JobsConfig {
        default_log_limit_mb: 50,
        cleanup_successful_workdirs: cleanup,
        keep_failed_workdirs: keep,
        max_request_body_kb: 64,
        max_run_requests_per_minute: 60,
    }
}

fn app_output(required: bool) -> NameMap<OutputSpec> {
    let mut outputs = NameMap::new();
    outputs.insert(
        "app".to_string(),
        OutputSpec {
            kind: OutputType::Artifact,
            path: "app.tar.gz".to_string(),
            required,
        },
    );
    outputs
}

fn run(jobs: &mut JobStore, inputs: Vec<(&str, JsonValue)>, config: JobsConfig) -> JobExecution {
    run_with_source(jobs, inputs, None, config)
}

fn run_with_source(
    jobs: &mut JobStore,
    inputs: Vec<(&str, JsonValue)>,
    source: Option<ArtifactMetadata>,
    config: JobsConfig,
) -> JobExecution {
    let mut declared = NameMap::new();
    let mut given = NameMap::new();
    let mut files = NameMap::new();
    if let Some(source) = source {
        declared.insert(
            "source".to_string(),
            InputSpec {
                kind: InputType::Artifact,
                required: true,
                sensitive: false,
                max_length: None,
                pattern: None,
                max_json_bytes: None,
            },
        );
        given.insert(
            "source".to_string(),
            JsonValue::Text(source.artifact_id.clone()),
        );
        files.insert(source.artifact_id.clone(), MetadataFile::Parsed(source));
    }
    for (name, value) in inputs {
        let kind = match value {
            JsonValue::Text(_) => InputType::String,
            JsonValue::Bool(_) => InputType::Boolean,
            JsonValue::Number { .. } => InputType::Integer,
            _ => InputType::Json,
        };
        declared.insert(
            name.to_string(),
            InputSpec {
                kind,
                required: false,
                sensitive: false,
                max_length: None,
                pattern: None,
                max_json_bytes: None,
            },
        );
        given.insert(name.to_string(), value);
    }
    let manifest = JobManifest {
        name: "build-app".to_string(),
        script: "/opt/build.sh".to_string(),
        timeout_seconds: 1,
        concurrency: Concurrency::Parallel,
        inputs: declared,
        outputs: app_output(true),
    };
    let manifests = ManifestStore::load_from_dir(
        "/etc/jobs",
        &DirectoryRead::Entries(vec![DirectoryEntry::File {
            file_name: "a.toml".to_string(),
            path: "/etc/jobs/a.toml".to_string(),
            manifest: ManifestRead::Parsed {
                manifest,
                script: ScriptProbe::Found { executable: true },
            },
        }]),
    )
    .expect("manifests");
    let artifacts = ArtifactStore::new("/data", 3600, 1, true).expect("artifacts");
    match jobs
        .create_job_at(
            JobRequest {
                name: "build-app",
                idempotency_key: "key-1",
                body: b"{}",
                inputs: given,
            },
            &manifests,
            &artifacts,
            &files,
            &ExistingJob::Absent,
            &config,
            &NOW,
        )
        .expect("job")
    {
        JobAdmission::Started { execution, .. } => execution,
        JobAdmission::Existing(_) => panic!("expected a new run"),
    }
}

fn nothing_registered() -> OutputRegistration {
    OutputRegistration {
        outputs: NameMap::new(),
        failure: None,
    }
}

fn watch() -> ProcessWatch {
    let mut watch = ProcessWatch::new("/opt/build.sh", 1000, 1);
    assert_eq!(watch.deadline, 2000);
    assert!(matches!(
        watch.observe(ProcessEvent::Spawn(SpawnResult::Spawned)),
        ProcessAction::Continue
    ));
    watch
}

fn poll(watch: &mut ProcessWatch) {
    assert!(matches!(
        watch.observe(ProcessEvent::Clock(1500)),
        ProcessAction::Continue
    ));
    assert!(matches!(
        watch.observe(ProcessEvent::Quiet),
        ProcessAction::Continue
    ));
    assert_eq!(watch.phase, ProcessPhase::Polling);
}

fn exit(success: bool, exit_code: Option<i32>) -> Result<ExecutionOutcome, JobError> {
    let mut watch = watch();
    poll(&mut watch);
    watch.observe(ProcessEvent::StillRunning);
    poll(&mut watch);
    watch.observe(ProcessEvent::Exited { success, exit_code });
    match watch.observe(ProcessEvent::Captured {
        stdout: CaptureEnd::Done,
        stderr: CaptureEnd::Done,
    }) {
        ProcessAction::Finish(result) => result,
        other => panic!("unexpected {other:?}"),
    }
}

fn finish(
    jobs: &mut JobStore,
    execution: JobExecution,
    outcome: Result<ExecutionOutcome, JobError>,
    registration: OutputRegistration,
) -> FinishedJob {
    jobs.finish_job_at(execution, outcome, registration, "2026-01-01T00:00:09Z")
}

#[test]
fn tests_executes_successful_script_and_cleans_workdir() {
    let mut jobs = JobStore::new("/data");
    let source = ArtifactStore::new("/data", 3600, 1, true)
        .expect("artifacts")
        .store_bytes_at(
            b"src",
            Some(&janus::digest::sha256_hex(b"src")),
            "00112233445566778899aabbccddeeff",
            &NOW,
        )
        .expect("artifact should store");
    let execution = run_with_source(
        &mut jobs,
        vec![("commit", JsonValue::Text("abc123".to_string()))],
        Some(source),
        config(true, true),
    );
    let env = build_job_env(&execution);
    assert_eq!(env.get("JOB_COMMIT").expect("commit"), "abc123");
    let blob = env.get("JOB_SOURCE").expect("source");
    assert!(blob.ends_with("/blob"));
    assert_eq!(
        blob,
        "/data/artifacts/art_00112233445566778899aabbccddeeff/blob"
    );
    let done = finish(&mut jobs, execution, exit(true, Some(0)), nothing_registered());
    assert_eq!(done.metadata.status, JobStatus::Success);
    assert_eq!(done.metadata.exit_code, Some(0));
    assert_eq!(
        done.metadata.finished_at.as_deref(),
        Some("2026-01-01T00:00:09Z")
    );
    assert!(done.remove_work_dir);
    assert!(matches!(done.stderr, StderrUpdate::Append(messages) if messages.is_empty()));
    assert!(jobs.running_jobs().is_empty());
}

#[test]
fn tests_marks_failed_script_as_failed() {
    let mut jobs = JobStore::new("/data");
    let execution = run(&mut jobs, vec![], config(true, true));
    let done = finish(&mut jobs, execution, exit(false, Some(7)), nothing_registered());
    assert_eq!(done.metadata.status, JobStatus::Failed);
    assert_eq!(done.metadata.exit_code, Some(7));
    assert!(!done.remove_work_dir);
}

#[test]
fn failed_workdirs_go_unless_they_are_kept() {
    let mut jobs = JobStore::new("/data");
    let execution = run(&mut jobs, vec![], config(false, false));
    let done = finish(&mut jobs, execution, exit(false, Some(1)), nothing_registered());
    assert!(done.remove_work_dir);
    let execution = run(&mut jobs, vec![], config(false, false));
    let done = finish(&mut jobs, execution, exit(true, Some(0)), nothing_registered());
    assert!(!done.remove_work_dir);
}

#[test]
fn tests_times_out_long_running_script() {
    let mut watch = watch();
    poll(&mut watch);
    watch.observe(ProcessEvent::StillRunning);
    let outcome = match watch.observe(ProcessEvent::Clock(2000)) {
        ProcessAction::Terminate(outcome) => outcome,
        other => panic!("unexpected {other:?}"),
    };
    assert_eq!(outcome.status, JobStatus::TimedOut);
    assert_eq!(outcome.exit_code, None);
    assert!(matches!(
        watch.observe(ProcessEvent::Clock(3000)),
        ProcessAction::Ignore
    ));
    let mut jobs = JobStore::new("/data");
    let execution = run(&mut jobs, vec![], config(true, true));
    let done = finish(&mut jobs, execution, Ok(outcome), nothing_registered());
    assert_eq!(done.metadata.status, JobStatus::TimedOut);
    assert_eq!(done.metadata.exit_code, None);
}

#[test]
fn cancellation_ends_the_watch() {
    let mut watch = watch();
    watch.observe(ProcessEvent::Clock(1001));
    match watch.observe(ProcessEvent::CancelSignal) {
        ProcessAction::Terminate(outcome) => {
            assert_eq!(outcome.status, JobStatus::Canceled);
            assert_eq!(outcome.exit_code, None);
        }
        other => panic!("unexpected {other:?}"),
    }
    assert_eq!(watch.phase, ProcessPhase::Ended);
}

#[test]
fn broken_processes_report_errors() {
    let spawn = |result: SpawnResult| {
        match ProcessWatch::new("/opt/build.sh", 0, 1).observe(ProcessEvent::Spawn(result)) {
            ProcessAction::Finish(Err(e)) => e.message(),
            other => panic!("unexpected {other:?}"),
        }
    };
    assert_eq!(
        spawn(SpawnResult::Failed("denied".to_string())),
        "failed to spawn job script /opt/build.sh: denied"
    );
    assert_eq!(
        spawn(SpawnResult::NoStdout),
        "failed to spawn job script /opt/build.sh: stdout pipe missing"
    );
    assert_eq!(
        spawn(SpawnResult::NoStderr),
        "failed to spawn job script /opt/build.sh: stderr pipe missing"
    );
    let mut waiting = watch();
    poll(&mut waiting);
    assert!(matches!(
        waiting.observe(ProcessEvent::WaitFailed("io".to_string())),
        ProcessAction::Finish(Err(JobError::WaitProcess { .. }))
    ));
    let mut capturing = watch();
    poll(&mut capturing);
    capturing.observe(ProcessEvent::Exited {
        success: true,
        exit_code: Some(0),
    });
    let lost = match capturing.observe(ProcessEvent::Captured {
        stdout: CaptureEnd::TaskLost("cancelled".to_string()),
        stderr: CaptureEnd::Failed(JobError::ShuttingDown),
    }) {
        ProcessAction::Finish(Err(e)) => e,
        other => panic!("unexpected {other:?}"),
    };
    assert_eq!(
        lost.message(),
        "failed to read job file job output capture task: cancelled"
    );
    let mut jobs = JobStore::new("/data");
    let execution = run(&mut jobs, vec![], config(true, false));
    let done = finish(&mut jobs, execution, Err(lost), nothing_registered());
    assert_eq!(done.metadata.status, JobStatus::Failed);
    assert!(!done.remove_work_dir);
    assert!(matches!(
        done.stderr,
        StderrUpdate::Replace(text)
            if text == "failed to read job file job output capture task: cancelled\n"
    ));
}

fn stored() -> ArtifactMetadata {
    ArtifactStore::new("/data", 3600, 1, true)
        .expect("artifacts")
        .store_file(b"bundle")
        .expect("stored")
}

fn plan(probe: FileProbe, required: bool) -> OutputPlan {
    plan_outputs(&app_output(required), "/data/jobs/j/output", &vec![probe])
}

#[test]
fn tests_registers_declared_outputs_as_artifacts() {
    let plan = plan(FileProbe::File, true);
    assert!(plan.failure.is_none());
    assert_eq!(plan.stores.len(), 1);
    assert_eq!(plan.stores[0].path, "/data/jobs/j/output/app.tar.gz");
    let metadata = stored();
    let registration = register_outputs(plan, vec![Ok(metadata.clone())], NameMap::new());
    let mut jobs = JobStore::new("/data");
    let execution = run(&mut jobs, vec![], config(true, true));
    let done = finish(&mut jobs, execution, exit(true, Some(0)), registration);
    assert_eq!(done.metadata.status, JobStatus::Success);
    match done.metadata.outputs.get("app").expect("app") {
        JobOutput::Artifact {
            artifact_id, size, ..
        } => {
            assert_eq!(*size, 6);
            assert_eq!(artifact_id, &metadata.artifact_id);
        }
        other => panic!("unexpected {other:?}"),
    }
    let shown = JobOutputResponse::from(JobOutputArtifact::from(metadata));
    assert_eq!(shown.size, 6);
}

#[test]
fn tests_fails_successful_script_when_required_output_is_missing() {
    let registration = register_outputs(plan(FileProbe::Missing, true), vec![], NameMap::new());
    let mut jobs = JobStore::new("/data");
    let execution = run(&mut jobs, vec![], config(true, true));
    let done = finish(&mut jobs, execution, exit(true, Some(0)), registration);
    assert_eq!(done.metadata.status, JobStatus::Failed);
    let messages = match done.stderr {
        StderrUpdate::Append(messages) => messages,
        StderrUpdate::Replace(_) => panic!("log must be kept"),
    };
    assert_eq!(messages.len(), 1);
    assert!(append_runtime_message("", &messages[0]).contains("required output app is missing"));
}

#[test]
fn outputs_are_judged_one_by_one() {
    assert!(plan(FileProbe::Missing, false).failure.is_none());
    assert!(plan(FileProbe::Missing, false).stores.is_empty());
    let failure = |probe: FileProbe| plan(probe, false).failure.expect("failure").message();
    assert_eq!(
        failure(FileProbe::Other),
        "required output app is missing at /data/jobs/j/output/app.tar.gz"
    );
    assert_eq!(
        failure(FileProbe::Unreadable("io".to_string())),
        "failed to read job file /data/jobs/j/output/app.tar.gz: io"
    );
    let registration = register_outputs(
        plan(FileProbe::File, true),
        vec![Err(ArtifactError::TimeOverflow)],
        NameMap::new(),
    );
    assert!(registration.outputs.is_empty());
    assert_eq!(
        registration.failure.expect("failure").message(),
        "artifact expiration time overflow"
    );
    assert_eq!(safe_output_path("/out", "a/b"), Some("/out/a/b".to_string()));
    for bad in ["", "/etc/passwd", "..", "a/../b", "../a", "a/.."] {
        assert_eq!(safe_output_path("/out", bad), None);
    }
    assert!(safe_output_path("/out", "a..b/...").is_some());
}

#[test]
fn fails_job_when_log_limit_is_exceeded() {
    let mut capture = LogCapture::new("stdout", 0);
    let step = capture.accept(1);
    assert_eq!(step.write, 0);
    let message = match step.stop {
        CaptureStop::LimitReached(message) => message,
        other => panic!("unexpected {other:?}"),
    };
    let mut watch = watch();
    watch.observe(ProcessEvent::Clock(1001));
    let outcome = match watch.observe(ProcessEvent::LogLimit(message)) {
        ProcessAction::Terminate(outcome) => outcome,
        other => panic!("unexpected {other:?}"),
    };
    let mut jobs = JobStore::new("/data");
    let execution = run(&mut jobs, vec![], config(true, true));
    let done = finish(&mut jobs, execution, Ok(outcome), nothing_registered());
    assert_eq!(done.metadata.status, JobStatus::Failed);
    assert_eq!(done.metadata.exit_code, None);
    let messages = match done.stderr {
        StderrUpdate::Append(messages) => messages,
        StderrUpdate::Replace(_) => panic!("log must be kept"),
    };
    assert_eq!(
        append_runtime_message("", &messages[0]),
        "job stdout log exceeded configured limit of 0 bytes\n"
    );
}

#[test]
fn captures_write_up_to_their_limit() {
    let mut capture = LogCapture::new("stderr", 10);
    let step = capture.accept(6);
    assert_eq!(step.write, 6);
    assert!(matches!(step.stop, CaptureStop::GoOn));
    let step = capture.accept(4);
    assert_eq!(step.write, 4);
    assert!(matches!(step.stop, CaptureStop::GoOn));
    let step = capture.accept(0);
    assert!(matches!(step.stop, CaptureStop::End));
    let step = capture.accept(3);
    assert_eq!(step.write, 0);
    assert!(matches!(step.stop, CaptureStop::LimitReached(_)));
    assert_eq!(capture.written, 10);
    let mut capture = LogCapture::new("stderr", 10);
    assert_eq!(capture.accept(11).write, 10);
}

#[test]
fn job_process_sees_only_deliberate_environment() {
    let mut jobs = JobStore::new("/data");
    let execution = run(
        &mut jobs,
        vec![
            ("commit", JsonValue::Text("abc123".to_string())),
            ("dry-run", JsonValue::Bool(true)),
            (
                "count",
                JsonValue::Number {
                    integer: Some(-3),
                    text: "-3".to_string(),
                },
            ),
            ("extra", JsonValue::Composite("{\"a\":1}".to_string())),
        ],
        config(true, true),
    );
    let env = build_job_env(&execution);
    let mut pairs = Vec::new();
    for i in 0..env.len() {
        pairs.push(format!("{}={}", env.name_at(i), env.value_at(i)));
    }
    let dir = "/data/jobs/job_901c73e2463047b19680dba790b57c97";
    assert_eq!(
        pairs,
        vec![
            "JOB_COMMIT=abc123".to_string(),
            "JOB_COUNT=-3".to_string(),
            "JOB_DRY_RUN=true".to_string(),
            "JOB_EXTRA={\"a\":1}".to_string(),
            "JOB_ID=job_901c73e2463047b19680dba790b57c97".to_string(),
            format!("JOB_METADATA_PATH={dir}/metadata.json"),
            "JOB_NAME=build-app".to_string(),
            format!("JOB_OUTPUT_DIR={dir}/output"),
            format!("JOB_WORKDIR={dir}/work"),
        ]
    );
    assert_eq!(DEFAULT_JOB_PATH, "/usr/local/bin:/usr/bin:/bin");
    assert_eq!(normalize_input_env("my-input_2"), "JOB_MY_INPUT_2");
}

#[test]
fn runs_finish_by_the_clock_too() {
    let mut jobs = JobStore::new("/data");
    let execution = run(&mut jobs, vec![], config(true, true));
    let done = jobs.finish_job(execution, exit(true, Some(0)), nothing_registered());
    assert_eq!(done.metadata.finished_at.expect("finished").len(), 20);
}

#[test]
fn messages_go_on_lines_of_their_own() {
    assert_eq!(append_runtime_message("", "m"), "m\n");
    assert_eq!(append_runtime_message("log", "m"), "log\nm\n");
    assert_eq!(append_runtime_message("log\n", "m"), "log\nm\n");
}

#[test]
fn inputs_that_share_a_variable_with_the_runner_replace_it() {
    let mut jobs = JobStore::new("/data");
    let execution = run(
        &mut jobs,
        vec![("ID", JsonValue::Text("mine".to_string()))],
        config(true, true),
    );
    let env = build_job_env(&execution);
    assert_eq!(env.get("JOB_ID").expect("id"), "mine");
    assert_eq!(env.get("JOB_NAME").expect("name"), "build-app");
    assert_eq!(env.get("PATH"), None);
}

#[test]
fn streams_are_kept_up_to_their_limit_however_they_are_read() {
    for sizes in [vec![12], vec![4, 8], vec![10, 1, 1], vec![3, 3, 3, 3]] {
        let mut capture = LogCapture::new("stdout", 10);
        let mut messages = Vec::new();
        for size in sizes {
            if let CaptureStop::LimitReached(message) = capture.accept(size).stop {
                messages.push(message);
                break;
            }
        }
        assert_eq!(capture.written, 10);
        assert_eq!(
            messages,
            vec!["job stdout log exceeded configured limit of 10 bytes"]
        );
    }
    for sizes in [vec![10], vec![4, 6], vec![1, 1]] {
        let mut capture = LogCapture::new("stdout", 10);
        let length: usize = sizes.iter().sum();
        for size in sizes {
            assert!(matches!(capture.accept(size).stop, CaptureStop::GoOn));
        }
        assert!(matches!(capture.accept(0).stop, CaptureStop::End));
        assert_eq!(capture.written, length as u64);
    }
}

#[test]
fn registration_without_a_failure_holds_every_planned_output() {
    let mut specs = app_output(true);
    specs.insert(
        "log".to_string(),
        OutputSpec {
            kind: OutputType::Artifact,
            path: "log.txt".to_string(),
            required: false,
        },
    );
    let plan = |probes: Vec<FileProbe>| plan_outputs(&specs, "/out", &probes);
    let both = plan(vec![FileProbe::File, FileProbe::File]);
    let registration = register_outputs(both, vec![Ok(stored()), Ok(stored())], NameMap::new());
    assert!(registration.failure.is_none());
    assert!(registration.outputs.contains_name("app"));
    assert!(registration.outputs.contains_name("log"));

    let optional = plan(vec![FileProbe::File, FileProbe::Missing]);
    let registration = register_outputs(optional, vec![Ok(stored())], NameMap::new());
    assert!(registration.failure.is_none());
    assert_eq!(registration.outputs.len(), 1);

    let cut_short = plan(vec![FileProbe::File, FileProbe::File]);
    let registration = register_outputs(
        cut_short,
        vec![Err(ArtifactError::TimeOverflow)],
        NameMap::new(),
    );
    assert!(registration.failure.is_some());
    assert!(registration.outputs.is_empty());
}
