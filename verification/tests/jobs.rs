use janus::artifacts::{ArtifactMetadata, ArtifactStore, MetadataFile};
use janus::config::JobsConfig;
use janus::job::{
    FailureCategory, JobLogsResponse, JobOutputMetadata, JobStatus, JobStatusResponse,
    TerminalReason,
};
use janus::jobs::api::{
    admit_run_request, created_status_code, idempotency_key_from_header, inputs_from_document,
    list_jobs, parse_run_inputs,
};
use janus::jobs::error::JobErrorResponse;
use janus::jobs::execution::{
    append_runtime_message, ProcessAction, ProcessEvent, ProcessWatch, SpawnResult,
};
use janus::jobs::inputs::artifact_references;
use janus::jobs::models::{JobExecution, JobMetadata};
use janus::jobs::outputs::OutputRegistration;
use janus::jobs::recovery::{recover_interrupted_jobs_at, JobEntry, RecoveryAction};
use janus::jobs::store::{
    job_id_for_idempotency_key, shutdown_step, transition_metadata_status, CancelStep, ExistingJob,
    JobAdmission, JobFile, JobRequest, JobStore, LogFile,
};
use janus::jobs::JobError;
use janus::json::JsonValue;
use janus::manifest::{
    DirectoryEntry, DirectoryRead, InputSpec, JobManifest, ManifestRead, ManifestStore, ScriptProbe,
};
use janus::names::NameMap;
use janus::protocol::HeaderText;
use janus::rate_limit::RateLimiter;
use janus::schema::{Concurrency, InputType};
use janus::time::UtcInstant;

/// 2026-01-01T00:00:00Z
const NOW: UtcInstant = UtcInstant {
    seconds: 1_767_225_600,
    nanos: 0,
};

const CONFIG: JobsConfig = JobsConfig {
    default_log_limit_mb: 50,
    cleanup_successful_workdirs: true,
    keep_failed_workdirs: true,
    max_request_body_kb: 64,
    max_run_requests_per_minute: 60,
};

fn spec(kind: InputType, required: bool) -> InputSpec {
    InputSpec {
        kind,
        required,
        sensitive: false,
        max_length: None,
        pattern: None,
        max_json_bytes: None,
    }
}

fn manifest(
    name: &str,
    concurrency: Concurrency,
    inputs: Vec<(&str, InputSpec)>,
) -> JobManifest {
    let mut declared = NameMap::new();
    for (name, spec) in inputs {
        declared.insert(name.to_string(), spec);
    }
    JobManifest {
        name: name.to_string(),
        script: "/opt/build.sh".to_string(),
        timeout_seconds: 600,
        concurrency,
        inputs: declared,
        outputs: NameMap::new(),
    }
}

fn manifests(list: Vec<JobManifest>) -> ManifestStore {
    let entries = list
        .into_iter()
        .map(|manifest| DirectoryEntry::File {
            file_name: format!("{}.toml", manifest.name),
            path: format!("/etc/jobs/{}.toml", manifest.name),
            manifest: ManifestRead::Parsed {
                manifest,
                script: ScriptProbe::Found { executable: true },
            },
        })
        .collect();
    ManifestStore::load_from_dir("/etc/jobs", &DirectoryRead::Entries(entries))
        .expect("manifests should load")
}

fn build_app() -> ManifestStore {
    manifests(vec![manifest(
        "build-app",
        Concurrency::Parallel,
        vec![
            ("commit", spec(InputType::String, true)),
            ("branch", spec(InputType::String, true)),
        ],
    )])
}

fn optional_commit(name: &str, concurrency: Concurrency) -> JobManifest {
    manifest(
        name,
        concurrency,
        vec![("commit", spec(InputType::String, false))],
    )
}

fn artifacts() -> ArtifactStore {
    ArtifactStore::new("/data", 3600, 1, true).expect("store should init")
}

fn create(
    jobs: &mut JobStore,
    manifests: &ManifestStore,
    name: &str,
    key: &str,
    body: &str,
) -> Result<JobAdmission, JobError> {
    create_with(jobs, manifests, name, key, body, &ExistingJob::Absent)
}

fn create_with(
    jobs: &mut JobStore,
    manifests: &ManifestStore,
    name: &str,
    key: &str,
    body: &str,
    existing: &ExistingJob,
) -> Result<JobAdmission, JobError> {
    let inputs = parse_run_inputs(body.as_bytes())?;
    jobs.create_job_at(
        JobRequest {
            name,
            idempotency_key: key,
            body: body.as_bytes(),
            inputs,
        },
        manifests,
        &artifacts(),
        &NameMap::new(),
        existing,
        &CONFIG,
        &NOW,
    )
}

fn started(admission: JobAdmission) -> JobExecution {
    match admission {
        JobAdmission::Started {
            execution,
            response,
        } => {
            assert_eq!(created_status_code(&response), 201);
            execution
        }
        JobAdmission::Existing(_) => panic!("expected a new run"),
    }
}

#[test]
fn tests_creates_job_metadata_for_valid_request() {
    let mut jobs = JobStore::new("/data");
    let admission = create(
        &mut jobs,
        &build_app(),
        "build-app",
        "key-1",
        r#"{"branch":"main","commit":"abc123"}"#,
    )
    .expect("job should be created");
    let execution = started(admission);

    assert_eq!(execution.metadata.name, "build-app");
    assert_eq!(
        execution.metadata.inputs.get("commit").expect("commit").as_str(),
        Some("abc123")
    );
    assert_eq!(execution.job_id, "job_901c73e2463047b19680dba790b57c97");
    assert_eq!(
        execution.metadata_path,
        "/data/jobs/job_901c73e2463047b19680dba790b57c97/metadata.json"
    );
    assert_eq!(
        execution.work_dir,
        "/data/jobs/job_901c73e2463047b19680dba790b57c97/work"
    );
    assert_eq!(execution.metadata.status, JobStatus::Running);
    assert_eq!(execution.metadata.started_at, "2026-01-01T00:00:00Z");
    assert_eq!(execution.log_limit_bytes, 50 * 1024 * 1024);
    assert_eq!(jobs.running_jobs().len(), 1);
}

#[test]
fn tests_rejects_missing_required_param() {
    let mut jobs = JobStore::new("/data");
    let error = create(
        &mut jobs,
        &build_app(),
        "build-app",
        "key-1",
        r#"{"commit":"abc123"}"#,
    )
    .expect_err("branch is required");
    assert_eq!(error.status_code(), 400);
    assert_eq!(error.message(), "missing required input: branch");
    assert!(jobs.running_jobs().is_empty());
}

#[test]
fn tests_rejects_unknown_param() {
    let mut jobs = JobStore::new("/data");
    let error = create(
        &mut jobs,
        &build_app(),
        "build-app",
        "key-1",
        r#"{"commit":"abc123","branch":"main","extra":"nope"}"#,
    )
    .expect_err("extra is unknown");
    assert_eq!(error.status_code(), 400);
    assert_eq!(error.message(), "unknown input: extra");
}

fn with_source() -> ManifestStore {
    manifests(vec![manifest(
        "build-with-artifact",
        Concurrency::Parallel,
        vec![("source", spec(InputType::Artifact, true))],
    )])
}

fn create_with_source(
    file: MetadataFile,
    artifact_id: &str,
) -> Result<JobAdmission, JobError> {
    let mut files = NameMap::new();
    files.insert(artifact_id.to_string(), file);
    let body = format!("{{\"source\":\"{artifact_id}\"}}");
    let inputs = parse_run_inputs(body.as_bytes())?;
    JobStore::new("/data").create_job_at(
        JobRequest {
            name: "build-with-artifact",
            idempotency_key: "key-1",
            body: body.as_bytes(),
            inputs,
        },
        &with_source(),
        &artifacts(),
        &files,
        &ExistingJob::Absent,
        &CONFIG,
        &NOW,
    )
}

fn stored(bytes: &[u8]) -> ArtifactMetadata {
    let checksum = janus::digest::sha256_hex(bytes);
    artifacts()
        .store_bytes_at(
            bytes,
            Some(&checksum),
            "00112233445566778899aabbccddeeff",
            &NOW,
        )
        .expect("artifact should store")
}

#[test]
fn tests_resolves_artifact_params() {
    let metadata = stored(b"src");
    let id = metadata.artifact_id.clone();
    let execution = started(
        create_with_source(MetadataFile::Parsed(metadata), &id).expect("artifact should resolve"),
    );
    let path = execution
        .metadata
        .resolved_artifacts
        .get("source")
        .expect("source");
    assert!(path.ends_with("/blob"));
    assert_eq!(path, &format!("/data/artifacts/{id}/blob"));
}

#[test]
fn artifact_inputs_have_to_be_there_and_alive() {
    let metadata = stored(b"src");
    let id = metadata.artifact_id.clone();
    let missing = create_with_source(MetadataFile::Missing, &id).expect_err("missing");
    assert_eq!(missing.message(), format!("artifact not found: {id}"));
    assert_eq!(missing.status_code(), 400);
    assert_eq!(missing.code(), "artifact_error");
    let mut old = metadata.clone();
    old.expires_at = "2026-01-01T00:00:00Z".to_string();
    let expired = create_with_source(MetadataFile::Parsed(old), &id).expect_err("expired");
    assert_eq!(
        expired.message(),
        format!("artifact input source references expired artifact {id}")
    );
    let mut odd = metadata;
    odd.expires_at = "never".to_string();
    let broken = create_with_source(MetadataFile::Parsed(odd), &id).expect_err("no time");
    assert!(matches!(broken, JobError::Artifact(_)));
    let invalid = create_with_source(MetadataFile::Missing, "art_short").expect_err("bad id");
    assert_eq!(invalid.message(), "invalid artifact id: art_short");
    let number = parse_run_inputs(br#"{"source":5}"#).expect("object");
    assert!(artifact_references(with_source().get("build-with-artifact").expect("job"), &number)
        .is_empty());
    let text = parse_run_inputs(br#"{"source":"art_1"}"#).expect("object");
    assert_eq!(
        artifact_references(with_source().get("build-with-artifact").expect("job"), &text),
        vec!["art_1"]
    );
}

fn one_input(spec: InputSpec, body: &str) -> Result<(), String> {
    let store = manifests(vec![manifest(
        "typed",
        Concurrency::Parallel,
        vec![("value", spec)],
    )]);
    create(&mut JobStore::new("/data"), &store, "typed", "k", body)
        .map(|_| ())
        .map_err(|e| e.message())
}

#[test]
fn inputs_are_held_to_their_types() {
    let refusals = vec![
        (InputType::String, r#"{"value":1}"#, "string"),
        (InputType::Integer, r#"{"value":1.5}"#, "integer"),
        (
            InputType::Integer,
            r#"{"value":9223372036854775808}"#,
            "integer",
        ),
        (InputType::Integer, r#"{"value":"1"}"#, "integer"),
        (InputType::Boolean, r#"{"value":0}"#, "boolean"),
        (InputType::Artifact, r#"{"value":[]}"#, "artifact id string"),
        (InputType::Json, r#"{"value":null}"#, "json"),
    ];
    for (kind, body, expected) in refusals {
        assert_eq!(
            one_input(spec(kind, true), body),
            Err(format!(
                "invalid input type for value: expected {expected}"
            ))
        );
    }
    assert_eq!(
        one_input(spec(InputType::Integer, true), r#"{"value":-7}"#),
        Ok(())
    );
    assert_eq!(
        one_input(spec(InputType::Boolean, true), r#"{"value":false}"#),
        Ok(())
    );
    assert_eq!(
        one_input(spec(InputType::Json, true), r#"{"value":{"a":[1,2]}}"#),
        Ok(())
    );
}

#[test]
fn inputs_are_held_to_their_constraints() {
    let mut short = spec(InputType::String, true);
    short.max_length = Some(3);
    assert_eq!(one_input(short.clone(), r#"{"value":"äöü"}"#), Ok(()));
    assert_eq!(
        one_input(short, r#"{"value":"abcd"}"#),
        Err("invalid input value for value: must be at most 3 characters".to_string())
    );
    let mut hex = spec(InputType::String, true);
    hex.pattern = Some("^[0-9a-f]+$".to_string());
    assert_eq!(one_input(hex.clone(), r#"{"value":"abc123"}"#), Ok(()));
    assert_eq!(
        one_input(hex, r#"{"value":"xyz"}"#),
        Err("invalid input value for value: must match pattern ^[0-9a-f]+$".to_string())
    );
    let mut small = spec(InputType::Json, true);
    small.max_json_bytes = Some(7);
    assert_eq!(one_input(small.clone(), r#"{"value": {"a": 1}}"#), Ok(()));
    assert_eq!(one_input(small.clone(), r#"{"value":"abcde"}"#), Ok(()));
    assert_eq!(
        one_input(small.clone(), r#"{"value":"a\nbcd"}"#),
        Err("invalid input value for value: must be at most 7 JSON bytes".to_string())
    );
    assert_eq!(
        one_input(small, r#"{"value": {"a": 10}}"#),
        Err("invalid input value for value: must be at most 7 JSON bytes".to_string())
    );
}

#[test]
fn sensitive_inputs_are_blotted_out() {
    let mut token = spec(InputType::String, true);
    token.sensitive = true;
    let store = manifests(vec![manifest(
        "deploy",
        Concurrency::Parallel,
        vec![("token", token), ("host", spec(InputType::String, true))],
    )]);
    let execution = started(
        create(
            &mut JobStore::new("/data"),
            &store,
            "deploy",
            "k",
            r#"{"token":"hunter2","host":"h"}"#,
        )
        .expect("job should be created"),
    );
    let shown = |name: &str| {
        execution
            .metadata
            .inputs
            .get(name)
            .expect("input")
            .as_str()
            .expect("text")
            .to_string()
    };
    assert_eq!(shown("token"), "[REDACTED]");
    assert_eq!(shown("host"), "h");
    assert_eq!(
        execution.raw_inputs.get("token").expect("token").as_str(),
        Some("hunter2")
    );
}

fn metadata_of(admission: JobAdmission) -> JobMetadata {
    started(admission).metadata
}

#[test]
fn tests_reads_job_status_over_http() {
    let mut jobs = JobStore::new("/data");
    let store = manifests(vec![optional_commit("build-app", Concurrency::Parallel)]);
    let metadata = metadata_of(
        create(&mut jobs, &store, "build-app", "key-1", r#"{"commit":"abc123"}"#).expect("job"),
    );
    let job_id = metadata.job_id.clone();
    let mut done = metadata.clone();
    done.status = JobStatus::Success;
    done.finished_at = Some("2026-01-01T00:00:05Z".to_string());
    let fetched = JobStatusResponse::from(
        jobs.read_job(&job_id, JobFile::Parsed(done.clone()))
            .expect("job should load"),
    );
    assert_eq!(fetched.job_id, job_id);
    assert_eq!(fetched.status, done.status);
    assert_eq!(fetched.finished_at, done.finished_at);
    assert_eq!(fetched.exit_code, None);
    assert!(matches!(
        jobs.read_job("job_recover", JobFile::Missing("gone".to_string())),
        Err(JobError::InvalidJobId(_))
    ));
    let missing = jobs
        .read_job(&job_id, JobFile::Missing("gone".to_string()))
        .expect_err("missing");
    assert_eq!(missing.status_code(), 404);
    assert_eq!(missing.message(), format!("job not found: {job_id}"));
    assert_eq!(
        jobs.read_job(&job_id, JobFile::Unreadable("io".to_string()))
            .expect_err("io")
            .message(),
        format!("failed to read job file /data/jobs/{job_id}/metadata.json: io")
    );
    assert_eq!(
        jobs.read_job(&job_id, JobFile::Unparsable("eof".to_string()))
            .expect_err("eof")
            .message(),
        format!("failed to parse job metadata /data/jobs/{job_id}/metadata.json: eof")
    );
}

#[test]
fn tests_reads_job_logs_over_http() {
    let jobs = JobStore::new("/data");
    let job_id = job_id_for_idempotency_key("key-1");
    let logs = JobLogsResponse::from(
        jobs.read_logs(
            &job_id,
            LogFile::Text("out".to_string()),
            LogFile::Text("err".to_string()),
        )
        .expect("logs"),
    );
    assert_eq!(logs.stdout, "out");
    assert_eq!(logs.stderr, "err");
    assert!(matches!(
        jobs.read_logs(&job_id, LogFile::Missing, LogFile::Unreadable("io".to_string())),
        Err(JobError::JobNotFound(_))
    ));
    assert_eq!(
        jobs.read_logs(
            &job_id,
            LogFile::Text(String::new()),
            LogFile::Unreadable("io".to_string())
        )
        .expect_err("io")
        .message(),
        format!("failed to read job file /data/jobs/{job_id}/stderr.log: io")
    );
}

#[test]
fn lists_job_definitions_over_http() {
    let jobs = list_jobs(&build_app());
    assert_eq!(jobs.len(), 1);
    assert_eq!(jobs[0].name, "build-app");
    assert_eq!(jobs[0].timeout_seconds, 600);
    assert!(jobs[0].inputs.contains_name("commit"));
    assert!(jobs[0].inputs.get("commit").expect("commit").required);
}

/// Watches the process of a run that is told to stop, and ends the run.
fn end_canceled(jobs: &mut JobStore, execution: JobExecution) -> JobMetadata {
    let timeout_seconds = execution.manifest.timeout_seconds;
    let mut watch = ProcessWatch::new(&execution.manifest.script, 0, timeout_seconds);
    watch.observe(ProcessEvent::Spawn(SpawnResult::Spawned));
    watch.observe(ProcessEvent::Clock(25));
    watch.observe(ProcessEvent::Quiet);
    watch.observe(ProcessEvent::StillRunning);
    watch.observe(ProcessEvent::Clock(50));
    let outcome = match watch.observe(ProcessEvent::CancelSignal) {
        ProcessAction::Terminate(outcome) => outcome,
        other => panic!("unexpected {other:?}"),
    };
    let job_id = execution.job_id.clone();
    let registration = OutputRegistration {
        outputs: NameMap::new(),
        failure: None,
    };
    let finished =
        jobs.finish_job_at(execution, Ok(outcome), registration, "2026-01-01T00:00:01Z");
    assert!(!finished.remove_work_dir);
    assert!(jobs.running_jobs().iter().all(|job| job.job_id != job_id));
    finished.metadata
}

#[test]
fn tests_cancels_running_job_over_http() {
    let mut jobs = JobStore::new("/data");
    let store = manifests(vec![optional_commit("build-app", Concurrency::Parallel)]);
    let execution = started(
        create(&mut jobs, &store, "build-app", "key-1", r#"{"commit":"abc123"}"#).expect("job"),
    );
    let job_id = execution.job_id.clone();
    let running = execution.metadata.clone();

    match jobs
        .cancel_job(&job_id, JobFile::Parsed(running.clone()))
        .expect("running job can be canceled")
    {
        CancelStep::Signal {
            persist: Some(metadata),
        } => assert_eq!(metadata.status, JobStatus::CancelRequested),
        other => panic!("unexpected {other:?}"),
    }
    let mut requested = running.clone();
    requested.status = JobStatus::CancelRequested;
    assert!(matches!(
        jobs.cancel_job(&job_id, JobFile::Parsed(requested)),
        Ok(CancelStep::Signal { persist: None })
    ));
    assert!(matches!(
        jobs.cancel_job(&job_id, JobFile::Missing("gone".to_string())),
        Err(JobError::ReadFile { .. })
    ));

    let metadata = end_canceled(&mut jobs, execution);
    assert_eq!(metadata.status, JobStatus::Canceled);
    assert_eq!(metadata.exit_code, None);
    assert_eq!(
        metadata.finished_at.as_deref(),
        Some("2026-01-01T00:00:01Z")
    );
    assert!(matches!(
        jobs.cancel_job(&job_id, JobFile::Parsed(metadata)),
        Ok(CancelStep::AlreadyCanceled)
    ));
    let mut success = running;
    success.status = JobStatus::Success;
    let late = jobs
        .cancel_job(&job_id, JobFile::Parsed(success))
        .expect_err("ended");
    assert_eq!(late.status_code(), 409);
    assert_eq!(late.message(), format!("job is not running: {job_id}"));
    assert!(matches!(
        jobs.cancel_job(&job_id, JobFile::Missing("gone".to_string())),
        Err(JobError::JobNotFound(_))
    ));
    assert!(matches!(
        jobs.cancel_job("job_x", JobFile::Missing("gone".to_string())),
        Err(JobError::InvalidJobId(_))
    ));
}

#[test]
fn begin_shutdown_cancels_active_jobs() {
    let mut jobs = JobStore::new("/data");
    let store = manifests(vec![optional_commit("build-app", Concurrency::Parallel)]);
    let execution = started(
        create(&mut jobs, &store, "build-app", "key-1", r#"{"commit":"abc123"}"#).expect("job"),
    );

    let canceled = jobs.begin_shutdown();
    assert_eq!(canceled, 1);
    assert!(jobs.is_shutting_down());

    assert_eq!(jobs.running_jobs().len(), 1);
    let told = shutdown_step(JobFile::Parsed(execution.metadata.clone()))
        .expect("running moves on");
    let mut expected = execution.metadata.clone();
    expected.status = JobStatus::CancelRequested;
    assert_eq!(told, expected);
    assert_eq!(jobs.drained(0, 10), None);
    assert_eq!(jobs.drained(10, 10), Some(false));
    let metadata = end_canceled(&mut jobs, execution);
    assert_eq!(metadata.status, JobStatus::Canceled);
    assert_eq!(jobs.drained(99, 10), Some(true));
}

#[test]
fn shutdown_leaves_the_metadata_of_other_runs_alone() {
    let mut jobs = JobStore::new("/data");
    let store = manifests(vec![optional_commit("build-app", Concurrency::Parallel)]);
    let metadata =
        metadata_of(create(&mut jobs, &store, "build-app", "key-1", "{}").expect("job"));
    for status in [
        JobStatus::CancelRequested,
        JobStatus::Canceling,
        JobStatus::Success,
        JobStatus::Failed,
        JobStatus::TimedOut,
        JobStatus::Canceled,
        JobStatus::Rejected,
    ] {
        let mut other = metadata.clone();
        other.status = status;
        assert_eq!(shutdown_step(JobFile::Parsed(other)), None);
    }
    assert_eq!(shutdown_step(JobFile::Missing("gone".to_string())), None);
    assert_eq!(shutdown_step(JobFile::Unreadable("denied".to_string())), None);
    assert_eq!(shutdown_step(JobFile::Unparsable("eof".to_string())), None);
}

#[test]
fn shutdown_writes_what_a_request_to_cancel_writes() {
    let mut jobs = JobStore::new("/data");
    let store = manifests(vec![optional_commit("build-app", Concurrency::Parallel)]);
    let metadata =
        metadata_of(create(&mut jobs, &store, "build-app", "key-1", "{}").expect("job"));
    let job_id = metadata.job_id.clone();
    match jobs.cancel_job(&job_id, JobFile::Parsed(metadata.clone())).expect("cancel") {
        CancelStep::Signal { persist } => {
            assert!(persist.is_some());
            assert_eq!(persist, shutdown_step(JobFile::Parsed(metadata)));
        }
        other => panic!("unexpected {other:?}"),
    }
}

#[test]
fn terminal_metadata_never_moves_on() {
    let mut jobs = JobStore::new("/data");
    let store = manifests(vec![optional_commit("build-app", Concurrency::Parallel)]);
    let metadata =
        metadata_of(create(&mut jobs, &store, "build-app", "key-1", "{}").expect("job"));
    for status in [
        JobStatus::Success,
        JobStatus::Failed,
        JobStatus::TimedOut,
        JobStatus::Canceled,
        JobStatus::Rejected,
    ] {
        let mut ended = metadata.clone();
        ended.status = status;
        assert!(transition_metadata_status(ended, None, JobStatus::Running).is_none());
    }
    let mut canceling = metadata.clone();
    canceling.status = JobStatus::Canceling;
    assert!(transition_metadata_status(
        canceling,
        Some(JobStatus::Running),
        JobStatus::CancelRequested
    )
    .is_none());
    assert!(transition_metadata_status(metadata, None, JobStatus::Running).is_none());
}

#[test]
fn rejects_new_jobs_after_shutdown_starts() {
    let mut jobs = JobStore::new("/data");
    jobs.begin_shutdown();

    let error = create(
        &mut jobs,
        &build_app(),
        "build-app",
        "key-1",
        r#"{"commit":"abc123","branch":"main"}"#,
    )
    .expect_err("create_job should reject while shutting down");

    assert!(matches!(error, JobError::ShuttingDown));
    assert_eq!(error.status_code(), 503);
}

fn interrupted(status: JobStatus) -> JobMetadata {
    JobMetadata {
        job_id: "job_recover".to_string(),
        name: "build-app".to_string(),
        idempotency_key: "key".to_string(),
        request_hash: "hash".to_string(),
        status,
        started_at: "2026-01-01T00:00:00Z".to_string(),
        finished_at: None,
        duration_ms: None,
        exit_code: None,
        terminal_reason: None,
        failure_category: None,
        inputs: NameMap::new(),
        resolved_artifacts: NameMap::new(),
        outputs: NameMap::new(),
        output_metadata: JobOutputMetadata::default(),
    }
}

fn job_entry(name: &str, metadata: JobFile) -> JobEntry {
    JobEntry::Directory {
        path: format!("/data/jobs/{name}"),
        metadata,
    }
}

#[test]
fn tests_recovers_running_jobs_on_startup() {
    let entries = vec![job_entry(
        "job_recover",
        JobFile::Parsed(interrupted(JobStatus::Running)),
    )];
    let recovery = JobStore::new("/data").recover_interrupted_jobs(&entries);

    assert!(recovery.failure.is_none());
    assert_eq!(recovery.actions.len(), 1);
    match &recovery.actions[0] {
        RecoveryAction::Close {
            metadata_path,
            metadata,
            stderr_path,
            message,
        } => {
            assert_eq!(metadata_path, "/data/jobs/job_recover/metadata.json");
            assert_eq!(stderr_path, "/data/jobs/job_recover/stderr.log");
            assert_eq!(metadata.status, JobStatus::Failed);
            assert!(metadata.finished_at.is_some());
            assert_eq!(metadata.terminal_reason, Some(TerminalReason::Shutdown));
            assert_eq!(metadata.failure_category, Some(FailureCategory::Infra));
            assert!(append_runtime_message("", message)
                .contains("runner restarted before job completion"));
        }
        other => panic!("unexpected {other:?}"),
    }
}

#[test]
fn recovery_closes_canceling_jobs_and_counts_time() {
    let entries = vec![
        job_entry(
            "a",
            JobFile::Parsed(interrupted(JobStatus::CancelRequested)),
        ),
        job_entry("b", JobFile::Parsed(interrupted(JobStatus::Success))),
        JobEntry::NotDirectory,
        job_entry("c", JobFile::Parsed(interrupted(JobStatus::Canceling))),
    ];
    let recovery =
        recover_interrupted_jobs_at("/data/jobs", &entries, "2026-01-01T00:01:30.250Z");
    assert_eq!(recovery.actions.len(), 2);
    for action in &recovery.actions {
        match action {
            RecoveryAction::Close {
                metadata, message, ..
            } => {
                assert_eq!(metadata.status, JobStatus::Canceled);
                assert_eq!(metadata.duration_ms, Some(90_250));
                assert_eq!(metadata.failure_category, Some(FailureCategory::Canceled));
                assert_eq!(
                    *message,
                    "runner restarted while canceling the job; marking job as canceled"
                );
                // a second recovery has nothing left to do
                let again = recover_interrupted_jobs_at(
                    "/data/jobs",
                    &vec![job_entry("a", JobFile::Parsed(metadata.clone()))],
                    "2026-01-02T00:00:00Z",
                );
                assert!(again.actions.is_empty());
            }
            other => panic!("unexpected {other:?}"),
        }
    }
}

#[test]
fn removes_job_dir_missing_metadata_on_startup() {
    let entries = vec![job_entry(
        "job_incomplete",
        JobFile::Missing("not found".to_string()),
    )];
    let recovery = recover_interrupted_jobs_at("/data/jobs", &entries, "2026-01-01T00:00:00Z");

    assert_eq!(recovery.actions.len(), 1);
    assert!(matches!(
        &recovery.actions[0],
        RecoveryAction::RemoveDirectory { path } if path == "/data/jobs/job_incomplete"
    ));
}

#[test]
fn removes_job_dir_with_invalid_metadata_on_startup() {
    let entries = vec![job_entry(
        "job_invalid",
        JobFile::Unparsable("key must be a string".to_string()),
    )];
    let recovery = recover_interrupted_jobs_at("/data/jobs", &entries, "2026-01-01T00:00:00Z");

    assert_eq!(recovery.actions.len(), 1);
    assert!(matches!(
        &recovery.actions[0],
        RecoveryAction::RemoveDirectory { path } if path == "/data/jobs/job_invalid"
    ));
}

#[test]
fn recovery_stops_at_what_it_cannot_read() {
    let entries = vec![
        job_entry("a", JobFile::Missing("gone".to_string())),
        job_entry("b", JobFile::Unreadable("io".to_string())),
        job_entry("c", JobFile::Missing("gone".to_string())),
    ];
    let recovery = recover_interrupted_jobs_at("/data/jobs", &entries, "2026-01-01T00:00:00Z");
    assert_eq!(recovery.actions.len(), 1);
    assert_eq!(
        recovery.failure.expect("failure").message(),
        "failed to read job file /data/jobs/b/metadata.json: io"
    );
    let recovery = recover_interrupted_jobs_at(
        "/data/jobs",
        &vec![JobEntry::Unreadable("io".to_string())],
        "2026-01-01T00:00:00Z",
    );
    assert_eq!(
        recovery.failure.expect("failure").message(),
        "failed to read job file /data/jobs: io"
    );
}

fn two_jobs(first: Concurrency, second: Concurrency) -> ManifestStore {
    manifests(vec![
        optional_commit("job-a", first),
        optional_commit("job-b", second),
    ])
}

#[test]
fn tests_parallel_jobs_can_run_together() {
    let store = two_jobs(Concurrency::Parallel, Concurrency::Parallel);
    let mut jobs = JobStore::new("/data");
    create(&mut jobs, &store, "job-a", "a", r#"{"commit":"a"}"#).expect("first");
    create(&mut jobs, &store, "job-b", "b", r#"{"commit":"b"}"#).expect("second");
    assert_eq!(jobs.running_jobs().len(), 2);
}

#[test]
fn tests_job_exclusive_rejects_second_instance_while_running() {
    let store = manifests(vec![optional_commit("build-app", Concurrency::JobExclusive)]);
    let mut jobs = JobStore::new("/data");
    let first = started(
        create(&mut jobs, &store, "build-app", "a", r#"{"commit":"a"}"#).expect("first"),
    );
    let second = create(&mut jobs, &store, "build-app", "b", r#"{"commit":"b"}"#)
        .expect_err("second instance");
    assert_eq!(second.status_code(), 409);
    assert_eq!(
        second.message(),
        format!(
            "cannot start job build-app while another instance is running ({})",
            first.job_id
        )
    );
    jobs.remove_running(&first.job_id);
    create(&mut jobs, &store, "build-app", "b", r#"{"commit":"b"}"#).expect("first has ended");
}

#[test]
fn tests_global_exclusive_rejects_when_other_job_is_running() {
    let store = two_jobs(Concurrency::Parallel, Concurrency::GlobalExclusive);
    let mut jobs = JobStore::new("/data");
    create(&mut jobs, &store, "job-a", "a", r#"{"commit":"a"}"#).expect("first");
    let second =
        create(&mut jobs, &store, "job-b", "b", r#"{"commit":"b"}"#).expect_err("not alone");
    assert_eq!(second.status_code(), 409);
    assert_eq!(
        second.message(),
        "cannot start global_exclusive job while another job is running"
    );
}

#[test]
fn tests_parallel_job_rejects_while_global_exclusive_is_running() {
    let store = two_jobs(Concurrency::GlobalExclusive, Concurrency::Parallel);
    let mut jobs = JobStore::new("/data");
    create(&mut jobs, &store, "job-a", "a", r#"{"commit":"a"}"#).expect("first");
    let second =
        create(&mut jobs, &store, "job-b", "b", r#"{"commit":"b"}"#).expect_err("not alone");
    assert_eq!(second.status_code(), 409);
    assert_eq!(
        second.message(),
        "cannot start job while a global_exclusive job is running"
    );
}

#[test]
fn repeated_requests_find_their_run() {
    let store = manifests(vec![optional_commit("build-app", Concurrency::JobExclusive)]);
    let mut jobs = JobStore::new("/data");
    let body = r#"{"commit":"abc123"}"#;
    let mut metadata =
        metadata_of(create(&mut jobs, &store, "build-app", "key-1", body).expect("first"));
    assert_eq!(
        metadata.request_hash,
        "830e9dbbcb945ebbe0d1c67fab37e74834079eb4257f3d2b8f764c0a217f8604"
    );
    metadata.status = JobStatus::Success;
    let existing = ExistingJob::Present(JobFile::Parsed(metadata.clone()));
    match create_with(&mut jobs, &store, "build-app", "key-1", body, &existing).expect("again") {
        JobAdmission::Existing(response) => {
            assert_eq!(response.job_id, metadata.job_id);
            assert_eq!(response.status, JobStatus::Success);
            assert_eq!(created_status_code(&response), 200);
        }
        JobAdmission::Started { .. } => panic!("must not start twice"),
    }
    let changed = create_with(
        &mut jobs,
        &store,
        "build-app",
        "key-1",
        r#"{"commit":"def456"}"#,
        &existing,
    )
    .expect_err("another request");
    assert_eq!(changed.status_code(), 409);
    assert_eq!(
        changed.message(),
        "idempotency key key-1 does not match the original request"
    );
    let unreadable = ExistingJob::Present(JobFile::Missing("gone".to_string()));
    assert!(matches!(
        create_with(&mut jobs, &store, "build-app", "key-1", body, &unreadable),
        Err(JobError::ReadFile { .. })
    ));
    let unparsable = ExistingJob::Present(JobFile::Unparsable("eof".to_string()));
    assert!(matches!(
        create_with(&mut jobs, &store, "build-app", "key-1", body, &unparsable),
        Err(JobError::ParseMetadata { .. })
    ));
}

#[test]
fn requests_are_refused_before_they_start_anything() {
    let mut jobs = JobStore::new("/data");
    let store = build_app();
    for key in ["", "with space", "ä", &"x".repeat(129)] {
        assert!(matches!(
            create(&mut jobs, &store, "build-app", key, "{}"),
            Err(JobError::InvalidIdempotencyKey(_))
        ));
    }
    let unknown = create(&mut jobs, &store, "nope", &"x".repeat(128), "{}").expect_err("unknown");
    assert_eq!(unknown.status_code(), 404);
    assert_eq!(unknown.code(), "job_name_not_found");
    let config = JobsConfig {
        default_log_limit_mb: u64::MAX,
        ..CONFIG
    };
    let error = jobs
        .create_job_at(
            JobRequest {
                name: "build-app",
                idempotency_key: "k",
                body: b"{}",
                inputs: parse_run_inputs(br#"{"commit":"a","branch":"b"}"#).expect("object"),
            },
            &store,
            &artifacts(),
            &NameMap::new(),
            &ExistingJob::Absent,
            &config,
            &NOW,
        )
        .expect_err("limit cannot be counted");
    assert_eq!(
        error.message(),
        "invalid job log limit in mb: 18446744073709551615"
    );
    assert!(jobs.running_jobs().is_empty());
}

#[test]
fn jobs_are_created_by_the_clock_too() {
    let mut jobs = JobStore::new("/data");
    let admission = jobs
        .create_job(
            JobRequest {
                name: "build-app",
                idempotency_key: "k",
                body: b"{}",
                inputs: parse_run_inputs(br#"{"commit":"a","branch":"b"}"#).expect("object"),
            },
            &build_app(),
            &artifacts(),
            &NameMap::new(),
            &ExistingJob::Absent,
            &CONFIG,
        )
        .expect("job");
    assert_eq!(started(admission).metadata.started_at.len(), 20);
}

#[test]
fn run_requests_are_counted_and_measured() {
    let mut limiter = RateLimiter::new();
    let config = JobsConfig {
        max_run_requests_per_minute: 1,
        ..CONFIG
    };
    assert_eq!(
        admit_run_request(&mut limiter, "server", &config, 0).expect("first"),
        64 * 1024
    );
    let second = admit_run_request(&mut limiter, "server", &config, 1).expect_err("second");
    assert_eq!(second.status_code(), 429);
    assert_eq!(second.retry_after(), Some(60));
    assert_eq!(
        second.message(),
        "token server exceeded job run rate limit of 1 requests per 60 seconds"
    );
    assert!(admit_run_request(&mut limiter, "server", &config, 60_000_000_000).is_ok());
    let config = JobsConfig {
        max_request_body_kb: u64::MAX,
        ..CONFIG
    };
    let huge = admit_run_request(&mut limiter, "other", &config, 2).expect_err("huge");
    assert_eq!(
        huge.message(),
        "invalid job request body limit in kb: 18446744073709551615"
    );
}

#[test]
fn request_headers_and_bodies_are_read() {
    assert_eq!(
        idempotency_key_from_header(HeaderText::Text("k".to_string())).expect("key"),
        "k"
    );
    assert!(matches!(
        idempotency_key_from_header(HeaderText::Missing),
        Err(JobError::MissingIdempotencyKey)
    ));
    assert_eq!(
        idempotency_key_from_header(HeaderText::NotText("x".to_string()))
            .expect_err("binary")
            .message(),
        "invalid idempotency key: <invalid header>"
    );
    let array = parse_run_inputs(b"[1]").expect_err("array");
    assert_eq!(
        array.message(),
        "invalid job request body: expected a JSON object"
    );
    let broken = parse_run_inputs(b"{not-json").expect_err("broken");
    assert_eq!(broken.status_code(), 400);
    assert!(broken
        .message()
        .starts_with("failed to parse job request body as json: "));
    let response = JobErrorResponse::from_job_error(&array);
    assert_eq!(response.code, "job_invalid_body");
    assert_eq!(response.message, array.message());
    let inputs = parse_run_inputs(br#"{"b":1,"a":"x","c":{"z":1,"y":[true,null]}}"#).expect("object");
    assert_eq!(inputs.name_at(0), "a");
    assert_eq!(inputs.name_at(1), "b");
    assert_eq!(inputs.value_at(1).as_i64(), Some(1));
    assert_eq!(
        inputs.value_at(2).to_json_text(),
        r#"{"y":[true,null],"z":1}"#
    );
    let direct = inputs_from_document(Ok(Some(vec![(
        "only".to_string(),
        JsonValue::Bool(true),
    )])))
    .expect("object");
    assert!(direct.get("only").expect("only").is_boolean());
    assert!(matches!(
        inputs_from_document(Ok(None)),
        Err(JobError::InvalidBody(_))
    ));
    assert!(matches!(
        inputs_from_document(Err("bad".to_string())),
        Err(JobError::ParseRequestBody { .. })
    ));
}
