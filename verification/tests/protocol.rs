use janus::capabilities::{
    RunnerCapabilitiesResponse, RUNNER_PROTOCOL_VERSION, SUPPORTED_RUNNER_PROTOCOL_VERSIONS,
};
use janus::job::{FailureCategory, JobStatus, TerminalReason};
use janus::protocol::{RunnerRoute, RunnerRouteTemplate, HEADER_IDEMPOTENCY_KEY, HEADER_SHA256};
use janus::schema::{Concurrency, InputType, JobDefinitionResponse, OutputType};

#[test]
fn runner_paths_match_route_templates() {
    assert_eq!(RunnerRoute::Capabilities.path(), "/capabilities");
    assert_eq!(RunnerRoute::Jobs.path(), "/jobs");
    assert_eq!(RunnerRoute::Artifacts.path(), "/artifacts");
    assert_eq!(
        RunnerRoute::JobRuns {
            job_name: "build-app"
        }
        .path(),
        "/jobs/build-app/runs"
    );
    assert_eq!(
        RunnerRoute::Run { job_id: "job_123" }.path(),
        "/runs/job_123"
    );
    assert_eq!(
        RunnerRoute::RunLogs { job_id: "job_123" }.path(),
        "/runs/job_123/logs"
    );
    assert_eq!(
        RunnerRoute::Artifact {
            artifact_id: "art_123"
        }
        .path(),
        "/artifacts/art_123"
    );
}

#[test]
fn runner_route_templates_match_axum_paths() {
    assert_eq!(RunnerRouteTemplate::Capabilities.path(), "/capabilities");
    assert_eq!(RunnerRouteTemplate::Jobs.path(), "/jobs");
    assert_eq!(RunnerRouteTemplate::Artifacts.path(), "/artifacts");
    assert_eq!(
        RunnerRouteTemplate::Artifact.path(),
        "/artifacts/{artifact_id}"
    );
    assert_eq!(RunnerRouteTemplate::JobRuns.path(), "/jobs/{name}/runs");
    assert_eq!(RunnerRouteTemplate::Run.path(), "/runs/{job_id}");
    assert_eq!(RunnerRouteTemplate::RunLogs.path(), "/runs/{job_id}/logs");
    assert_eq!(
        RunnerRoute::RunLogs { job_id: "job_123" }.template(),
        RunnerRouteTemplate::RunLogs
    );
}

#[test]
fn current_capabilities_advertise_supported_protocol_version() {
    let capabilities = RunnerCapabilitiesResponse::current();

    assert_eq!(capabilities.protocol_version, RUNNER_PROTOCOL_VERSION);
    assert!(
        capabilities.is_compatible_with_supported_versions(&SUPPORTED_RUNNER_PROTOCOL_VERSIONS)
    );
    assert!(!capabilities.is_compatible_with_supported_versions(&[999]));
}

#[test]
fn serializes_job_protocol_enum_values_as_snake_case() {
    assert_eq!(JobStatus::CancelRequested.as_str(), "cancel_requested");
    assert_eq!(
        TerminalReason::MissingRequiredOutput.as_str(),
        "missing_required_output"
    );
    assert_eq!(FailureCategory::Infra.as_str(), "infra");
}

#[test]
fn serializes_schema_protocol_enum_values_as_snake_case() {
    assert_eq!(InputType::Artifact.as_str(), "artifact");
    assert_eq!(OutputType::Json.as_str(), "json");
}

#[test]
fn job_definition_defaults_collections() {
    let value = JobDefinitionResponse {
        name: "build".to_string(),
        concurrency: Concurrency::Parallel,
        timeout_seconds: 60,
        ..JobDefinitionResponse::default()
    };

    assert!(value.inputs.is_empty());
    assert!(value.outputs.is_empty());
}

#[test]
fn capabilities_reports_runner_protocol_versions() {
    assert_eq!(RunnerRoute::Capabilities.path(), "/capabilities");
    let payload = RunnerCapabilitiesResponse::current();
    assert_eq!(payload.protocol_version, RUNNER_PROTOCOL_VERSION);
    assert!(payload
        .supported_protocol_versions
        .contains(&RUNNER_PROTOCOL_VERSION));
}

#[test]
fn job_status_terminal_helper_matches_runner_contract() {
    assert!(!JobStatus::Running.is_terminal());
    assert!(!JobStatus::Canceling.is_terminal());
    assert!(JobStatus::Success.is_terminal());
    assert!(JobStatus::Failed.is_terminal());
    assert!(JobStatus::TimedOut.is_terminal());
    assert!(JobStatus::Canceled.is_terminal());
    assert!(JobStatus::Rejected.is_terminal());
}

#[test]
fn protocol_enums_read_back_what_they_write() {
    for status in [
        JobStatus::Running,
        JobStatus::CancelRequested,
        JobStatus::Canceling,
        JobStatus::Success,
        JobStatus::Failed,
        JobStatus::TimedOut,
        JobStatus::Canceled,
        JobStatus::Rejected,
    ] {
        assert_eq!(JobStatus::parse(status.as_str()), Some(status));
    }
    assert_eq!(JobStatus::parse("Running"), None);
    assert_eq!(InputType::parse("json"), Some(InputType::Json));
    assert_eq!(InputType::parse("float"), None);
    assert_eq!(OutputType::parse("artifact"), Some(OutputType::Artifact));
    assert_eq!(OutputType::parse(""), None);
    assert_eq!(
        Concurrency::parse("global_exclusive"),
        Some(Concurrency::GlobalExclusive)
    );
    assert_eq!(Concurrency::parse("exclusive"), None);
    assert_eq!(
        TerminalReason::MissingRequiredOutput.as_str(),
        "missing_required_output"
    );
    assert_eq!(FailureCategory::Infra.as_str(), "infra");
}

#[test]
fn versions_must_overlap_to_be_compatible() {
    let capabilities = RunnerCapabilitiesResponse {
        protocol_version: 3,
        supported_protocol_versions: vec![2, 3],
    };
    assert!(capabilities.is_compatible_with_supported_versions(&[1, 3]));
    assert!(!capabilities.is_compatible_with_supported_versions(&[1]));
    assert!(!capabilities.is_compatible_with_supported_versions(&[]));
}

#[test]
fn defaults_are_empty() {
    let definition = JobDefinitionResponse::default();
    assert_eq!(definition.name, "");
    assert_eq!(definition.concurrency, Concurrency::Parallel);
    assert_eq!(definition.timeout_seconds, 0);
    assert!(definition.inputs.is_empty());
    assert!(definition.outputs.is_empty());
    assert_eq!(HEADER_IDEMPOTENCY_KEY, "x-idempotency-key");
    assert_eq!(HEADER_SHA256, "x-sha256");
}
