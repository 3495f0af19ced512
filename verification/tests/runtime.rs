use janus::config::{
    ArtifactsConfig, AuthConfig, AuthTokenConfig, Config, ConfigRead, JobsConfig, ServerConfig,
};
use janus::jobs::store::JobStore;
use janus::runtime::{
    cleanup_interval_seconds, config_path, health, RuntimeStatus, SHUTDOWN_DRAIN_TIMEOUT_SECONDS,
};

#[test]
fn health_reports_shutting_down_state() {
    let mut jobs = JobStore::new("/data");
    assert_eq!(health(jobs.is_shutting_down(), "127.0.0.1:0", 1).status, "ok");
    jobs.begin_shutdown();

    let payload = health(jobs.is_shutting_down(), "127.0.0.1:0", 1);
    assert_eq!(payload.status, "shutting_down");
    assert_eq!(payload.listen, "127.0.0.1:0");
    assert_eq!(payload.manifest_count, 1);
}

#[test]
fn readiness_reports_ready_after_startup_validation() {
    let mut status = RuntimeStatus::new(0, 0);
    status.record_artifact_cleanup_success();

    let (code, payload) = status.readiness(false, "127.0.0.1:0", 1);
    assert_eq!(code, 200);
    assert_eq!(payload.status, "ready");
    assert_eq!(payload.startup.completed, true);
    assert_eq!(payload.background_tasks.len(), 1);
    assert_eq!(payload.background_tasks[0].name, "artifact_cleanup");
    assert_eq!(payload.background_tasks[0].running, true);
    assert!(payload.background_tasks[0].last_success_at.is_some());
    assert!(payload.background_tasks[0].last_error.is_none());
}

#[test]
fn readiness_reports_background_task_failure() {
    let mut status = RuntimeStatus::new(0, 0);
    status.record_artifact_cleanup_error("disk unavailable");

    let (code, payload) = status.readiness(false, "127.0.0.1:0", 1);
    assert_eq!(code, 503);
    assert_eq!(payload.status, "not_ready");
    assert_eq!(
        payload.background_tasks[0].last_error.as_deref(),
        Some("disk unavailable")
    );
}

#[test]
fn readiness_reports_not_ready_while_shutting_down() {
    let mut status = RuntimeStatus::new(0, 0);
    status.record_artifact_cleanup_success();
    let mut jobs = JobStore::new("/data");
    jobs.begin_shutdown();

    let (code, payload) = status.readiness(jobs.is_shutting_down(), "127.0.0.1:0", 1);
    assert_eq!(code, 503);
    assert_eq!(payload.status, "not_ready");
}

#[test]
fn a_cleanup_that_succeeds_restores_readiness() {
    let mut status = RuntimeStatus::new(2, 3);
    assert_eq!(status.startup.recovered_artifacts, 2);
    assert_eq!(status.startup.recovered_jobs, 3);
    status.record_artifact_cleanup_error("disk unavailable");
    assert!(!status.is_ready());
    status.record_artifact_cleanup_success_at("2026-01-01T00:00:00Z".to_string());
    assert!(status.is_ready());
    assert_eq!(
        status.artifact_cleanup_status().last_success_at.as_deref(),
        Some("2026-01-01T00:00:00Z")
    );
    status.mark_artifact_cleanup_stopped();
    assert!(!status.is_ready());
    assert!(!status.artifact_cleanup_status().running);
}

#[test]
fn the_configuration_is_found() {
    let some = |path: &str| Some(path.to_string());
    assert_eq!(config_path(some("a.toml"), some("b.toml")), "a.toml");
    assert_eq!(config_path(None, some("b.toml")), "b.toml");
    assert_eq!(config_path(None, None), "runner.toml");
    assert_eq!(cleanup_interval_seconds(0), 1);
    assert_eq!(cleanup_interval_seconds(600), 600);
    assert_eq!(SHUTDOWN_DRAIN_TIMEOUT_SECONDS, 10);
}

const RAW_CONFIG: &str = r#"
data_dir = "/var/lib/strait-runner"
manifests_dir = "/etc/strait-runner/jobs"

[server]
listen = "127.0.0.1:8080"

[auth]
mode = "bearer"

[[auth.tokens]]
name = "git-orchestrator"
token_env = "STRAIT_RUNNER_TOKEN_GIT"
permissions = ["artifacts:write", "jobs:run"]

[artifacts]
max_size_mb = 500
ttl_seconds = 86400
cleanup_interval_seconds = 600
require_checksum_on_upload = true

[jobs]
default_log_limit_mb = 50
cleanup_successful_workdirs = true
keep_failed_workdirs = true
"#;

fn text(value: &toml::Value) -> String {
    value.as_str().expect("text").to_string()
}

fn number(value: &toml::Value) -> u64 {
    value.as_integer().expect("number") as u64
}

fn flag(value: &toml::Value) -> bool {
    value.as_bool().expect("flag")
}

fn config_from(raw: &toml::Table) -> Config {
    let tokens = raw["auth"]["tokens"].as_array().expect("tokens");
    Config {
        data_dir: text(&raw["data_dir"]),
        manifests_dir: text(&raw["manifests_dir"]),
        server: ServerConfig {
            listen: text(&raw["server"]["listen"]),
        },
        auth: AuthConfig {
            mode: text(&raw["auth"]["mode"]),
            tokens: tokens
                .iter()
                .map(|token| AuthTokenConfig {
                    name: text(&token["name"]),
                    token_env: text(&token["token_env"]),
                    permissions: token["permissions"]
                        .as_array()
                        .expect("permissions")
                        .iter()
                        .map(text)
                        .collect(),
                })
                .collect(),
            servers: vec![],
        },
        artifacts: ArtifactsConfig {
            max_size_mb: number(&raw["artifacts"]["max_size_mb"]),
            ttl_seconds: number(&raw["artifacts"]["ttl_seconds"]),
            cleanup_interval_seconds: number(&raw["artifacts"]["cleanup_interval_seconds"]),
            require_checksum_on_upload: flag(&raw["artifacts"]["require_checksum_on_upload"]),
            max_upload_requests_per_minute: 60,
        },
        jobs: JobsConfig {
            default_log_limit_mb: number(&raw["jobs"]["default_log_limit_mb"]),
            cleanup_successful_workdirs: flag(&raw["jobs"]["cleanup_successful_workdirs"]),
            keep_failed_workdirs: flag(&raw["jobs"]["keep_failed_workdirs"]),
            max_request_body_kb: 64,
            max_run_requests_per_minute: 60,
        },
    }
}

#[test]
fn parses_runner_config() {
    let raw: toml::Table = toml::from_str(RAW_CONFIG).expect("config should parse");
    let parsed = Config::load_from_path("runner.toml", ConfigRead::Parsed(config_from(&raw)))
        .expect("config should load");

    assert_eq!(parsed.data_dir, "/var/lib/strait-runner");
    assert_eq!(parsed.server.listen, "127.0.0.1:8080");
    assert_eq!(parsed.auth.tokens.len(), 1);
    assert!(parsed.artifacts.require_checksum_on_upload);
    assert!(parsed.jobs.keep_failed_workdirs);
}

#[test]
fn configurations_that_cannot_be_read_are_errors() {
    let unreadable =
        Config::load_from_path("/etc/runner.toml", ConfigRead::Unreadable("denied".to_string()))
            .expect_err("unreadable");
    assert_eq!(
        unreadable.message(),
        "failed to read config at /etc/runner.toml: denied"
    );
    let unparsable =
        Config::load_from_path("/etc/runner.toml", ConfigRead::Unparsable("eof".to_string()))
            .expect_err("unparsable");
    assert_eq!(
        unparsable.message(),
        "failed to parse config at /etc/runner.toml: eof"
    );
}
