use janus::json::JsonValue;
use janus::names::NameMap;
use janus::schema::{
    Concurrency, InputType, JobDefinitionResponse, JobInputDefinitionResponse,
    JobOutputDefinitionResponse, OutputType,
};
use janus::schema_diff::{
    diff_job_schema, requiredness, workflow_bound_inputs, workflow_referenced_outputs,
    workflow_schema_report, WorkflowDefinition, WorkflowInputBinding, WorkflowJob,
    WorkflowSchemaDiff, WorkflowSchemaDiffKind, WorkflowSchemaStatus,
};

fn job(
    name: &str,
    inputs: Vec<(&str, InputType, bool)>,
    outputs: Vec<(&str, OutputType, bool)>,
) -> JobDefinitionResponse {
    let mut declared_inputs = NameMap::new();
    for (name, kind, required) in inputs {
        declared_inputs.insert(
            name.to_string(),
            JobInputDefinitionResponse {
                kind,
                required,
                sensitive: false,
                max_length: None,
                pattern: None,
                max_json_bytes: None,
            },
        );
    }
    let mut declared_outputs = NameMap::new();
    for (name, kind, required) in outputs {
        declared_outputs.insert(
            name.to_string(),
            JobOutputDefinitionResponse {
                kind,
                path: format!("{name}.out"),
                required,
            },
        );
    }
    JobDefinitionResponse {
        name: name.to_string(),
        concurrency: Concurrency::Parallel,
        timeout_seconds: 60,
        inputs: declared_inputs,
        outputs: declared_outputs,
    }
}

fn set(names: Vec<&str>) -> NameMap<()> {
    let mut set = NameMap::new();
    for name in names {
        set.insert(name.to_string(), ());
    }
    set
}

fn diff(
    saved: JobDefinitionResponse,
    current: JobDefinitionResponse,
    bound: Vec<&str>,
    referenced: Vec<&str>,
) -> Vec<WorkflowSchemaDiff> {
    diff_job_schema(0, "build", &saved, &current, &set(bound), &set(referenced))
}

#[test]
fn added_inputs_break_a_workflow_only_where_they_are_required() {
    let found = diff(
        job("build", vec![], vec![]),
        job(
            "build",
            vec![
                ("branch", InputType::String, false),
                ("commit", InputType::String, true),
            ],
            vec![],
        ),
        vec![],
        vec![],
    );
    assert_eq!(found.len(), 2);
    assert_eq!(found[0].kind, WorkflowSchemaDiffKind::InputAdded);
    assert_eq!(found[0].message, "job-1 input branch was added and is optional");
    assert_eq!(found[0].current.as_deref(), Some("optional"));
    assert!(!found[0].incompatible);
    assert!(!found[0].is_stale());
    assert_eq!(found[1].message, "job-1 input commit was added and is required");
    assert_eq!(found[1].field_name.as_deref(), Some("commit"));
    assert!(found[1].incompatible);
}

#[test]
fn removed_and_changed_inputs_are_judged_by_their_use() {
    let saved = || {
        job(
            "build",
            vec![
                ("gone", InputType::String, false),
                ("kept", InputType::String, false),
            ],
            vec![],
        )
    };
    let current = || job("build", vec![("kept", InputType::Integer, true)], vec![]);
    let found = diff(saved(), current(), vec![], vec![]);
    assert_eq!(found.len(), 3);
    assert_eq!(found[0].kind, WorkflowSchemaDiffKind::InputRemoved);
    assert_eq!(found[0].message, "job-1 input gone was removed");
    assert_eq!(found[0].saved.as_deref(), Some("string"));
    assert!(!found[0].incompatible);
    assert!(found[0].is_stale());
    assert_eq!(found[1].kind, WorkflowSchemaDiffKind::InputTypeChanged);
    assert_eq!(
        found[1].message,
        "job-1 input kept changed type from string to integer"
    );
    assert!(!found[1].incompatible);
    assert_eq!(found[2].kind, WorkflowSchemaDiffKind::InputRequirednessChanged);
    assert_eq!(
        found[2].message,
        "job-1 input kept changed requiredness from optional to required"
    );
    assert!(found[2].incompatible);
    let found = diff(saved(), current(), vec!["gone", "kept"], vec![]);
    assert!(found[0].incompatible);
    assert!(found[1].incompatible);
}

#[test]
fn outputs_are_judged_by_their_use() {
    let saved = || {
        job(
            "build",
            vec![],
            vec![
                ("app", OutputType::Artifact, true),
                ("log", OutputType::String, false),
                ("old", OutputType::Json, false),
            ],
        )
    };
    let current = || {
        job(
            "build",
            vec![],
            vec![
                ("app", OutputType::Artifact, false),
                ("log", OutputType::Integer, false),
                ("new", OutputType::Boolean, true),
            ],
        )
    };
    let found = diff(saved(), current(), vec![], vec!["old"]);
    let messages: Vec<&str> = found.iter().map(|item| item.message.as_str()).collect();
    assert_eq!(
        messages,
        vec![
            "job-1 output new was added",
            "job-1 output app changed requiredness from required to optional",
            "job-1 output log changed type from string to integer",
            "job-1 output old was removed",
        ]
    );
    let breaks: Vec<bool> = found.iter().map(|item| item.incompatible).collect();
    assert_eq!(breaks, vec![false, true, false, true]);
    assert_eq!(found[0].current.as_deref(), Some("boolean required"));
    assert_eq!(found[3].kind, WorkflowSchemaDiffKind::OutputRemoved);
    assert!(diff(saved(), saved(), vec!["x"], vec!["app", "log"]).is_empty());
}

fn workflow_job(name: &str, inputs: Vec<(&str, WorkflowInputBinding)>) -> WorkflowJob {
    let mut bindings = NameMap::new();
    for (name, binding) in inputs {
        bindings.insert(name.to_string(), binding);
    }
    WorkflowJob {
        runner_id: "runner-1".to_string(),
        runner_job_name: name.to_string(),
        inputs: bindings,
    }
}

fn workflow() -> WorkflowDefinition {
    WorkflowDefinition {
        jobs: vec![
            workflow_job(
                "build",
                vec![(
                    "commit",
                    WorkflowInputBinding::Value {
                        value: JsonValue::Text("abc".to_string()),
                    },
                )],
            ),
            workflow_job(
                "deploy",
                vec![(
                    "bundle",
                    WorkflowInputBinding::JobOutput {
                        job_index: 0,
                        output_name: "app".to_string(),
                    },
                )],
            ),
        ],
    }
}

fn build() -> JobDefinitionResponse {
    job(
        "build",
        vec![("commit", InputType::String, true)],
        vec![("app", OutputType::Artifact, false)],
    )
}

fn deploy() -> JobDefinitionResponse {
    job("deploy", vec![("bundle", InputType::Artifact, true)], vec![])
}

#[test]
fn workflows_say_what_they_bind_and_use() {
    assert!(workflow_bound_inputs(&workflow(), 0).contains_name("commit"));
    assert_eq!(workflow_bound_inputs(&workflow(), 0).len(), 1);
    assert!(workflow_bound_inputs(&workflow(), 2).is_empty());
    assert!(workflow_referenced_outputs(&workflow(), 0).contains_name("app"));
    assert!(workflow_referenced_outputs(&workflow(), 1).is_empty());
    assert_eq!(requiredness(true), "required");
    assert_eq!(requiredness(false), "optional");
}

#[test]
fn unchanged_workflows_are_current() {
    let report = workflow_schema_report(
        &workflow(),
        &vec![build(), deploy()],
        &vec![vec![build(), deploy()], vec![build(), deploy()]],
    );
    assert_eq!(report.status, WorkflowSchemaStatus::Current);
    assert!(report.diff.is_empty());
    assert_eq!(report.status.as_str(), "current");
    assert_eq!(report.status.tone(), "success");
}

#[test]
fn optional_additions_leave_a_workflow_current_and_other_changes_do_not() {
    let wider = job(
        "build",
        vec![
            ("commit", InputType::String, true),
            ("flags", InputType::String, false),
        ],
        vec![
            ("app", OutputType::Artifact, false),
            ("log", OutputType::String, false),
        ],
    );
    let report = workflow_schema_report(
        &workflow(),
        &vec![build(), deploy()],
        &vec![vec![wider], vec![deploy()]],
    );
    assert_eq!(report.status, WorkflowSchemaStatus::Current);
    assert_eq!(report.diff.len(), 2);

    let relaxed = job(
        "build",
        vec![("commit", InputType::String, false)],
        vec![("app", OutputType::Artifact, false)],
    );
    let report = workflow_schema_report(
        &workflow(),
        &vec![build(), deploy()],
        &vec![vec![relaxed], vec![deploy()]],
    );
    assert_eq!(report.status, WorkflowSchemaStatus::Stale);
    assert_eq!(report.status.as_str(), "stale");
    assert_eq!(report.status.tone(), "warning");

    let bare = job("build", vec![("commit", InputType::String, true)], vec![]);
    let report = workflow_schema_report(
        &workflow(),
        &vec![build(), deploy()],
        &vec![vec![bare], vec![deploy()]],
    );
    assert_eq!(report.status, WorkflowSchemaStatus::Incompatible);
    assert_eq!(report.status.as_str(), "incompatible");
    assert_eq!(report.status.tone(), "danger");
    assert_eq!(report.diff[0].message, "job-1 output app was removed");
}

#[test]
fn jobs_that_are_gone_break_a_workflow() {
    let report = workflow_schema_report(
        &workflow(),
        &vec![build()],
        &vec![vec![deploy()], vec![deploy()]],
    );
    assert_eq!(report.status, WorkflowSchemaStatus::Incompatible);
    let messages: Vec<&str> = report.diff.iter().map(|item| item.message.as_str()).collect();
    assert_eq!(
        messages,
        vec![
            "job-1 build is no longer advertised by its runner",
            "job-2 deploy is missing from the saved schema snapshot",
        ]
    );
    let report = workflow_schema_report(
        &WorkflowDefinition { jobs: vec![] },
        &vec![build()],
        &vec![],
    );
    assert_eq!(report.diff.len(), 1);
    assert_eq!(report.diff[0].kind, WorkflowSchemaDiffKind::JobRemoved);
    assert_eq!(
        report.diff[0].message,
        "job-1 build exists in the saved schema snapshot but not in the workflow definition"
    );
    assert!(report.diff[0].incompatible);
}
