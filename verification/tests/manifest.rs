use janus::manifest::{
    DirectoryEntry, DirectoryRead, InputSpec, JobManifest, ManifestError, ManifestRead,
    ManifestStore, OutputSpec, ScriptProbe,
};
use janus::names::NameMap;
use janus::schema::{Concurrency, InputType, OutputType};

fn input(kind: InputType, required: bool) -> InputSpec {
    InputSpec {
        kind,
        required,
        sensitive: false,
        max_length: None,
        pattern: None,
        max_json_bytes: None,
    }
}

fn manifest(
    name: &str,
    script: &str,
    concurrency: Concurrency,
    inputs: Vec<(&str, InputSpec)>,
    outputs: Vec<(&str, &str)>,
) -> JobManifest {
    let mut declared = NameMap::new();
    for (name, spec) in inputs {
        declared.insert(name.to_string(), spec);
    }
    let mut left = NameMap::new();
    for (name, path) in outputs {
        left.insert(
            name.to_string(),
            OutputSpec {
                kind: OutputType::Artifact,
                path: path.to_string(),
                required: true,
            },
        );
    }
    JobManifest {
        name: name.to_string(),
        script: script.to_string(),
        timeout_seconds: 600,
        concurrency,
        inputs: declared,
        outputs: left,
    }
}

fn read(manifest: JobManifest) -> ManifestRead {
    ManifestRead::Parsed {
        manifest,
        script: ScriptProbe::Found { executable: true },
    }
}

fn load(manifest: JobManifest) -> Result<JobManifest, ManifestError> {
    JobManifest::load_from_path("/etc/jobs/bad.toml", &read(manifest))
}

fn simple(name: &str, concurrency: Concurrency, input_name: &str) -> JobManifest {
    manifest(
        name,
        "/opt/build.sh",
        concurrency,
        vec![(input_name, input(InputType::String, true))],
        vec![("app", "app.tar.gz")],
    )
}

#[test]
fn parses_manifest_file() {
    let manifest = load(simple("build-app", Concurrency::JobExclusive, "commit"))
        .expect("manifest should load");

    assert_eq!(manifest.name, "build-app");
    assert_eq!(manifest.timeout_seconds, 600);
    assert_eq!(manifest.concurrency, Concurrency::JobExclusive);
    let commit = manifest.inputs.get("commit").expect("commit");
    assert_eq!(commit.kind, InputType::String);
    assert!(!commit.sensitive);
    assert!(manifest.outputs.get("app").expect("app").required);
}

#[test]
fn parses_sensitive_input_flag() {
    let mut token = input(InputType::String, true);
    token.sensitive = true;
    let manifest = load(manifest(
        "build-app",
        "/opt/build.sh",
        Concurrency::Parallel,
        vec![("token", token)],
        vec![],
    ))
    .expect("manifest should load");

    assert!(manifest.inputs.get("token").expect("token").sensitive);
}

#[test]
fn a_cloned_store_holds_the_same_manifests() {
    let directory = DirectoryRead::Entries(vec![DirectoryEntry::File {
        file_name: "a.toml".to_string(),
        path: "/etc/jobs/a.toml".to_string(),
        manifest: read(simple("build-app", Concurrency::Parallel, "commit")),
    }]);
    let store = ManifestStore::load_from_dir("/etc/jobs", &directory).expect("manifests");
    let copy = store.clone();
    assert_eq!(copy.len(), 1);
    assert_eq!(copy.get("build-app"), store.get("build-app"));
}

#[test]
fn rejects_duplicate_job_names() {
    let directory = DirectoryRead::Entries(vec![
        DirectoryEntry::File {
            file_name: "a.toml".to_string(),
            path: "/etc/jobs/a.toml".to_string(),
            manifest: read(simple("build-app", Concurrency::Parallel, "commit")),
        },
        DirectoryEntry::File {
            file_name: "b.toml".to_string(),
            path: "/etc/jobs/b.toml".to_string(),
            manifest: read(simple("build-app", Concurrency::JobExclusive, "branch")),
        },
    ]);

    let error = ManifestStore::load_from_dir("/etc/jobs", &directory)
        .expect_err("duplicate names must fail");

    assert!(matches!(error, ManifestError::DuplicateJobName { .. }));
    assert_eq!(
        error.message(),
        "duplicate job name build-app found in manifest /etc/jobs/b.toml"
    );
}

#[test]
fn rejects_invalid_job_name() {
    let error = load(simple("build/app", Concurrency::Parallel, "commit"))
        .expect_err("bad name must fail");

    assert!(matches!(error, ManifestError::InvalidJobName { .. }));
}

#[test]
fn rejects_invalid_input_name() {
    let error = load(simple("build-app", Concurrency::Parallel, "bad.input"))
        .expect_err("bad input must fail");

    assert!(matches!(error, ManifestError::InvalidInputName { .. }));
}

#[test]
fn rejects_reserved_input_name() {
    let error = load(simple("build-app", Concurrency::Parallel, "output_dir"))
        .expect_err("reserved input must fail");

    assert!(matches!(error, ManifestError::InvalidInputName { .. }));
    for reserved in ["id", "name", "workdir", "metadata_path"] {
        let error = load(simple("build-app", Concurrency::Parallel, reserved))
            .expect_err("reserved input must fail");
        assert_eq!(
            error.message(),
            format!("invalid input name {reserved} in manifest /etc/jobs/bad.toml")
        );
    }
}

#[test]
fn rejects_invalid_string_input_pattern() {
    let mut commit = input(InputType::String, true);
    commit.pattern = Some("[unterminated".to_string());
    let error = load(manifest(
        "build-app",
        "/opt/build.sh",
        Concurrency::Parallel,
        vec![("commit", commit)],
        vec![],
    ))
    .expect_err("invalid regex must fail");

    assert!(matches!(
        error,
        ManifestError::InvalidInputConstraint { .. }
    ));
    assert!(error
        .message()
        .starts_with("invalid input constraint for commit in manifest /etc/jobs/bad.toml: invalid regex pattern: "));
}

#[test]
fn rejects_string_constraints_on_non_string_input() {
    let mut count = input(InputType::Integer, true);
    count.max_length = Some(12);
    let error = load(manifest(
        "build-app",
        "/opt/build.sh",
        Concurrency::Parallel,
        vec![("count", count)],
        vec![],
    ))
    .expect_err("string constraint on integer must fail");

    assert!(matches!(
        error,
        ManifestError::InvalidInputConstraint { .. }
    ));
}

#[test]
fn rejects_json_constraints_on_non_json_input() {
    let mut commit = input(InputType::String, true);
    commit.max_json_bytes = Some(32);
    let error = load(manifest(
        "build-app",
        "/opt/build.sh",
        Concurrency::Parallel,
        vec![("commit", commit)],
        vec![],
    ))
    .expect_err("json constraint on string must fail");

    assert!(matches!(
        error,
        ManifestError::InvalidInputConstraint { .. }
    ));
}

#[test]
fn rejects_non_executable_script() {
    let error = JobManifest::load_from_path(
        "/etc/jobs/bad.toml",
        &ManifestRead::Parsed {
            manifest: simple("build-app", Concurrency::Parallel, "commit"),
            script: ScriptProbe::Found { executable: false },
        },
    )
    .expect_err("non-executable script fails");

    assert!(matches!(error, ManifestError::ScriptNotExecutable { .. }));
}

#[test]
fn rejects_relative_script_path() {
    let error = load(manifest(
        "build-app",
        "build.sh",
        Concurrency::Parallel,
        vec![("commit", input(InputType::String, true))],
        vec![],
    ))
    .expect_err("relative script path fails");

    assert!(matches!(error, ManifestError::ScriptNotAbsolute { .. }));
}

#[test]
fn rejects_output_path_traversal() {
    let error = load(manifest(
        "build-app",
        "/opt/build.sh",
        Concurrency::Parallel,
        vec![("commit", input(InputType::String, true))],
        vec![("app", "../escape.txt")],
    ))
    .expect_err("bad output path fails");

    assert!(matches!(error, ManifestError::InvalidOutputPath { .. }));
}

#[test]
fn constraints_have_to_be_positive_and_fit_the_type() {
    let reasons = |spec: InputSpec| match load(manifest(
        "build-app",
        "/opt/build.sh",
        Concurrency::Parallel,
        vec![("value", spec)],
        vec![],
    )) {
        Err(ManifestError::InvalidInputConstraint { reason, .. }) => reason,
        other => panic!("unexpected {other:?}"),
    };
    let mut spec = input(InputType::String, true);
    spec.max_length = Some(0);
    assert_eq!(reasons(spec), "max_length must be positive");
    let mut spec = input(InputType::Boolean, true);
    spec.max_length = Some(3);
    assert_eq!(
        reasons(spec),
        "max_length is only supported for string inputs"
    );
    let mut spec = input(InputType::Json, true);
    spec.pattern = Some("a".to_string());
    assert_eq!(reasons(spec), "pattern is only supported for string inputs");
    let mut spec = input(InputType::Json, true);
    spec.max_json_bytes = Some(0);
    assert_eq!(reasons(spec), "max_json_bytes must be positive");
    let mut spec = input(InputType::Artifact, true);
    spec.max_json_bytes = Some(1);
    assert_eq!(
        reasons(spec),
        "max_json_bytes is only supported for json inputs"
    );
}

#[test]
fn scripts_are_looked_at_on_disk() {
    let with = |script: ScriptProbe| {
        JobManifest::load_from_path(
            "/etc/jobs/a.toml",
            &ManifestRead::Parsed {
                manifest: simple("build-app", Concurrency::Parallel, "commit"),
                script,
            },
        )
        .expect_err("script must fail")
        .message()
    };
    assert_eq!(
        with(ScriptProbe::Missing),
        "script /opt/build.sh does not exist for manifest /etc/jobs/a.toml"
    );
    assert_eq!(
        with(ScriptProbe::Unreadable("denied".to_string())),
        "failed to read manifest /opt/build.sh: denied"
    );
    let mut slow = simple("build-app", Concurrency::Parallel, "commit");
    slow.timeout_seconds = 0;
    assert_eq!(
        load(slow).expect_err("no time").message(),
        "timeout_seconds must be positive in manifest /etc/jobs/bad.toml"
    );
}

#[test]
fn first_problem_in_order_is_reported() {
    let mut bad = simple("build-app", Concurrency::Parallel, "commit");
    bad.inputs
        .insert("2nd".to_string(), input(InputType::String, true));
    bad.inputs
        .insert("a.b".to_string(), input(InputType::String, true));
    let mut broken = input(InputType::String, true);
    broken.max_length = Some(0);
    bad.inputs.insert("aa".to_string(), broken);
    assert_eq!(
        load(bad).expect_err("bad").message(),
        "invalid input name 2nd in manifest /etc/jobs/bad.toml"
    );
    let mut outputs = manifest(
        "build-app",
        "/opt/build.sh",
        Concurrency::Parallel,
        vec![],
        vec![("ok", "/abs"), ("zz top", "fine")],
    );
    assert_eq!(
        load(outputs.clone()).expect_err("bad").message(),
        "invalid output name zz top in manifest /etc/jobs/bad.toml"
    );
    outputs.outputs.remove("zz top");
    assert_eq!(
        load(outputs).expect_err("bad").message(),
        "invalid output path /abs in manifest /etc/jobs/bad.toml"
    );
}

#[test]
fn directories_load_their_toml_files_in_name_order() {
    let file = |file_name: &str, manifest: ManifestRead| DirectoryEntry::File {
        file_name: file_name.to_string(),
        path: format!("/etc/jobs/{file_name}"),
        manifest,
    };
    let store = ManifestStore::load_from_dir(
        "/etc/jobs",
        &DirectoryRead::Entries(vec![
            file(
                "z.toml",
                read(simple("zeta", Concurrency::Parallel, "commit")),
            ),
            file("README.md", ManifestRead::Unreadable("skipped".to_string())),
            file(".toml", ManifestRead::Unreadable("skipped".to_string())),
            file(
                "a.toml",
                read(simple("alpha", Concurrency::Parallel, "commit")),
            ),
        ]),
    )
    .expect("directory should load");
    assert_eq!(store.len(), 2);
    let names: Vec<&str> = store.all().iter().map(|m| m.name.as_str()).collect();
    assert_eq!(names, vec!["alpha", "zeta"]);
    assert!(store.get("alpha").is_some());
    assert!(store.get("beta").is_none());
    assert!(!store.is_empty());

    let message = |directory: DirectoryRead| {
        ManifestStore::load_from_dir("/etc/jobs", &directory)
            .expect_err("directory must fail")
            .message()
    };
    assert_eq!(
        message(DirectoryRead::Unreadable("gone".to_string())),
        "failed to read manifests directory /etc/jobs: gone"
    );
    assert_eq!(
        message(DirectoryRead::NotDirectory),
        "manifests path is not a directory: /etc/jobs"
    );
    assert_eq!(
        message(DirectoryRead::Entries(vec![DirectoryEntry::Unreadable(
            "io".to_string()
        )])),
        "failed to read entry in manifests directory /etc/jobs: io"
    );
    assert_eq!(
        message(DirectoryRead::Entries(vec![file(
            "a.toml",
            ManifestRead::Unreadable("io".to_string())
        )])),
        "failed to read manifest /etc/jobs/a.toml: io"
    );
    assert_eq!(
        message(DirectoryRead::Entries(vec![file(
            "a.toml",
            ManifestRead::Unparsable("expected `=`".to_string())
        )])),
        "failed to parse manifest /etc/jobs/a.toml: expected `=`"
    );
}
