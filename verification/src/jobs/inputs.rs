//! Holding a request's inputs to what the job's manifest declares.
use vstd::prelude::*;

use crate::artifacts::store::{ArtifactStore, MetadataFile};
use crate::jobs::error::{JobError, JobErrorView};
use crate::jobs::models;
use crate::json;
use crate::json::{JsonValue, JsonView};
use crate::manifest::spec::{InputSpec, JobManifest, ManifestView};
use crate::manifest::spec;
use crate::names;
use crate::names::NameMap;
use crate::paths;
use crate::pattern;
use crate::schema::InputType;
use crate::search;
use crate::text;
use crate::time::UtcInstant;

verus! {

/// What stands in a job run's metadata for the value of a sensitive input.
pub const REDACTED_INPUT_VALUE: &'static str = "[REDACTED]";

/// What an artifact's metadata file was found to hold; nothing where it was
/// not looked at.
pub open spec fn artifact_file(
    files: Seq<(Seq<char>, MetadataFile)>,
    artifact_id: Seq<char>,
) -> MetadataFile {
    match names::lookup(files, artifact_id) {
        Some(file) => file,
        None => MetadataFile::Missing,
    }
}

/// What an artifact input stands for at `now`: the path of the artifact's bytes.
pub open spec fn artifact_input(
    name: Seq<char>,
    artifact_id: Seq<char>,
    artifacts: ArtifactStore,
    file: MetadataFile,
    now: UtcInstant,
) -> Result<Option<Seq<char>>, JobErrorView> {
    match artifacts.found_metadata(artifact_id, file) {
        Err(problem) => Err(JobErrorView::Artifact(problem)),
        Ok(metadata) => match metadata@.expired(now) {
            Err(problem) => Err(JobErrorView::Artifact(problem)),
            Ok(true) => Err(JobErrorView::ExpiredArtifact { name, artifact_id }),
            Ok(false) => Ok(Some(paths::joined(artifacts.directory(artifact_id), "blob"@))),
        },
    }
}

/// What a string input has to meet.
pub open spec fn string_problem(name: Seq<char>, spec: InputSpec, value: Seq<char>) -> Option<
    JobErrorView,
> {
    if spec.max_length matches Some(max_length) && value.len() > max_length {
        Some(
            JobErrorView::InvalidInputValue {
                name,
                reason: "must be at most "@ + text::decimal(spec.max_length->0 as nat)
                    + " characters"@,
            },
        )
    } else if spec.pattern matches Some(p) && !pattern::pattern_found(p@, value) {
        Some(
            JobErrorView::InvalidInputValue {
                name,
                reason: "must match pattern "@ + spec.pattern->0@,
            },
        )
    } else {
        None
    }
}

/// What becomes of one input: the path that it stands for, if it is an
/// artifact, or the reason why it is refused.
pub open spec fn checked_input(
    name: Seq<char>,
    spec: InputSpec,
    value: JsonView,
    artifacts: ArtifactStore,
    files: Seq<(Seq<char>, MetadataFile)>,
    now: UtcInstant,
) -> Result<Option<Seq<char>>, JobErrorView> {
    match spec.kind {
        InputType::String => match value {
            JsonView::Text(t) => match string_problem(name, spec, t) {
                Some(problem) => Err(problem),
                None => Ok(None),
            },
            _ => Err(JobErrorView::InvalidInputType { name, expected: "string"@ }),
        },
        InputType::Integer => match value {
            JsonView::Number { integer: Some(_), .. } => Ok(None),
            _ => Err(JobErrorView::InvalidInputType { name, expected: "integer"@ }),
        },
        InputType::Boolean => match value {
            JsonView::Bool(_) => Ok(None),
            _ => Err(JobErrorView::InvalidInputType { name, expected: "boolean"@ }),
        },
        InputType::Artifact => match value {
            JsonView::Text(artifact_id) => artifact_input(
                name,
                artifact_id,
                artifacts,
                artifact_file(files, artifact_id),
                now,
            ),
            _ => Err(JobErrorView::InvalidInputType { name, expected: "artifact id string"@ }),
        },
        InputType::Json => if value is Null {
            Err(JobErrorView::InvalidInputType { name, expected: "json"@ })
        } else if spec.max_json_bytes matches Some(limit) && vstd::utf8::encode_utf8(
            value.compact(),
        ).len() > limit {
            Err(
                JobErrorView::InvalidInputValue {
                    name,
                    reason: "must be at most "@ + text::decimal(spec.max_json_bytes->0 as nat)
                        + " JSON bytes"@,
                },
            )
        } else {
            Ok(None)
        },
    }
}

/// A declared input is required but was not given.
pub open spec fn missing_input_check(inputs: Seq<(Seq<char>, JsonValue)>) -> spec_fn(
    (Seq<char>, InputSpec),
) -> Option<JobErrorView> {
    |declared: (Seq<char>, InputSpec)|
        if declared.1.required && !names::has_name(inputs, declared.0) {
            Some(JobErrorView::MissingInput(declared.0))
        } else {
            None
        }
}

/// A given input was not declared.
pub open spec fn unknown_input_check(declared: Seq<(Seq<char>, InputSpec)>) -> spec_fn(
    (Seq<char>, JsonValue),
) -> Option<JobErrorView> {
    |given: (Seq<char>, JsonValue)|
        if !names::has_name(declared, given.0) {
            Some(JobErrorView::UnknownInput(given.0))
        } else {
            None
        }
}

/// What becomes of a given input that was declared.
pub open spec fn given_input(
    declared: Seq<(Seq<char>, InputSpec)>,
    given: (Seq<char>, JsonValue),
    artifacts: ArtifactStore,
    files: Seq<(Seq<char>, MetadataFile)>,
    now: UtcInstant,
) -> Result<Option<Seq<char>>, JobErrorView> {
    match names::lookup(declared, given.0) {
        Some(spec) => checked_input(given.0, spec, given.1@, artifacts, files, now),
        None => Ok(None),
    }
}

/// Why a given input is refused.
pub open spec fn given_input_check(
    declared: Seq<(Seq<char>, InputSpec)>,
    artifacts: ArtifactStore,
    files: Seq<(Seq<char>, MetadataFile)>,
    now: UtcInstant,
) -> spec_fn((Seq<char>, JsonValue)) -> Option<JobErrorView> {
    |given: (Seq<char>, JsonValue)|
        match given_input(declared, given, artifacts, files, now) {
            Err(problem) => Some(problem),
            Ok(_) => None,
        }
}

/// The paths of the artifact inputs, under the inputs' names.
pub open spec fn resolved_inputs(
    declared: Seq<(Seq<char>, InputSpec)>,
    given: Seq<(Seq<char>, JsonValue)>,
    artifacts: ArtifactStore,
    files: Seq<(Seq<char>, MetadataFile)>,
    now: UtcInstant,
) -> Seq<(Seq<char>, Seq<char>)>
    decreases given.len(),
{
    if given.len() == 0 {
        Seq::empty()
    } else {
        let before = resolved_inputs(declared, given.drop_last(), artifacts, files, now);
        match given_input(declared, given.last(), artifacts, files, now) {
            Ok(Some(path)) => before.push((given.last().0, path)),
            _ => before,
        }
    }
}

/// What becomes of a request's inputs: of all that is wrong with them the
/// first, going through missing inputs, unknown inputs and refused inputs, each
/// in name order; else the paths of the artifact inputs.
pub open spec fn validated_inputs(
    manifest: ManifestView,
    inputs: Seq<(Seq<char>, JsonValue)>,
    artifacts: ArtifactStore,
    files: Seq<(Seq<char>, MetadataFile)>,
    now: UtcInstant,
) -> Result<Seq<(Seq<char>, Seq<char>)>, JobErrorView> {
    let missing = search::first_failure(manifest.inputs, missing_input_check(inputs));
    let unknown = search::first_failure(inputs, unknown_input_check(manifest.inputs));
    let refused = search::first_failure(
        inputs,
        given_input_check(manifest.inputs, artifacts, files, now),
    );
    if missing is Some {
        Err(missing->0)
    } else if unknown is Some {
        Err(unknown->0)
    } else if refused is Some {
        Err(refused->0)
    } else {
        Ok(resolved_inputs(manifest.inputs, inputs, artifacts, files, now))
    }
}

fn check_string(name: &str, spec: &InputSpec, value: &str) -> (r: Result<(), JobError>)
    requires
        spec::constraint_reason(*spec) is None,
    ensures
        match r {
            Ok(()) => string_problem(name@, *spec, value@) is None,
            Err(e) => string_problem(name@, *spec, value@) == Some(e@),
        },
{
    if let Some(max_length) = spec.max_length {
        if value.unicode_len() > max_length {
            let mut reason = "must be at most ".to_owned();
            reason.append(text::decimal_text(max_length as u64).as_str());
            reason.append(" characters");
            return Err(JobError::InvalidInputValue { name: name.to_owned(), reason });
        }
    }
    if let Some(pattern) = &spec.pattern {
        if !pattern::find_pattern(pattern.as_str(), value) {
            let mut reason = "must match pattern ".to_owned();
            reason.append(pattern.as_str());
            return Err(JobError::InvalidInputValue { name: name.to_owned(), reason });
        }
    }
    Ok(())
}

fn check_artifact(
    name: &str,
    artifact_id: &str,
    artifacts: &ArtifactStore,
    files: &NameMap<MetadataFile>,
    now: &UtcInstant,
) -> (r: Result<String, JobError>)
    ensures
        ({
            let expected = artifact_input(
                name@,
                artifact_id@,
                *artifacts,
                artifact_file(files@, artifact_id@),
                *now,
            );
            match r {
                Ok(path) => expected == Ok::<_, JobErrorView>(Some(path@)),
                Err(e) => expected == Err::<Option<Seq<char>>, _>(e@),
            }
        }),
{
    let missing = MetadataFile::Missing;
    let file = match files.get(artifact_id) {
        Some(file) => file,
        None => &missing,
    };
    let metadata = match artifacts.load_metadata(artifact_id, file) {
        Ok(metadata) => metadata,
        Err(e) => {
            return Err(JobError::Artifact(e));
        },
    };
    match metadata.is_expired_at(now) {
        Err(e) => Err(JobError::Artifact(e)),
        Ok(true) => Err(
            JobError::ExpiredArtifact {
                name: name.to_owned(),
                artifact_id: artifact_id.to_owned(),
            },
        ),
        Ok(false) => Ok(artifacts.artifact_blob_path(artifact_id)),
    }
}

/// An optional path by its characters.
pub open spec fn path_view(path: Option<String>) -> Option<Seq<char>> {
    match path {
        Some(p) => Some(p@),
        None => None,
    }
}

/// Checks one input of a declared kind.
pub fn check_input(
    name: &str,
    spec: &InputSpec,
    value: &JsonValue,
    artifacts: &ArtifactStore,
    files: &NameMap<MetadataFile>,
    now: &UtcInstant,
) -> (r: Result<Option<String>, JobError>)
    requires
        spec::constraint_reason(*spec) is None,
    ensures
        ({
            let expected = checked_input(name@, *spec, value@, *artifacts, files@, *now);
            match r {
                Ok(path) => expected == Ok::<_, JobErrorView>(path_view(path)),
                Err(e) => expected == Err::<Option<Seq<char>>, _>(e@),
            }
        }),
{
    match spec.kind {
        InputType::String => {
            let Some(string_value) = value.as_str() else {
                return Err(
                    JobError::InvalidInputType { name: name.to_owned(), expected: "string" },
                );
            };
            match check_string(name, spec, string_value) {
                Ok(()) => Ok(None),
                Err(e) => Err(e),
            }
        },
        InputType::Integer => {
            if value.as_i64().is_none() {
                return Err(
                    JobError::InvalidInputType { name: name.to_owned(), expected: "integer" },
                );
            }
            Ok(None)
        },
        InputType::Boolean => {
            if !value.is_boolean() {
                return Err(
                    JobError::InvalidInputType { name: name.to_owned(), expected: "boolean" },
                );
            }
            Ok(None)
        },
        InputType::Artifact => {
            let Some(artifact_id) = value.as_str() else {
                return Err(
                    JobError::InvalidInputType {
                        name: name.to_owned(),
                        expected: "artifact id string",
                    },
                );
            };
            match check_artifact(name, artifact_id, artifacts, files, now) {
                Ok(path) => Ok(Some(path)),
                Err(e) => Err(e),
            }
        },
        InputType::Json => {
            if value.is_null() {
                return Err(JobError::InvalidInputType { name: name.to_owned(), expected: "json" });
            }
            if let Some(max_json_bytes) = spec.max_json_bytes {
                let compact = value.to_json_text();
                if compact.as_str().as_bytes().len() > max_json_bytes {
                    let mut reason = "must be at most ".to_owned();
                    reason.append(text::decimal_text(max_json_bytes as u64).as_str());
                    reason.append(" JSON bytes");
                    return Err(JobError::InvalidInputValue { name: name.to_owned(), reason });
                }
            }
            Ok(None)
        },
    }
}

fn check_names(manifest: &JobManifest, inputs: &NameMap<JsonValue>) -> (r: Result<(), JobError>)
    ensures
        ({
            let missing = search::first_failure(manifest.inputs@, missing_input_check(inputs@));
            let unknown = search::first_failure(inputs@, unknown_input_check(manifest.inputs@));
            match r {
                Ok(()) => missing is None && unknown is None,
                Err(e) => (if missing is Some {
                    missing
                } else {
                    unknown
                }) == Some(e@),
            }
        }),
{
    let declared = manifest.inputs.len();
    let ghost missing = missing_input_check(inputs@);
    let mut i: usize = 0;
    while i < declared
        invariant
            i <= declared,
            declared == manifest.inputs@.len(),
            missing == missing_input_check(inputs@),
            forall|j: int| 0 <= j < i ==> missing(#[trigger] manifest.inputs@[j]) is None,
        decreases declared - i,
    {
        let name = manifest.inputs.name_at(i);
        if manifest.inputs.value_at(i).required && !inputs.contains_name(name.as_str()) {
            proof {
                search::first_failure_at(manifest.inputs@, missing, i as int);
            }
            return Err(JobError::MissingInput(name.clone()));
        }
        i += 1;
    }
    proof {
        search::nothing_fails(manifest.inputs@, missing);
    }
    let given = inputs.len();
    let ghost unknown = unknown_input_check(manifest.inputs@);
    i = 0;
    while i < given
        invariant
            i <= given,
            given == inputs@.len(),
            unknown == unknown_input_check(manifest.inputs@),
            search::first_failure(manifest.inputs@, missing_input_check(inputs@)) is None,
            forall|j: int| 0 <= j < i ==> unknown(#[trigger] inputs@[j]) is None,
        decreases given - i,
    {
        let name = inputs.name_at(i);
        if !manifest.inputs.contains_name(name.as_str()) {
            proof {
                search::first_failure_at(inputs@, unknown, i as int);
            }
            return Err(JobError::UnknownInput(name.clone()));
        }
        i += 1;
    }
    proof {
        search::nothing_fails(inputs@, unknown);
    }
    Ok(())
}

/// Every declared input's constraints fit its type and can be checked.
pub open spec fn checkable(declared: Seq<(Seq<char>, InputSpec)>) -> bool {
    forall|i: int|
        0 <= i < declared.len() ==> spec::constraint_reason((#[trigger] declared[i]).1) is None
}

/// Holds a request's inputs to the manifest, at `now`. `files` holds what the
/// metadata files of the artifacts that the inputs name were found to hold.
pub fn validate_inputs(
    manifest: &JobManifest,
    inputs: &NameMap<JsonValue>,
    artifacts: &ArtifactStore,
    files: &NameMap<MetadataFile>,
    now: &UtcInstant,
) -> (r: Result<NameMap<String>, JobError>)
    requires
        checkable(manifest.inputs@),
    ensures
        ({
            let expected = validated_inputs(manifest@, inputs@, *artifacts, files@, *now);
            match r {
                Ok(resolved) => expected matches Ok(paths) && paths == names::with_values(
                    resolved@,
                    models::text_model(),
                ),
                Err(e) => expected matches Err(problem) && problem == e@,
            }
        }),
{
    if let Err(e) = check_names(manifest, inputs) {
        return Err(e);
    }
    let ghost refused = given_input_check(manifest.inputs@, *artifacts, files@, *now);
    proof {
        search::nothing_fails(inputs@, unknown_input_check(manifest.inputs@));
    }
    let mut resolved: NameMap<String> = NameMap::new();
    let given = inputs.len();
    assert(inputs@.take(0) =~= Seq::empty());
    assert(names::with_values(resolved@, models::text_model()) =~= Seq::empty());
    let mut i: usize = 0;
    while i < given
        invariant
            i <= given,
            given == inputs@.len(),
            checkable(manifest.inputs@),
            names::names_sorted(inputs@),
            search::first_failure(manifest.inputs@, missing_input_check(inputs@)) is None,
            search::first_failure(inputs@, unknown_input_check(manifest.inputs@)) is None,
            forall|j: int|
                0 <= j < given ==> unknown_input_check(manifest.inputs@)(#[trigger] inputs@[j]) is None,
            refused == given_input_check(manifest.inputs@, *artifacts, files@, *now),
            forall|j: int| 0 <= j < i ==> refused(#[trigger] inputs@[j]) is None,
            resolved@.len() <= i,
            forall|j: int|
                0 <= j < resolved@.len() ==> exists|k: int|
                    0 <= k < i && (#[trigger] resolved@[j]).0 == (#[trigger] inputs@[k]).0,
            names::with_values(resolved@, models::text_model()) == resolved_inputs(
                manifest.inputs@,
                inputs@.take(i as int),
                *artifacts,
                files@,
                *now,
            ),
        decreases given - i,
    {
        let name = inputs.name_at(i);
        assert(unknown_input_check(manifest.inputs@)(inputs@[i as int]) is None);
        let found = manifest.inputs.get(name.as_str());
        proof {
            assert(names::has_name(manifest.inputs@, name@));
            let p = names::position_of(manifest.inputs@, name@);
            assert(spec::constraint_reason(manifest.inputs@[p].1) is None);
            assert(inputs@.take(i + 1).drop_last() =~= inputs@.take(i as int));
        }
        if let Some(declared) = found {
            match check_input(
                name.as_str(),
                declared,
                inputs.value_at(i),
                artifacts,
                files,
                now,
            ) {
                Err(e) => {
                    proof {
                        search::first_failure_at(inputs@, refused, i as int);
                    }
                    return Err(e);
                },
                Ok(None) => {},
                Ok(Some(path)) => {
                    let ghost before = resolved@;
                    proof {
                        assert forall|j: int| 0 <= j < before.len() implies text::text_lt(
                            (#[trigger] before[j]).0,
                            name@,
                        ) by {
                            let k = choose|k: int|
                                0 <= k < i && before[j].0 == (#[trigger] inputs@[k]).0;
                            assert(text::text_lt(inputs@[k].0, inputs@[i as int].0));
                        }
                        names::inserted_last(before, name@, path);
                    }
                    resolved.insert(name.clone(), path);
                    proof {
                        assert(names::with_values(resolved@, models::text_model())
                            =~= names::with_values(before, models::text_model()).push(
                            (name@, path@),
                        ));
                        assert forall|j: int| 0 <= j < resolved@.len() implies exists|k: int|
                            0 <= k < i + 1 && (#[trigger] resolved@[j]).0 == (#[trigger] inputs@[k]).0 by {
                            if j < before.len() {
                                assert(resolved@[j] == before[j]);
                                let k = choose|k: int|
                                    0 <= k < i && before[j].0 == (#[trigger] inputs@[k]).0;
                                assert(resolved@[j].0 == inputs@[k].0);
                            } else {
                                assert(resolved@[j].0 == inputs@[i as int].0);
                            }
                        }
                    }
                },
            }
        }
        i += 1;
    }
    proof {
        search::nothing_fails(inputs@, refused);
        assert(inputs@.take(i as int) =~= inputs@);
    }
    Ok(resolved)
}

/// An input as the job run's metadata shows it.
pub open spec fn shown_input(declared: Seq<(Seq<char>, InputSpec)>, given: (Seq<char>, JsonValue)) -> (
    Seq<char>,
    JsonView,
) {
    match names::lookup(declared, given.0) {
        Some(spec) => if spec.sensitive {
            (given.0, JsonView::Text("[REDACTED]"@))
        } else {
            (given.0, given.1@)
        },
        None => (given.0, given.1@),
    }
}

/// The inputs as the job run's metadata shows them.
pub open spec fn shown_inputs(
    declared: Seq<(Seq<char>, InputSpec)>,
    given: Seq<(Seq<char>, JsonValue)>,
) -> Seq<(Seq<char>, JsonView)> {
    Seq::new(given.len(), |i: int| shown_input(declared, given[i]))
}

/// The inputs with the values of sensitive ones blotted out.
pub fn redact_sensitive_inputs(manifest: &JobManifest, inputs: &NameMap<JsonValue>) -> (r: NameMap<
    JsonValue,
>)
    ensures
        names::with_values(r@, json::json_model()) == shown_inputs(manifest.inputs@, inputs@),
{
    let mut shown: NameMap<JsonValue> = NameMap::new();
    let given = inputs.len();
    assert(names::with_values(shown@, json::json_model()) =~= shown_inputs(
        manifest.inputs@,
        inputs@.take(0),
    ));
    let mut i: usize = 0;
    while i < given
        invariant
            i <= given,
            given == inputs@.len(),
            names::names_sorted(inputs@),
            names::with_values(shown@, json::json_model()) == shown_inputs(
                manifest.inputs@,
                inputs@.take(i as int),
            ),
        decreases given - i,
    {
        let name = inputs.name_at(i);
        let sensitive = match manifest.inputs.get(name.as_str()) {
            Some(spec) => spec.sensitive,
            None => false,
        };
        let value = if sensitive {
            JsonValue::Text(REDACTED_INPUT_VALUE.to_owned())
        } else {
            inputs.value_at(i).clone()
        };
        let ghost before = shown@;
        proof {
            let model = names::with_values(before, json::json_model());
            assert forall|j: int| 0 <= j < before.len() implies text::text_lt(
                (#[trigger] before[j]).0,
                name@,
            ) by {
                assert(model.len() == i);
                assert(model[j] == shown_input(manifest.inputs@, inputs@.take(i as int)[j]));
                assert(text::text_lt(inputs@[j].0, inputs@[i as int].0));
            }
            names::inserted_last(before, name@, value);
        }
        shown.insert(name.clone(), value);
        proof {
            let model = names::with_values(before, json::json_model());
            assert(names::with_values(shown@, json::json_model()) =~= model.push((name@, value@)));
            assert(model.push((name@, value@)) =~= shown_inputs(
                manifest.inputs@,
                inputs@.take(i + 1),
            ));
        }
        i += 1;
    }
    assert(inputs@.take(i as int) =~= inputs@);
    shown
}

/// Inputs are accepted exactly when every required input is given, every given
/// input is declared, and every given input is fit for what it was declared as.
pub proof fn inputs_are_accepted_when_fit(
    manifest: ManifestView,
    inputs: Seq<(Seq<char>, JsonValue)>,
    artifacts: ArtifactStore,
    files: Seq<(Seq<char>, MetadataFile)>,
    now: UtcInstant,
)
    ensures
        (validated_inputs(manifest, inputs, artifacts, files, now) is Ok) == {
            &&& forall|i: int|
                0 <= i < manifest.inputs.len() && (#[trigger] manifest.inputs[i]).1.required
                    ==> names::has_name(inputs, manifest.inputs[i].0)
            &&& forall|i: int|
                0 <= i < inputs.len() ==> names::has_name(
                    manifest.inputs,
                    (#[trigger] inputs[i]).0,
                )
            &&& forall|i: int|
                0 <= i < inputs.len() ==> given_input(
                    manifest.inputs,
                    #[trigger] inputs[i],
                    artifacts,
                    files,
                    now,
                ) is Ok
        },
{
    let missing = missing_input_check(inputs);
    let unknown = unknown_input_check(manifest.inputs);
    let refused = given_input_check(manifest.inputs, artifacts, files, now);
    search::nothing_fails(manifest.inputs, missing);
    search::nothing_fails(inputs, unknown);
    search::nothing_fails(inputs, refused);
    if validated_inputs(manifest, inputs, artifacts, files, now) is Ok {
        assert forall|i: int|
            0 <= i < manifest.inputs.len() && (#[trigger] manifest.inputs[i]).1.required implies names::has_name(
            inputs,
            manifest.inputs[i].0,
        ) by {
            assert(missing(manifest.inputs[i]) is None);
        }
        assert forall|i: int| 0 <= i < inputs.len() implies names::has_name(
            manifest.inputs,
            (#[trigger] inputs[i]).0,
        ) by {
            assert(unknown(inputs[i]) is None);
        }
        assert forall|i: int| 0 <= i < inputs.len() implies given_input(
            manifest.inputs,
            #[trigger] inputs[i],
            artifacts,
            files,
            now,
        ) is Ok by {
            assert(refused(inputs[i]) is None);
        }
    }
}

/// A sensitive input never shows its value: whatever was given, the metadata
/// holds the same.
pub proof fn sensitive_value_is_hidden(
    declared: Seq<(Seq<char>, InputSpec)>,
    given: Seq<(Seq<char>, JsonValue)>,
    i: int,
)
    requires
        0 <= i < given.len(),
        names::lookup(declared, given[i].0) matches Some(spec) && spec.sensitive,
    ensures
        shown_inputs(declared, given)[i] == (given[i].0, JsonView::Text("[REDACTED]"@)),
{
}

/// The artifacts that a request's inputs name, in the order of the inputs.
pub open spec fn referenced_artifacts(
    declared: Seq<(Seq<char>, InputSpec)>,
    given: Seq<(Seq<char>, JsonValue)>,
) -> Seq<Seq<char>>
    decreases given.len(),
{
    if given.len() == 0 {
        Seq::empty()
    } else {
        let before = referenced_artifacts(declared, given.drop_last());
        match (names::lookup(declared, given.last().0), given.last().1@) {
            (Some(spec), JsonView::Text(artifact_id)) => if spec.kind is Artifact {
                before.push(artifact_id)
            } else {
                before
            },
            _ => before,
        }
    }
}

/// The artifacts whose metadata files `validate_inputs` has to be told of.
pub fn artifact_references(manifest: &JobManifest, inputs: &NameMap<JsonValue>) -> (r: Vec<String>)
    ensures
        r@.map_values(models::text_model()) == referenced_artifacts(manifest.inputs@, inputs@),
{
    let mut out: Vec<String> = Vec::new();
    let given = inputs.len();
    assert(inputs@.take(0) =~= Seq::empty());
    assert(out@.map_values(models::text_model()) =~= Seq::empty());
    let mut i: usize = 0;
    while i < given
        invariant
            i <= given,
            given == inputs@.len(),
            out@.map_values(models::text_model()) == referenced_artifacts(
                manifest.inputs@,
                inputs@.take(i as int),
            ),
        decreases given - i,
    {
        let ghost before = out@;
        assert(inputs@.take(i + 1).drop_last() =~= inputs@.take(i as int));
        if let Some(spec) = manifest.inputs.get(inputs.name_at(i).as_str()) {
            if spec.kind == InputType::Artifact {
                if let Some(artifact_id) = inputs.value_at(i).as_str() {
                    out.push(artifact_id.to_owned());
                    assert(out@.map_values(models::text_model()) =~= before.map_values(
                        models::text_model(),
                    ).push(artifact_id@));
                }
            }
        }
        i += 1;
    }
    assert(inputs@.take(i as int) =~= inputs@);
    out
}

} // verus!
