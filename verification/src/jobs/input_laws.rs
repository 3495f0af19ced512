//! Which inputs a job run is started with.
use vstd::prelude::*;

use crate::artifacts::error::ArtifactErrorView;
use crate::artifacts::store::{ArtifactStore, MetadataFile};
use crate::digest;
use crate::jobs::error::JobErrorView;
use crate::jobs::inputs;
use crate::json::{JsonValue, JsonView};
use crate::manifest::spec::{InputSpec, ManifestView};
use crate::names;
use crate::paths;
use crate::pattern;
use crate::schema::InputType;
use crate::search;
use crate::text;
use crate::time;
use crate::time::UtcInstant;

verus! {

/// A prefix of four characters and 32 hexadecimal digits of either case.
pub open spec fn plain_id(id: Seq<char>, prefix: Seq<char>) -> bool {
    &&& id.len() == 36
    &&& id[0] == prefix[0] && id[1] == prefix[1] && id[2] == prefix[2] && id[3] == prefix[3]
    &&& forall|i: int|
        4 <= i < 36 ==> {
            ||| '0' <= #[trigger] id[i] <= '9'
            ||| 'a' <= id[i] <= 'f'
            ||| 'A' <= id[i] <= 'F'
        }
}

/// Which identifiers are well-formed.
pub proof fn which_ids_pass(id: Seq<char>, prefix: Seq<char>)
    requires
        prefix.len() == 4,
    ensures
        digest::is_prefixed_hex_id(id, prefix) == plain_id(id, prefix),
{
    if digest::is_prefixed_hex_id(id, prefix) {
        assert(id.take(4) =~= prefix);
        assert forall|i: int| 4 <= i < 36 implies ({
            ||| '0' <= #[trigger] id[i] <= '9'
            ||| 'a' <= id[i] <= 'f'
            ||| 'A' <= id[i] <= 'F'
        }) by {
            assert(text::is_hex_digit(id[i]));
        }
    }
    if plain_id(id, prefix) {
        assert(id.subrange(0, 4) =~= prefix);
        assert(prefix.is_prefix_of(id));
    }
}

/// The artifact is known, and its expiry lies after `now`.
pub open spec fn available(
    artifact_id: Seq<char>,
    files: Seq<(Seq<char>, MetadataFile)>,
    now: UtcInstant,
) -> bool {
    &&& plain_id(artifact_id, seq!['a', 'r', 't', '_'])
    &&& exists|f: int|
        0 <= f < files.len() && (#[trigger] files[f]).0 == artifact_id && (
        files[f].1 matches MetadataFile::Parsed(metadata) && (time::parsed_rfc3339(
            metadata.expires_at@,
        ) matches Ok(at) && (now.seconds < at.0 || (now.seconds == at.0 && now.nanos < at.1))))
}

/// The value is of the declared type and meets each constraint that is declared.
pub open spec fn fit(
    input: InputSpec,
    value: JsonView,
    files: Seq<(Seq<char>, MetadataFile)>,
    now: UtcInstant,
) -> bool {
    match input.kind {
        InputType::String => value matches JsonView::Text(t) && {
            &&& input.max_length matches Some(n) ==> t.len() <= n
            &&& input.pattern matches Some(p) ==> pattern::pattern_found(p@, t)
        },
        InputType::Integer => value matches JsonView::Number { integer, .. } && integer is Some,
        InputType::Boolean => value is Bool,
        InputType::Artifact => value matches JsonView::Text(id) && available(id, files, now),
        InputType::Json => {
            &&& !(value is Null)
            &&& input.max_json_bytes matches Some(n) ==> vstd::utf8::encode_utf8(
                value.compact(),
            ).len() <= n
        },
    }
}

proof fn artifact_text()
    ensures
        "art_"@ =~= seq!['a', 'r', 't', '_'],
{
    reveal_strlit("art_");
}

proof fn found_file(files: Seq<(Seq<char>, MetadataFile)>, artifact_id: Seq<char>, now: UtcInstant)
    requires
        names::names_sorted(files),
    ensures
        available(artifact_id, files, now) == {
            &&& plain_id(artifact_id, seq!['a', 'r', 't', '_'])
            &&& inputs::artifact_file(files, artifact_id) matches MetadataFile::Parsed(metadata) && (
            time::parsed_rfc3339(metadata.expires_at@) matches Ok(at) && (now.seconds < at.0 || (
            now.seconds == at.0 && now.nanos < at.1)))
        },
{
    if names::has_name(files, artifact_id) {
        let p = names::position_of(files, artifact_id);
        names::lookup_at(files, p);
        assert forall|f: int| 0 <= f < files.len() && (#[trigger] files[f]).0
            == artifact_id implies f == p by {
            names::name_occurs_once(files, f, p);
        }
    }
}

/// One input is accepted exactly if it is of the declared type and meets every
/// declared constraint, each on its own. An accepted artifact stands for the
/// path of its bytes, and nothing else stands for a path.
pub proof fn which_values_are_accepted(
    name: Seq<char>,
    input: InputSpec,
    value: JsonView,
    artifacts: ArtifactStore,
    files: Seq<(Seq<char>, MetadataFile)>,
    now: UtcInstant,
)
    requires
        names::names_sorted(files),
    ensures
        ({
            let outcome = inputs::checked_input(name, input, value, artifacts, files, now);
            &&& (outcome is Ok) == fit(input, value, files, now)
            &&& outcome matches Ok(path) ==> path == if input.kind == InputType::Artifact {
                Some(
                    paths::joined(
                        paths::joined(artifacts.root_dir@, value->Text_0),
                        "blob"@,
                    ),
                )
            } else {
                None
            }
        }),
{
    artifact_text();
    if let JsonView::Text(t) = value {
        found_file(files, t, now);
        which_ids_pass(t, "art_"@);
    }
}

/// Why a value is refused: its type counts first, then the maximum length, then
/// the pattern.
pub proof fn why_a_value_is_refused(
    name: Seq<char>,
    input: InputSpec,
    value: JsonView,
    artifacts: ArtifactStore,
    files: Seq<(Seq<char>, MetadataFile)>,
    now: UtcInstant,
)
    requires
        names::names_sorted(files),
        !fit(input, value, files, now),
    ensures
        ({
            let outcome = inputs::checked_input(name, input, value, artifacts, files, now);
            let wrong_type = |expected: Seq<char>|
                Err::<Option<Seq<char>>, _>(JobErrorView::InvalidInputType { name, expected });
            let wrong_value = |reason: Seq<char>|
                Err::<Option<Seq<char>>, _>(JobErrorView::InvalidInputValue { name, reason });
            match input.kind {
                InputType::String => outcome == match value {
                    JsonView::Text(t) => if input.max_length is Some && t.len()
                        > input.max_length->0 {
                        wrong_value(
                            "must be at most "@ + text::decimal(input.max_length->0 as nat)
                                + " characters"@,
                        )
                    } else {
                        wrong_value("must match pattern "@ + input.pattern->0@)
                    },
                    _ => wrong_type("string"@),
                },
                InputType::Integer => outcome == wrong_type("integer"@),
                InputType::Boolean => outcome == wrong_type("boolean"@),
                InputType::Json => outcome == match value {
                    JsonView::Null => wrong_type("json"@),
                    _ => wrong_value(
                        "must be at most "@ + text::decimal(input.max_json_bytes->0 as nat)
                            + " JSON bytes"@,
                    ),
                },
                InputType::Artifact => match value {
                    JsonView::Text(id) => if !plain_id(id, seq!['a', 'r', 't', '_']) {
                        outcome == Err::<Option<Seq<char>>, _>(
                            JobErrorView::Artifact(ArtifactErrorView::InvalidArtifactId(id)),
                        )
                    } else {
                        match inputs::artifact_file(files, id) {
                            MetadataFile::Missing | MetadataFile::Unreadable(_) => outcome == Err::<
                                Option<Seq<char>>,
                                _,
                            >(JobErrorView::Artifact(ArtifactErrorView::NotFound(id))),
                            MetadataFile::Unparsable(source) => outcome == Err::<
                                Option<Seq<char>>,
                                _,
                            >(
                                JobErrorView::Artifact(
                                    ArtifactErrorView::ParseMetadata {
                                        path: paths::joined(
                                            paths::joined(artifacts.root_dir@, id),
                                            "metadata.json"@,
                                        ),
                                        source: source@,
                                    },
                                ),
                            ),
                            MetadataFile::Parsed(metadata) => outcome == match time::parsed_rfc3339(
                                metadata.expires_at@,
                            ) {
                                Ok(_) => Err::<Option<Seq<char>>, _>(
                                    JobErrorView::ExpiredArtifact { name, artifact_id: id },
                                ),
                                Err(source) => Err(
                                    JobErrorView::Artifact(
                                        ArtifactErrorView::ParseExpiry {
                                            expires_at: metadata.expires_at@,
                                            source,
                                        },
                                    ),
                                ),
                            },
                        }
                    },
                    _ => outcome == wrong_type("artifact id string"@),
                },
            }
        }),
{
    artifact_text();
    if let JsonView::Text(t) = value {
        found_file(files, t, now);
        which_ids_pass(t, "art_"@);
    }
}

/// A request's inputs are accepted exactly if every required input is among
/// them, every one of them is declared, and each fits what it was declared as.
pub proof fn which_inputs_are_accepted(
    manifest: ManifestView,
    given: Seq<(Seq<char>, JsonValue)>,
    artifacts: ArtifactStore,
    files: Seq<(Seq<char>, MetadataFile)>,
    now: UtcInstant,
)
    requires
        names::names_sorted(manifest.inputs),
        names::names_sorted(files),
    ensures
        (inputs::validated_inputs(manifest, given, artifacts, files, now) is Ok) == {
            &&& forall|i: int|
                0 <= i < manifest.inputs.len() && (#[trigger] manifest.inputs[i]).1.required
                    ==> exists|g: int|
                    0 <= g < given.len() && (#[trigger] given[g]).0 == manifest.inputs[i].0
            &&& forall|g: int|
                0 <= g < given.len() ==> exists|i: int|
                    0 <= i < manifest.inputs.len() && (#[trigger] manifest.inputs[i]).0 == (
                    #[trigger] given[g]).0 && fit(manifest.inputs[i].1, given[g].1@, files, now)
        },
{
    inputs::inputs_are_accepted_when_fit(manifest, given, artifacts, files, now);
    let declared = manifest.inputs;
    assert forall|g: int, i: int|
        0 <= g < given.len() && 0 <= i < declared.len() && (#[trigger] declared[i]).0 == (
        #[trigger] given[g]).0 implies names::lookup(declared, given[g].0) == Some(declared[i].1)
        && (inputs::given_input(declared, given[g], artifacts, files, now) is Ok) == fit(
        declared[i].1,
        given[g].1@,
        files,
        now,
    ) by {
        names::lookup_at(declared, i);
        which_values_are_accepted(
            given[g].0,
            declared[i].1,
            given[g].1@,
            artifacts,
            files,
            now,
        );
    }
    let all_fit = forall|g: int|
        0 <= g < given.len() ==> exists|i: int|
            0 <= i < declared.len() && (#[trigger] declared[i]).0 == (#[trigger] given[g]).0 && fit(
                declared[i].1,
                given[g].1@,
                files,
                now,
            );
    if inputs::validated_inputs(manifest, given, artifacts, files, now) is Ok {
        assert forall|g: int| 0 <= g < given.len() implies exists|i: int|
            0 <= i < declared.len() && (#[trigger] declared[i]).0 == (#[trigger] given[g]).0 && fit(
                declared[i].1,
                given[g].1@,
                files,
                now,
            ) by {
            assert(names::has_name(declared, given[g].0));
            let i = names::position_of(declared, given[g].0);
            assert(declared[i].0 == given[g].0);
            assert(inputs::given_input(declared, given[g], artifacts, files, now) is Ok);
        }
        assert forall|i: int|
            0 <= i < declared.len() && (#[trigger] declared[i]).1.required implies exists|g: int|
            0 <= g < given.len() && (#[trigger] given[g]).0 == declared[i].0 by {
            assert(names::has_name(given, declared[i].0));
        }
    } else if all_fit {
        assert forall|g: int| 0 <= g < given.len() implies names::has_name(
            declared,
            (#[trigger] given[g]).0,
        ) && inputs::given_input(declared, given[g], artifacts, files, now) is Ok by {
            let i = choose|i: int|
                0 <= i < declared.len() && (#[trigger] declared[i]).0 == given[g].0 && fit(
                    declared[i].1,
                    given[g].1@,
                    files,
                    now,
                );
            assert(declared[i].0 == given[g].0);
        }
        let i = choose|i: int|
            0 <= i < declared.len() && (#[trigger] declared[i]).1.required && !names::has_name(
                given,
                declared[i].0,
            );
        assert(declared[i].1.required);
        assert(!exists|g: int| 0 <= g < given.len() && (#[trigger] given[g]).0 == declared[i].0);
    }
}

proof fn resolved_contains(
    declared: Seq<(Seq<char>, InputSpec)>,
    given: Seq<(Seq<char>, JsonValue)>,
    artifacts: ArtifactStore,
    files: Seq<(Seq<char>, MetadataFile)>,
    now: UtcInstant,
    entry: (Seq<char>, Seq<char>),
)
    ensures
        inputs::resolved_inputs(declared, given, artifacts, files, now).contains(entry) == (exists|
            g: int,
        |
            0 <= g < given.len() && (#[trigger] given[g]).0 == entry.0 && inputs::given_input(
                declared,
                given[g],
                artifacts,
                files,
                now,
            ) == Ok::<_, JobErrorView>(Some(entry.1))),
    decreases given.len(),
{
    if given.len() > 0 {
        let rest = given.drop_last();
        let last = given.len() - 1;
        resolved_contains(declared, rest, artifacts, files, now, entry);
        let before = inputs::resolved_inputs(declared, rest, artifacts, files, now);
        let after = inputs::resolved_inputs(declared, given, artifacts, files, now);
        if before.contains(entry) {
            let w = choose|w: int| 0 <= w < before.len() && before[w] == entry;
            assert(after[w] == entry);
            let g = choose|g: int|
                0 <= g < rest.len() && (#[trigger] rest[g]).0 == entry.0 && inputs::given_input(
                    declared,
                    rest[g],
                    artifacts,
                    files,
                    now,
                ) == Ok::<_, JobErrorView>(Some(entry.1));
            assert(given[g] == rest[g]);
        }
        if inputs::given_input(declared, given[last], artifacts, files, now) == Ok::<
            _,
            JobErrorView,
        >(Some(entry.1)) && given[last].0 == entry.0 {
            assert(after[before.len() as int] == entry);
        }
        if after.contains(entry) && !before.contains(entry) {
            let w = choose|w: int| 0 <= w < after.len() && after[w] == entry;
            if w < before.len() {
                assert(before[w] == entry);
            }
            assert(given[last].0 == entry.0);
        }
        if exists|g: int|
            0 <= g < given.len() && (#[trigger] given[g]).0 == entry.0 && inputs::given_input(
                declared,
                given[g],
                artifacts,
                files,
                now,
            ) == Ok::<_, JobErrorView>(Some(entry.1)) {
            let g = choose|g: int|
                0 <= g < given.len() && (#[trigger] given[g]).0 == entry.0 && inputs::given_input(
                    declared,
                    given[g],
                    artifacts,
                    files,
                    now,
                ) == Ok::<_, JobErrorView>(Some(entry.1));
            if g < last {
                assert(rest[g] == given[g]);
            }
        }
    }
}

/// Of accepted inputs exactly those that were declared as artifacts are
/// resolved, each to the path of the bytes of the artifact that it names.
pub proof fn which_inputs_are_resolved(
    manifest: ManifestView,
    given: Seq<(Seq<char>, JsonValue)>,
    artifacts: ArtifactStore,
    files: Seq<(Seq<char>, MetadataFile)>,
    now: UtcInstant,
    name: Seq<char>,
    path: Seq<char>,
)
    requires
        names::names_sorted(manifest.inputs),
        names::names_sorted(files),
        inputs::validated_inputs(manifest, given, artifacts, files, now) is Ok,
    ensures
        inputs::validated_inputs(manifest, given, artifacts, files, now)->Ok_0.contains(
            (name, path),
        ) == exists|g: int, i: int|
            0 <= g < given.len() && 0 <= i < manifest.inputs.len() && (#[trigger] given[g]).0 == name
                && (#[trigger] manifest.inputs[i]).0 == name && manifest.inputs[i].1.kind
                == InputType::Artifact && path == paths::joined(
                paths::joined(artifacts.root_dir@, given[g].1@->Text_0),
                "blob"@,
            ),
{
    let declared = manifest.inputs;
    resolved_contains(declared, given, artifacts, files, now, (name, path));
    inputs::inputs_are_accepted_when_fit(manifest, given, artifacts, files, now);
    assert forall|g: int, i: int|
        0 <= g < given.len() && 0 <= i < declared.len() && (#[trigger] declared[i]).0 == (
        #[trigger] given[g]).0 implies inputs::given_input(
        declared,
        given[g],
        artifacts,
        files,
        now,
    ) == Ok::<_, JobErrorView>(
        if declared[i].1.kind == InputType::Artifact {
            Some(
                paths::joined(
                    paths::joined(artifacts.root_dir@, given[g].1@->Text_0),
                    "blob"@,
                ),
            )
        } else {
            None
        },
    ) by {
        names::lookup_at(declared, i);
        assert(inputs::given_input(declared, given[g], artifacts, files, now) is Ok);
        which_values_are_accepted(
            given[g].0,
            declared[i].1,
            given[g].1@,
            artifacts,
            files,
            now,
        );
    }
    if exists|g: int|
        0 <= g < given.len() && (#[trigger] given[g]).0 == name && inputs::given_input(
            declared,
            given[g],
            artifacts,
            files,
            now,
        ) == Ok::<_, JobErrorView>(Some(path)) {
        let g = choose|g: int|
            0 <= g < given.len() && (#[trigger] given[g]).0 == name && inputs::given_input(
                declared,
                given[g],
                artifacts,
                files,
                now,
            ) == Ok::<_, JobErrorView>(Some(path));
        assert(names::has_name(declared, given[g].0));
        let i = names::position_of(declared, name);
        assert(declared[i].0 == given[g].0);
    }
}

/// The first required input, in name order, that is missing is reported before
/// anything else.
pub proof fn first_missing_input_is_reported(
    manifest: ManifestView,
    given: Seq<(Seq<char>, JsonValue)>,
    artifacts: ArtifactStore,
    files: Seq<(Seq<char>, MetadataFile)>,
    now: UtcInstant,
    i: int,
)
    requires
        0 <= i < manifest.inputs.len(),
        manifest.inputs[i].1.required,
        forall|g: int| 0 <= g < given.len() ==> (#[trigger] given[g]).0 != manifest.inputs[i].0,
        forall|k: int|
            0 <= k < i && (#[trigger] manifest.inputs[k]).1.required ==> exists|g: int|
                0 <= g < given.len() && (#[trigger] given[g]).0 == manifest.inputs[k].0,
    ensures
        inputs::validated_inputs(manifest, given, artifacts, files, now) == Err::<
            Seq<(Seq<char>, Seq<char>)>,
            _,
        >(JobErrorView::MissingInput(manifest.inputs[i].0)),
{
    let check = inputs::missing_input_check(given);
    assert forall|k: int| 0 <= k < i implies check(#[trigger] manifest.inputs[k]) is None by {
        if manifest.inputs[k].1.required {
            let g = choose|g: int|
                0 <= g < given.len() && (#[trigger] given[g]).0 == manifest.inputs[k].0;
            assert(names::has_name(given, manifest.inputs[k].0));
        }
    }
    search::first_failure_at(manifest.inputs, check, i);
}

/// If no required input is missing, the first input, in name order, that was not
/// declared is reported.
pub proof fn first_unknown_input_is_reported(
    manifest: ManifestView,
    given: Seq<(Seq<char>, JsonValue)>,
    artifacts: ArtifactStore,
    files: Seq<(Seq<char>, MetadataFile)>,
    now: UtcInstant,
    g: int,
)
    requires
        forall|i: int|
            0 <= i < manifest.inputs.len() && (#[trigger] manifest.inputs[i]).1.required
                ==> exists|k: int|
                0 <= k < given.len() && (#[trigger] given[k]).0 == manifest.inputs[i].0,
        0 <= g < given.len(),
        forall|i: int|
            0 <= i < manifest.inputs.len() ==> (#[trigger] manifest.inputs[i]).0 != given[g].0,
        forall|k: int|
            0 <= k < g ==> exists|i: int|
                0 <= i < manifest.inputs.len() && (#[trigger] manifest.inputs[i]).0 == (
                #[trigger] given[k]).0,
    ensures
        inputs::validated_inputs(manifest, given, artifacts, files, now) == Err::<
            Seq<(Seq<char>, Seq<char>)>,
            _,
        >(JobErrorView::UnknownInput(given[g].0)),
{
    nothing_missing(manifest, given);
    let check = inputs::unknown_input_check(manifest.inputs);
    assert forall|k: int| 0 <= k < g implies check(#[trigger] given[k]) is None by {
        let i = choose|i: int|
            0 <= i < manifest.inputs.len() && (#[trigger] manifest.inputs[i]).0 == given[k].0;
        assert(names::has_name(manifest.inputs, given[k].0));
    }
    search::first_failure_at(given, check, g);
}

proof fn nothing_missing(manifest: ManifestView, given: Seq<(Seq<char>, JsonValue)>)
    requires
        forall|i: int|
            0 <= i < manifest.inputs.len() && (#[trigger] manifest.inputs[i]).1.required
                ==> exists|k: int|
                0 <= k < given.len() && (#[trigger] given[k]).0 == manifest.inputs[i].0,
    ensures
        search::first_failure(manifest.inputs, inputs::missing_input_check(given)) is None,
{
    let check = inputs::missing_input_check(given);
    search::nothing_fails(manifest.inputs, check);
    assert forall|i: int| 0 <= i < manifest.inputs.len() implies check(
        #[trigger] manifest.inputs[i],
    ) is None by {
        if manifest.inputs[i].1.required {
            let k = choose|k: int|
                0 <= k < given.len() && (#[trigger] given[k]).0 == manifest.inputs[i].0;
            assert(names::has_name(given, manifest.inputs[i].0));
        }
    }
}

/// If no required input is missing and all are declared, the first input, in
/// name order, that does not fit is reported, as it is on its own.
pub proof fn first_unfit_input_is_reported(
    manifest: ManifestView,
    given: Seq<(Seq<char>, JsonValue)>,
    artifacts: ArtifactStore,
    files: Seq<(Seq<char>, MetadataFile)>,
    now: UtcInstant,
    g: int,
    i: int,
)
    requires
        names::names_sorted(manifest.inputs),
        names::names_sorted(files),
        forall|k: int|
            0 <= k < manifest.inputs.len() && (#[trigger] manifest.inputs[k]).1.required
                ==> exists|e: int|
                0 <= e < given.len() && (#[trigger] given[e]).0 == manifest.inputs[k].0,
        forall|e: int|
            0 <= e < given.len() ==> exists|k: int|
                0 <= k < manifest.inputs.len() && (#[trigger] manifest.inputs[k]).0 == (
                #[trigger] given[e]).0,
        0 <= g < given.len(),
        0 <= i < manifest.inputs.len(),
        manifest.inputs[i].0 == given[g].0,
        !fit(manifest.inputs[i].1, given[g].1@, files, now),
        forall|e: int, k: int|
            0 <= e < g && 0 <= k < manifest.inputs.len() && (#[trigger] manifest.inputs[k]).0 == (
            #[trigger] given[e]).0 ==> fit(manifest.inputs[k].1, given[e].1@, files, now),
    ensures
        ({
            let outcome = inputs::validated_inputs(manifest, given, artifacts, files, now);
            let alone = inputs::checked_input(
                given[g].0,
                manifest.inputs[i].1,
                given[g].1@,
                artifacts,
                files,
                now,
            );
            outcome is Err && alone is Err && outcome->Err_0 == alone->Err_0
        }),
{
    let declared = manifest.inputs;
    nothing_missing(manifest, given);
    let unknown = inputs::unknown_input_check(declared);
    let refused = inputs::given_input_check(declared, artifacts, files, now);
    search::nothing_fails(given, unknown);
    assert forall|e: int| 0 <= e < given.len() implies unknown(#[trigger] given[e]) is None by {
        let k = choose|k: int|
            0 <= k < declared.len() && (#[trigger] declared[k]).0 == given[e].0;
        assert(names::has_name(declared, given[e].0));
    }
    assert forall|e: int| 0 <= e < g implies refused(#[trigger] given[e]) is None by {
        let k = choose|k: int|
            0 <= k < declared.len() && (#[trigger] declared[k]).0 == given[e].0;
        names::lookup_at(declared, k);
        assert(fit(declared[k].1, given[e].1@, files, now));
        which_values_are_accepted(given[e].0, declared[k].1, given[e].1@, artifacts, files, now);
    }
    names::lookup_at(declared, i);
    which_values_are_accepted(given[g].0, declared[i].1, given[g].1@, artifacts, files, now);
    search::first_failure_at(given, refused, g);
}

/// A job run's metadata shows every input under its name, with its value unless
/// it was declared sensitive. What it shows of a sensitive one does not depend on
/// the value.
pub proof fn what_metadata_shows(
    declared: Seq<(Seq<char>, InputSpec)>,
    given: Seq<(Seq<char>, JsonValue)>,
    g: int,
)
    requires
        names::names_sorted(declared),
        0 <= g < given.len(),
    ensures
        inputs::shown_inputs(declared, given).len() == given.len(),
        inputs::shown_inputs(declared, given)[g].0 == given[g].0,
        inputs::shown_inputs(declared, given)[g].1 == if exists|i: int|
            0 <= i < declared.len() && (#[trigger] declared[i]).0 == given[g].0
                && declared[i].1.sensitive {
            JsonView::Text("[REDACTED]"@)
        } else {
            given[g].1@
        },
{
    if names::has_name(declared, given[g].0) {
        let p = names::position_of(declared, given[g].0);
        names::lookup_at(declared, p);
        assert forall|i: int| 0 <= i < declared.len() && (#[trigger] declared[i]).0
            == given[g].0 implies i == p by {
            names::name_occurs_once(declared, i, p);
        }
    }
}

/// The artifacts that have to be looked at are those that text inputs name that
/// were declared as artifacts.
pub proof fn which_artifacts_are_looked_at(
    declared: Seq<(Seq<char>, InputSpec)>,
    given: Seq<(Seq<char>, JsonValue)>,
    id: Seq<char>,
)
    requires
        names::names_sorted(declared),
    ensures
        inputs::referenced_artifacts(declared, given).contains(id) == exists|g: int, i: int|
            0 <= g < given.len() && 0 <= i < declared.len() && (#[trigger] given[g]).0 == (
            #[trigger] declared[i]).0 && declared[i].1.kind == InputType::Artifact && given[g].1@
                == JsonView::Text(id),
    decreases given.len(),
{
    if given.len() > 0 {
        let rest = given.drop_last();
        let last = given.len() - 1;
        which_artifacts_are_looked_at(declared, rest, id);
        let before = inputs::referenced_artifacts(declared, rest);
        let after = inputs::referenced_artifacts(declared, given);
        let name = given[last].0;
        if names::has_name(declared, name) {
            let p = names::position_of(declared, name);
            names::lookup_at(declared, p);
            assert forall|i: int| 0 <= i < declared.len() && (#[trigger] declared[i]).0
                == name implies i == p by {
                names::name_occurs_once(declared, i, p);
            }
        }
        if before.contains(id) {
            let w = choose|w: int| 0 <= w < before.len() && before[w] == id;
            assert(after[w] == id);
            let (g, i) = choose|g: int, i: int|
                0 <= g < rest.len() && 0 <= i < declared.len() && (#[trigger] rest[g]).0 == (
                #[trigger] declared[i]).0 && declared[i].1.kind == InputType::Artifact && rest[g].1@
                    == JsonView::Text(id);
            assert(given[g] == rest[g]);
        }
        if after.contains(id) && !before.contains(id) {
            let w = choose|w: int| 0 <= w < after.len() && after[w] == id;
            if w < before.len() {
                assert(before[w] == id);
            }
            let p = names::position_of(declared, name);
            assert(given[last].0 == declared[p].0);
        }
        if exists|g: int, i: int|
            0 <= g < given.len() && 0 <= i < declared.len() && (#[trigger] given[g]).0 == (
            #[trigger] declared[i]).0 && declared[i].1.kind == InputType::Artifact && given[g].1@
                == JsonView::Text(id) {
            let (g, i) = choose|g: int, i: int|
                0 <= g < given.len() && 0 <= i < declared.len() && (#[trigger] given[g]).0 == (
                #[trigger] declared[i]).0 && declared[i].1.kind == InputType::Artifact
                    && given[g].1@ == JsonView::Text(id);
            if g < last {
                assert(rest[g] == given[g]);
                assert(declared[i].0 == rest[g].0);
            } else {
                assert(names::has_name(declared, name));
                assert(after[before.len() as int] == id);
            }
        }
    }
}

} // verus!
