//! Which manifests a runner accepts, character by character and field by field.
use vstd::prelude::*;

use crate::manifest::error::ManifestErrorView;
use crate::manifest::spec;
use crate::manifest::spec::{InputSpec, JobManifest, ManifestView, ScriptProbe};
use crate::manifest::store;
use crate::manifest::store::{DirectoryEntry, DirectoryRead, ManifestRead};
use crate::names;
use crate::paths;
use crate::pattern;
use crate::schema::InputType;
use crate::search;

verus! {

/// An ASCII letter followed by ASCII letters, digits, `_` and `-`.
pub open spec fn plain_name(name: Seq<char>) -> bool {
    &&& name.len() > 0
    &&& ('a' <= name[0] <= 'z') || ('A' <= name[0] <= 'Z')
    &&& forall|i: int|
        1 <= i < name.len() ==> {
            ||| 'a' <= #[trigger] name[i] <= 'z'
            ||| 'A' <= name[i] <= 'Z'
            ||| '0' <= name[i] <= '9'
            ||| name[i] == '_'
            ||| name[i] == '-'
        }
}

/// A name passes as job name and as output name exactly if it is a letter
/// followed by letters, digits, `_` and `-`. As input name it passes if, besides,
/// it is none of five names that the runner keeps for itself, each of which is
/// such a name too.
pub proof fn which_names_pass(name: Seq<char>, path: Seq<char>)
    ensures
        spec::job_name_problem(name, path) == if plain_name(name) {
            None
        } else {
            Some(ManifestErrorView::InvalidJobName { name, path })
        },
        spec::output_name_problem(name, path) == if plain_name(name) {
            None
        } else {
            Some(ManifestErrorView::InvalidOutputName { name, path })
        },
        spec::input_name_problem(name, path) == if plain_name(name) && name != "id"@ && name
            != "name"@ && name != "workdir"@ && name != "output_dir"@ && name != "metadata_path"@ {
            None
        } else {
            Some(ManifestErrorView::InvalidInputName { name, path })
        },
        plain_name("id"@),
        plain_name("name"@),
        plain_name("workdir"@),
        plain_name("output_dir"@),
        plain_name("metadata_path"@),
{
    reveal_strlit("id");
    reveal_strlit("name");
    reveal_strlit("workdir");
    reveal_strlit("output_dir");
    reveal_strlit("metadata_path");
    if spec::safe_name(name) {
        assert forall|i: int| 1 <= i < name.len() implies ({
            ||| 'a' <= #[trigger] name[i] <= 'z'
            ||| 'A' <= name[i] <= 'Z'
            ||| '0' <= name[i] <= '9'
            ||| name[i] == '_'
            ||| name[i] == '-'
        }) by {}
    }
    if plain_name(name) {
        assert(spec::safe_name(name));
    }
}

/// An output path names something below the output directory: it is not empty,
/// does not start with `/`, and none of the pieces between its slashes is `..`.
pub open spec fn plain_path(path: Seq<char>) -> bool {
    &&& path.len() > 0
    &&& path[0] != '/'
    &&& !exists|a: int, b: int| piece(path, a, b) && b == a + 2 && path[a] == '.' && path[a + 1] == '.'
}

/// The characters from `a` up to `b` are a piece between two slashes, or between
/// a slash and an end of the path.
pub open spec fn piece(path: Seq<char>, a: int, b: int) -> bool {
    &&& 0 <= a <= b <= path.len()
    &&& a == 0 || path[a - 1] == '/'
    &&& b == path.len() || path[b] == '/'
    &&& forall|i: int| a <= i < b ==> #[trigger] path[i] != '/'
}

/// Which output paths pass.
pub proof fn which_output_paths_pass(output: Seq<char>, path: Seq<char>)
    ensures
        spec::output_path_problem(output, path) == if plain_path(output) {
            None
        } else {
            Some(ManifestErrorView::InvalidOutputPath { output, path })
        },
{
    if plain_path(output) {
        assert forall|i: int| !#[trigger] paths::parent_segment_at(output, i) by {
            if paths::parent_segment_at(output, i) {
                assert(piece(output, i, i + 2));
            }
        }
    }
    if paths::stays_below(output) {
        assert forall|a: int, b: int| !(piece(output, a, b) && b == a + 2 && output[a] == '.'
            && output[a + 1] == '.') by {
            assert(!paths::parent_segment_at(output, a));
        }
    }
}

/// An input's constraints can be used: each stands on its own, is positive where
/// it is a number, and fits the input's type.
pub open spec fn plain_constraints(input: InputSpec) -> bool {
    &&& input.max_length matches Some(n) ==> n > 0 && input.kind == InputType::String
    &&& input.pattern matches Some(p) ==> input.kind == InputType::String
        && pattern::pattern_problem(p@) is None
    &&& input.max_json_bytes matches Some(n) ==> n > 0 && input.kind == InputType::Json
}

/// A manifest is accepted exactly if its name passes, its script is an absolute
/// path of an executable file, its timeout is positive, every input's name
/// passes and its constraints can be used, and every output's name and path
/// pass.
pub proof fn which_manifests_pass(manifest: JobManifest, script: ScriptProbe, path: Seq<char>)
    ensures
        (store::read_problem(ManifestRead::Parsed { manifest, script }, path) is None) == {
            &&& plain_name(manifest.name@)
            &&& manifest.script@.len() > 0 && manifest.script@[0] == '/'
            &&& script matches ScriptProbe::Found { executable } && executable
            &&& manifest.timeout_seconds >= 1
            &&& forall|i: int|
                0 <= i < manifest.inputs@.len() ==> {
                    let (name, input) = #[trigger] manifest.inputs@[i];
                    &&& plain_name(name)
                    &&& name != "id"@ && name != "name"@ && name != "workdir"@
                    &&& name != "output_dir"@ && name != "metadata_path"@
                    &&& plain_constraints(input)
                }
            &&& forall|i: int|
                0 <= i < manifest.outputs@.len() ==> {
                    let (name, output) = #[trigger] manifest.outputs@[i];
                    &&& plain_name(name)
                    &&& plain_path(output.path@)
                }
        },
{
    let m = manifest@;
    spec::no_problem_is_sound(m, script, path);
    which_names_pass(m.name, path);
    assert forall|i: int| 0 <= i < m.inputs.len() implies ({
        let (name, input) = #[trigger] m.inputs[i];
        spec::safe_name(name) == plain_name(name) && (spec::constraint_reason(input) is None)
            == plain_constraints(input)
    }) by {
        which_names_pass(m.inputs[i].0, path);
    }
    assert forall|i: int| 0 <= i < m.outputs.len() implies ({
        let (name, output) = #[trigger] m.outputs[i];
        spec::safe_name(name) == plain_name(name) && paths::stays_below(output.path@) == plain_path(
            output.path@,
        )
    }) by {
        which_names_pass(m.outputs[i].0, path);
        which_output_paths_pass(m.outputs[i].1.path@, path);
    }
    if store::read_problem(ManifestRead::Parsed { manifest, script }, path) is None {
        assert forall|i: int| 0 <= i < m.inputs.len() implies ({
            let (name, input) = #[trigger] m.inputs[i];
            spec::safe_name(name) && !spec::reserved_input_name(name) && spec::constraint_reason(
                input,
            ) is None
        }) by {
            assert(spec::safe_name(m.inputs[i].0));
        }
    }
    if !(store::read_problem(ManifestRead::Parsed { manifest, script }, path) is None) {
        if plain_name(m.name) && paths::is_absolute(m.script) && script == (ScriptProbe::Found {
            executable: true,
        }) && m.timeout_seconds > 0 {
            assert(!m.sound());
        }
    }
}

/// What is wrong with a manifest's name, script or timeout is reported in that
/// order, before anything else.
pub proof fn first_problem_of_a_manifest(m: ManifestView, script: ScriptProbe, path: Seq<char>)
    ensures
        !plain_name(m.name) ==> m.problem(script, path) == Some(
            ManifestErrorView::InvalidJobName { name: m.name, path },
        ),
        plain_name(m.name) && (m.script.len() == 0 || m.script[0] != '/') ==> m.problem(
            script,
            path,
        ) == Some(ManifestErrorView::ScriptNotAbsolute { script: m.script, path }),
        plain_name(m.name) && m.script.len() > 0 && m.script[0] == '/' ==> match script {
            ScriptProbe::Missing => m.problem(script, path) == Some(
                ManifestErrorView::ScriptNotFound { script: m.script, path },
            ),
            ScriptProbe::Unreadable(source) => m.problem(script, path) == Some(
                ManifestErrorView::ReadFile { path: m.script, source: source@ },
            ),
            ScriptProbe::Found { executable } => {
                &&& !executable ==> m.problem(script, path) == Some(
                    ManifestErrorView::ScriptNotExecutable { script: m.script, path },
                )
                &&& executable && m.timeout_seconds == 0 ==> m.problem(script, path) == Some(
                    ManifestErrorView::InvalidTimeout { path },
                )
            },
        },
{
    which_names_pass(m.name, path);
}

/// The first input, in name order, whose name does not pass is reported.
pub proof fn first_bad_input_name_is_reported(
    m: ManifestView,
    script: ScriptProbe,
    path: Seq<char>,
    i: int,
)
    requires
        plain_name(m.name),
        m.script.len() > 0,
        m.script[0] == '/',
        script == (ScriptProbe::Found { executable: true }),
        m.timeout_seconds >= 1,
        0 <= i < m.inputs.len(),
        forall|k: int|
            0 <= k < i ==> {
                let name = (#[trigger] m.inputs[k]).0;
                &&& plain_name(name)
                &&& name != "id"@ && name != "name"@ && name != "workdir"@
                &&& name != "output_dir"@ && name != "metadata_path"@
            },
        ({
            let name = m.inputs[i].0;
            ||| !plain_name(name)
            ||| name == "id"@ || name == "name"@ || name == "workdir"@
            ||| name == "output_dir"@ || name == "metadata_path"@
        }),
    ensures
        m.problem(script, path) == Some(
            ManifestErrorView::InvalidInputName { name: m.inputs[i].0, path },
        ),
{
    which_names_pass(m.name, path);
    assert forall|k: int| 0 <= k < m.inputs.len() implies ({
        let (name, input) = #[trigger] m.inputs[k];
        &&& spec::safe_name(name) == plain_name(name)
        &&& (spec::constraint_reason(input) is None) == plain_constraints(input)
    }) by {
        which_names_pass(m.inputs[k].0, path);
    }
    assert forall|k: int| 0 <= k < m.outputs.len() implies ({
        let (name, output) = #[trigger] m.outputs[k];
        &&& spec::safe_name(name) == plain_name(name)
        &&& paths::stays_below(output.path@) == plain_path(output.path@)
    }) by {
        which_names_pass(m.outputs[k].0, path);
        which_output_paths_pass(m.outputs[k].1.path@, path);
    }
    which_names_pass(m.inputs[i].0, path);
    assert(forall|k: int| 0 <= k < i ==> spec::input_name_check(path)(#[trigger] m.inputs[k]) is None);
    search::first_failure_at(m.inputs, spec::input_name_check(path), i);
}

/// If all input names pass, the first input, in name order, with constraints
/// that cannot be used is reported, and why: the maximum length counts before
/// the pattern, and the pattern before the maximum size.
pub proof fn first_bad_constraint_is_reported(
    m: ManifestView,
    script: ScriptProbe,
    path: Seq<char>,
    i: int,
)
    requires
        plain_name(m.name),
        m.script.len() > 0,
        m.script[0] == '/',
        script == (ScriptProbe::Found { executable: true }),
        m.timeout_seconds >= 1,
        forall|k: int|
            0 <= k < m.inputs.len() ==> {
                let name = (#[trigger] m.inputs[k]).0;
                &&& plain_name(name)
                &&& name != "id"@ && name != "name"@ && name != "workdir"@
                &&& name != "output_dir"@ && name != "metadata_path"@
            },
        0 <= i < m.inputs.len(),
        forall|k: int| 0 <= k < i ==> plain_constraints((#[trigger] m.inputs[k]).1),
        !plain_constraints(m.inputs[i].1),
    ensures
        m.problem(script, path) == Some(
            ManifestErrorView::InvalidInputConstraint {
                name: m.inputs[i].0,
                path,
                reason: ({
                    let input = m.inputs[i].1;
                    if input.max_length == Some(0usize) {
                        "max_length must be positive"@
                    } else if input.max_length is Some && input.kind != InputType::String {
                        "max_length is only supported for string inputs"@
                    } else if input.pattern is Some && input.kind != InputType::String {
                        "pattern is only supported for string inputs"@
                    } else if input.pattern is Some && pattern::pattern_problem(
                        input.pattern->0@,
                    ) is Some {
                        "invalid regex pattern: "@ + pattern::pattern_problem(input.pattern->0@)->0
                    } else if input.max_json_bytes == Some(0usize) {
                        "max_json_bytes must be positive"@
                    } else {
                        "max_json_bytes is only supported for json inputs"@
                    }
                }),
            },
        ),
{
    which_names_pass(m.name, path);
    assert forall|k: int| 0 <= k < m.inputs.len() implies ({
        let (name, input) = #[trigger] m.inputs[k];
        &&& spec::safe_name(name) == plain_name(name)
        &&& (spec::constraint_reason(input) is None) == plain_constraints(input)
    }) by {
        which_names_pass(m.inputs[k].0, path);
    }
    assert forall|k: int| 0 <= k < m.outputs.len() implies ({
        let (name, output) = #[trigger] m.outputs[k];
        &&& spec::safe_name(name) == plain_name(name)
        &&& paths::stays_below(output.path@) == plain_path(output.path@)
    }) by {
        which_names_pass(m.outputs[k].0, path);
        which_output_paths_pass(m.outputs[k].1.path@, path);
    }
    search::nothing_fails(m.inputs, spec::input_name_check(path));
    assert(forall|k: int| 0 <= k < m.inputs.len() ==> spec::input_name_check(path)(#[trigger] m.inputs[k]) is None);
    assert(forall|k: int| 0 <= k < i ==> spec::constraint_check(path)(#[trigger] m.inputs[k]) is None);
    search::first_failure_at(m.inputs, spec::constraint_check(path), i);
}

/// If all inputs pass, the first output, in name order, whose name does not pass
/// is reported.
pub proof fn first_bad_output_name_is_reported(
    m: ManifestView,
    script: ScriptProbe,
    path: Seq<char>,
    i: int,
)
    requires
        plain_name(m.name),
        m.script.len() > 0,
        m.script[0] == '/',
        script == (ScriptProbe::Found { executable: true }),
        m.timeout_seconds >= 1,
        forall|k: int|
            0 <= k < m.inputs.len() ==> {
                let name = (#[trigger] m.inputs[k]).0;
                &&& plain_name(name)
                &&& name != "id"@ && name != "name"@ && name != "workdir"@
                &&& name != "output_dir"@ && name != "metadata_path"@
            },
        forall|k: int| 0 <= k < m.inputs.len() ==> plain_constraints((#[trigger] m.inputs[k]).1),
        0 <= i < m.outputs.len(),
        forall|k: int| 0 <= k < i ==> plain_name((#[trigger] m.outputs[k]).0),
        !plain_name(m.outputs[i].0),
    ensures
        m.problem(script, path) == Some(
            ManifestErrorView::InvalidOutputName { name: m.outputs[i].0, path },
        ),
{
    which_names_pass(m.name, path);
    assert forall|k: int| 0 <= k < m.inputs.len() implies ({
        let (name, input) = #[trigger] m.inputs[k];
        &&& spec::safe_name(name) == plain_name(name)
        &&& (spec::constraint_reason(input) is None) == plain_constraints(input)
    }) by {
        which_names_pass(m.inputs[k].0, path);
    }
    assert forall|k: int| 0 <= k < m.outputs.len() implies ({
        let (name, output) = #[trigger] m.outputs[k];
        &&& spec::safe_name(name) == plain_name(name)
        &&& paths::stays_below(output.path@) == plain_path(output.path@)
    }) by {
        which_names_pass(m.outputs[k].0, path);
        which_output_paths_pass(m.outputs[k].1.path@, path);
    }
    search::nothing_fails(m.inputs, spec::input_name_check(path));
    assert(forall|k: int| 0 <= k < m.inputs.len() ==> spec::input_name_check(path)(#[trigger] m.inputs[k]) is None);
    search::nothing_fails(m.inputs, spec::constraint_check(path));
    assert(forall|k: int| 0 <= k < m.inputs.len() ==> spec::constraint_check(path)(#[trigger] m.inputs[k]) is None);
    assert(forall|k: int| 0 <= k < i ==> spec::output_name_check(path)(#[trigger] m.outputs[k]) is None);
    search::first_failure_at(m.outputs, spec::output_name_check(path), i);
}

/// If all inputs and all output names pass, the first output, in name order,
/// whose path does not pass is reported.
pub proof fn first_bad_output_path_is_reported(
    m: ManifestView,
    script: ScriptProbe,
    path: Seq<char>,
    i: int,
)
    requires
        plain_name(m.name),
        m.script.len() > 0,
        m.script[0] == '/',
        script == (ScriptProbe::Found { executable: true }),
        m.timeout_seconds >= 1,
        forall|k: int|
            0 <= k < m.inputs.len() ==> {
                let name = (#[trigger] m.inputs[k]).0;
                &&& plain_name(name)
                &&& name != "id"@ && name != "name"@ && name != "workdir"@
                &&& name != "output_dir"@ && name != "metadata_path"@
            },
        forall|k: int| 0 <= k < m.inputs.len() ==> plain_constraints((#[trigger] m.inputs[k]).1),
        forall|k: int| 0 <= k < m.outputs.len() ==> plain_name((#[trigger] m.outputs[k]).0),
        0 <= i < m.outputs.len(),
        forall|k: int| 0 <= k < i ==> plain_path((#[trigger] m.outputs[k]).1.path@),
        !plain_path(m.outputs[i].1.path@),
    ensures
        m.problem(script, path) == Some(
            ManifestErrorView::InvalidOutputPath { output: m.outputs[i].1.path@, path },
        ),
{
    which_names_pass(m.name, path);
    assert forall|k: int| 0 <= k < m.inputs.len() implies ({
        let (name, input) = #[trigger] m.inputs[k];
        &&& spec::safe_name(name) == plain_name(name)
        &&& (spec::constraint_reason(input) is None) == plain_constraints(input)
    }) by {
        which_names_pass(m.inputs[k].0, path);
    }
    assert forall|k: int| 0 <= k < m.outputs.len() implies ({
        let (name, output) = #[trigger] m.outputs[k];
        &&& spec::safe_name(name) == plain_name(name)
        &&& paths::stays_below(output.path@) == plain_path(output.path@)
    }) by {
        which_names_pass(m.outputs[k].0, path);
        which_output_paths_pass(m.outputs[k].1.path@, path);
    }
    search::nothing_fails(m.inputs, spec::input_name_check(path));
    assert(forall|k: int| 0 <= k < m.inputs.len() ==> spec::input_name_check(path)(#[trigger] m.inputs[k]) is None);
    search::nothing_fails(m.inputs, spec::constraint_check(path));
    assert(forall|k: int| 0 <= k < m.inputs.len() ==> spec::constraint_check(path)(#[trigger] m.inputs[k]) is None);
    search::nothing_fails(m.outputs, spec::output_name_check(path));
    assert(forall|k: int| 0 <= k < m.outputs.len() ==> spec::output_name_check(path)(#[trigger] m.outputs[k]) is None);
    assert(forall|k: int| 0 <= k < i ==> spec::output_path_check(path)(#[trigger] m.outputs[k]) is None);
    search::first_failure_at(m.outputs, spec::output_path_check(path), i);
}

/// The entry is a file whose name has something before its ending `.toml`, and
/// what was read from it.
pub open spec fn toml_file(entry: DirectoryEntry) -> Option<(Seq<char>, ManifestRead)> {
    match entry {
        DirectoryEntry::File { file_name, path, manifest } => {
            let n = file_name@.len() as int;
            if n >= 6 && file_name@[n - 5] == '.' && file_name@[n - 4] == 't' && file_name@[n - 3]
                == 'o' && file_name@[n - 2] == 'm' && file_name@[n - 1] == 'l' {
                Some((path@, manifest))
            } else {
                None
            }
        },
        _ => None,
    }
}

/// The entry is a manifest file with this manifest, which passes.
pub open spec fn brings(entry: DirectoryEntry, m: ManifestView) -> bool {
    toml_file(entry) matches Some((path, ManifestRead::Parsed { manifest, script })) && manifest@
        == m && manifest@.problem(script, path) is None
}

proof fn toml_names(file_name: Seq<char>)
    ensures
        paths::is_toml_name(file_name) == ({
            let n = file_name.len() as int;
            n >= 6 && file_name[n - 5] == '.' && file_name[n - 4] == 't' && file_name[n - 3] == 'o'
                && file_name[n - 2] == 'm' && file_name[n - 1] == 'l'
        }),
{
    reveal_strlit(".toml");
    let n = file_name.len() as int;
    if n >= 6 {
        let tail = file_name.skip(n - 5);
        assert(tail[0] == file_name[n - 5] && tail[1] == file_name[n - 4] && tail[2] == file_name[n
            - 3] && tail[3] == file_name[n - 2] && tail[4] == file_name[n - 1]);
        if file_name[n - 5] == '.' && file_name[n - 4] == 't' && file_name[n - 3] == 'o'
            && file_name[n - 2] == 'm' && file_name[n - 1] == 'l' {
            assert(tail =~= ".toml"@);
        }
    }
}

proof fn what_loaded(directory: Seq<char>, entries: Seq<DirectoryEntry>)
    requires
        store::loaded(directory, entries) is Ok,
    ensures
        ({
            let manifests = store::loaded(directory, entries)->Ok_0;
            &&& forall|e: int| 0 <= e < entries.len() ==> !((#[trigger] entries[e]) is Unreadable)
            &&& forall|e: int|
                0 <= e < entries.len() && toml_file(#[trigger] entries[e]) is Some ==> exists|
                    m: ManifestView,
                | #[trigger] brings(entries[e], m)
            &&& forall|e: int, f: int, m: ManifestView, n: ManifestView|
                0 <= e < f < entries.len() && #[trigger] brings(entries[e], m) && #[trigger] brings(
                    entries[f],
                    n,
                ) ==> m.name != n.name
            &&& names::names_sorted(manifests)
            &&& forall|e: int, m: ManifestView|
                0 <= e < entries.len() && #[trigger] brings(entries[e], m) ==> names::lookup(
                    manifests,
                    m.name,
                ) == Some(m)
            &&& forall|q: Seq<char>| #[trigger]
                names::has_name(manifests, q) ==> exists|e: int, m: ManifestView|
                    0 <= e < entries.len() && #[trigger] brings(entries[e], m) && m.name == q
        }),
    decreases entries.len(),
{
    if entries.len() > 0 {
        let rest = entries.drop_last();
        let last = entries.len() - 1;
        what_loaded(directory, rest);
        let before = store::loaded(directory, rest)->Ok_0;
        let manifests = store::loaded(directory, entries)->Ok_0;
        assert(!(entries[last] is Unreadable));
        if let DirectoryEntry::File { file_name, path, manifest } = entries[last] {
            toml_names(file_name@);
        }
        assert forall|e: int| 0 <= e < entries.len() implies !((
        #[trigger] entries[e]) is Unreadable) by {
            if e < last {
                assert(!(rest[e] is Unreadable));
            }
        }
        assert forall|e: int|
            0 <= e < entries.len() && toml_file(#[trigger] entries[e]) is Some implies exists|
            m: ManifestView,
        | #[trigger] brings(entries[e], m) by {
            if e < last {
                assert(toml_file(rest[e]) is Some);
            } else {
                let m = (toml_file(entries[e])->0).1->manifest@;
                assert(brings(entries[e], m));
            }
        }
        if toml_file(entries[last]) is Some {
            let m = (toml_file(entries[last])->0).1->manifest@;
            assert(brings(entries[last], m));
            assert(manifests == names::inserted(before, m.name, m));
            names::inserted_sorted(before, m.name, m);
            assert forall|e: int, k: ManifestView|
                0 <= e < entries.len() && #[trigger] brings(entries[e], k) implies names::lookup(
                manifests,
                k.name,
            ) == Some(k) by {
                names::inserted_lookup(before, m.name, m, k.name);
                if e < last {
                    assert(brings(rest[e], k));
                }
            }
            assert forall|q: Seq<char>| #[trigger]
                names::has_name(manifests, q) implies exists|e: int, k: ManifestView|
                0 <= e < entries.len() && #[trigger] brings(entries[e], k) && k.name == q by {
                names::inserted_lookup(before, m.name, m, q);
                if q != m.name {
                    assert(names::has_name(before, q));
                    let (e, k) = choose|e: int, k: ManifestView|
                        0 <= e < rest.len() && #[trigger] brings(rest[e], k) && k.name == q;
                    assert(brings(entries[e], k));
                }
            }
            assert forall|e: int, f: int, k: ManifestView, n: ManifestView|
                0 <= e < f < entries.len() && #[trigger] brings(entries[e], k) && #[trigger] brings(
                    entries[f],
                    n,
                ) implies k.name != n.name by {
                assert(brings(rest[e], k));
                if f < last {
                    assert(brings(rest[f], n));
                } else {
                    assert(names::lookup(before, k.name) == Some(k));
                }
            }
        } else {
            assert(manifests == before);
            assert forall|e: int, k: ManifestView|
                0 <= e < entries.len() && #[trigger] brings(entries[e], k) implies names::lookup(
                manifests,
                k.name,
            ) == Some(k) by {
                assert(brings(rest[e], k));
            }
            assert forall|q: Seq<char>| #[trigger]
                names::has_name(manifests, q) implies exists|e: int, k: ManifestView|
                0 <= e < entries.len() && #[trigger] brings(entries[e], k) && k.name == q by {
                let (e, k) = choose|e: int, k: ManifestView|
                    0 <= e < rest.len() && #[trigger] brings(rest[e], k) && k.name == q;
                assert(brings(entries[e], k));
            }
            assert forall|e: int, f: int, k: ManifestView, n: ManifestView|
                0 <= e < f < entries.len() && #[trigger] brings(entries[e], k) && #[trigger] brings(
                    entries[f],
                    n,
                ) implies k.name != n.name by {
                assert(brings(rest[e], k));
                assert(brings(rest[f], n));
            }
        }
    }
}

proof fn nothing_stops_loading(directory: Seq<char>, entries: Seq<DirectoryEntry>)
    requires
        ({
            &&& forall|e: int| 0 <= e < entries.len() ==> !((#[trigger] entries[e]) is Unreadable)
            &&& forall|e: int|
                0 <= e < entries.len() && toml_file(#[trigger] entries[e]) is Some ==> exists|
                    m: ManifestView,
                | #[trigger] brings(entries[e], m)
            &&& forall|e: int, f: int, m: ManifestView, n: ManifestView|
                0 <= e < f < entries.len() && #[trigger] brings(entries[e], m) && #[trigger] brings(
                    entries[f],
                    n,
                ) ==> m.name != n.name
        }),
    ensures
        store::loaded(directory, entries) is Ok,
    decreases entries.len(),
{
    if entries.len() > 0 {
        let rest = entries.drop_last();
        let last = entries.len() - 1;
        assert forall|e: int| 0 <= e < rest.len() implies !((#[trigger] rest[e]) is Unreadable) by {
            assert(!(entries[e] is Unreadable));
        }
        assert forall|e: int|
            0 <= e < rest.len() && toml_file(#[trigger] rest[e]) is Some implies exists|
            m: ManifestView,
        | #[trigger] brings(rest[e], m) by {
            assert(toml_file(entries[e]) is Some);
        }
        assert forall|e: int, f: int, m: ManifestView, n: ManifestView|
            0 <= e < f < rest.len() && #[trigger] brings(rest[e], m) && #[trigger] brings(
                rest[f],
                n,
            ) implies m.name != n.name by {
            assert(brings(entries[e], m) && brings(entries[f], n));
        }
        nothing_stops_loading(directory, rest);
        what_loaded(directory, rest);
        let before = store::loaded(directory, rest)->Ok_0;
        assert(!(entries[last] is Unreadable));
        if let DirectoryEntry::File { file_name, path, manifest } = entries[last] {
            toml_names(file_name@);
        }
        if toml_file(entries[last]) is Some {
            let m = choose|m: ManifestView| #[trigger] brings(entries[last], m);
            if names::has_name(before, m.name) {
                let (e, k) = choose|e: int, k: ManifestView|
                    0 <= e < rest.len() && #[trigger] brings(rest[e], k) && k.name == m.name;
                assert(brings(entries[e], k));
            }
        }
    }
}

/// A directory loads exactly if every entry can be read, every file of it that
/// is named as a manifest holds one that passes, and no two of them are of one
/// name. It then holds, under their names, the manifests of those files and no
/// others.
pub proof fn which_directories_load(directory: Seq<char>, entries: Seq<DirectoryEntry>)
    ensures
        (store::loaded(directory, entries) is Ok) == {
            &&& forall|e: int| 0 <= e < entries.len() ==> !((#[trigger] entries[e]) is Unreadable)
            &&& forall|e: int|
                0 <= e < entries.len() && toml_file(#[trigger] entries[e]) is Some ==> exists|
                    m: ManifestView,
                | #[trigger] brings(entries[e], m)
            &&& forall|e: int, f: int, m: ManifestView, n: ManifestView|
                0 <= e < f < entries.len() && #[trigger] brings(entries[e], m) && #[trigger] brings(
                    entries[f],
                    n,
                ) ==> m.name != n.name
        },
        store::loaded(directory, entries) matches Ok(manifests) ==> {
            &&& names::names_sorted(manifests)
            &&& forall|e: int, m: ManifestView|
                0 <= e < entries.len() && #[trigger] brings(entries[e], m) ==> names::lookup(
                    manifests,
                    m.name,
                ) == Some(m)
            &&& forall|q: Seq<char>| #[trigger]
                names::has_name(manifests, q) ==> exists|e: int, m: ManifestView|
                    0 <= e < entries.len() && #[trigger] brings(entries[e], m) && m.name == q
        },
{
    if store::loaded(directory, entries) is Ok {
        what_loaded(directory, entries);
    } else {
        let fine = {
            &&& forall|e: int| 0 <= e < entries.len() ==> !((#[trigger] entries[e]) is Unreadable)
            &&& forall|e: int|
                0 <= e < entries.len() && toml_file(#[trigger] entries[e]) is Some ==> exists|
                    m: ManifestView,
                | #[trigger] brings(entries[e], m)
            &&& forall|e: int, f: int, m: ManifestView, n: ManifestView|
                0 <= e < f < entries.len() && #[trigger] brings(entries[e], m) && #[trigger] brings(
                    entries[f],
                    n,
                ) ==> m.name != n.name
        };
        if fine {
            nothing_stops_loading(directory, entries);
        }
    }
}

/// Loading fails at the first entry that stands in its way, whatever comes after
/// it: one that cannot be read, a manifest file that cannot be read or parsed or
/// that does not pass, and a second manifest of one name.
pub proof fn first_bad_entry_is_reported(
    directory: Seq<char>,
    entries: Seq<DirectoryEntry>,
    e: int,
)
    requires
        0 <= e < entries.len(),
        store::loaded(directory, entries.take(e)) is Ok,
    ensures
        match entries[e] {
            DirectoryEntry::Unreadable(source) => store::loaded(directory, entries) == Err::<
                Seq<(Seq<char>, ManifestView)>,
                _,
            >(ManifestErrorView::ReadDirEntry { path: directory, source: source@ }),
            _ => true,
        },
        match toml_file(entries[e]) {
            Some((path, ManifestRead::Unreadable(source))) => store::loaded(directory, entries)
                == Err::<Seq<(Seq<char>, ManifestView)>, _>(
                ManifestErrorView::ReadFile { path, source: source@ },
            ),
            Some((path, ManifestRead::Unparsable(source))) => store::loaded(directory, entries)
                == Err::<Seq<(Seq<char>, ManifestView)>, _>(
                ManifestErrorView::ParseFile { path, source: source@ },
            ),
            Some((path, ManifestRead::Parsed { manifest, script })) => {
                &&& manifest@.problem(script, path) matches Some(problem) ==> store::loaded(
                    directory,
                    entries,
                ) == Err::<Seq<(Seq<char>, ManifestView)>, _>(problem)
                &&& manifest@.problem(script, path) is None && (exists|f: int, m: ManifestView|
                    0 <= f < e && #[trigger] brings(entries[f], m) && m.name == manifest@.name)
                    ==> store::loaded(directory, entries) == Err::<
                    Seq<(Seq<char>, ManifestView)>,
                    _,
                >(ManifestErrorView::DuplicateJobName { name: manifest@.name, path })
            },
            None => true,
        },
{
    let front = entries.take(e);
    let upto = entries.take(e + 1);
    assert(upto.drop_last() =~= front);
    assert(upto.last() == entries[e]);
    what_loaded(directory, front);
    if let DirectoryEntry::File { file_name, path, manifest } = entries[e] {
        toml_names(file_name@);
    }
    assert forall|f: int, m: ManifestView|
        0 <= f < e && #[trigger] brings(entries[f], m) implies names::has_name(
        store::loaded(directory, front)->Ok_0,
        m.name,
    ) by {
        assert(brings(front[f], m));
    }
    if store::loaded(directory, upto) is Err {
        failure_stays(directory, entries, e + 1);
    }
}

proof fn failure_stays(directory: Seq<char>, entries: Seq<DirectoryEntry>, n: int)
    requires
        0 <= n <= entries.len(),
        store::loaded(directory, entries.take(n)) is Err,
    ensures
        store::loaded(directory, entries) == store::loaded(directory, entries.take(n)),
    decreases entries.len(),
{
    if n < entries.len() {
        let rest = entries.drop_last();
        assert(rest.take(n) =~= entries.take(n));
        failure_stays(directory, rest, n);
    } else {
        assert(entries.take(n) =~= entries);
    }
}

/// A directory that cannot be listed gives no manifests, and why is reported.
pub proof fn unlisted_directories_are_reported(path: Seq<char>, source: String)
    ensures
        store::loaded_directory(path, DirectoryRead::Unreadable(source)) == Err::<
            Seq<(Seq<char>, ManifestView)>,
            _,
        >(ManifestErrorView::ReadDir { path, source: source@ }),
        store::loaded_directory(path, DirectoryRead::NotDirectory) == Err::<
            Seq<(Seq<char>, ManifestView)>,
            _,
        >(ManifestErrorView::NotDirectory { path }),
{
}

} // verus!
