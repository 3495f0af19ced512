//! A single job manifest and the rules that it has to meet.
use vstd::prelude::*;

use crate::manifest::error::{ManifestError, ManifestErrorView};
use crate::names::NameMap;
use crate::paths;
use crate::pattern;
use crate::schema::{Concurrency, InputType, OutputType};
use crate::search;
use crate::text;

verus! {

/// A declared input of a job.
#[derive(Debug, PartialEq, Eq)]
pub struct InputSpec {
    pub kind: InputType,
    pub required: bool,
    pub sensitive: bool,
    pub max_length: Option<usize>,
    pub pattern: Option<String>,
    pub max_json_bytes: Option<usize>,
}

impl Clone for InputSpec {
    fn clone(&self) -> (r: Self)
        ensures
            r == *self,
    {
        InputSpec {
            kind: self.kind,
            required: self.required,
            sensitive: self.sensitive,
            max_length: self.max_length,
            pattern: match &self.pattern {
                Some(pattern) => Some(pattern.clone()),
                None => None,
            },
            max_json_bytes: self.max_json_bytes,
        }
    }
}

/// A declared output of a job: a file below the job's output directory.
#[derive(Debug, PartialEq, Eq)]
pub struct OutputSpec {
    pub kind: OutputType,
    pub path: String,
    pub required: bool,
}

impl Clone for OutputSpec {
    fn clone(&self) -> (r: Self)
        ensures
            r == *self,
    {
        OutputSpec { kind: self.kind, path: self.path.clone(), required: self.required }
    }
}

/// A job that the runner can run.
#[derive(Debug, PartialEq, Eq)]
pub struct JobManifest {
    pub name: String,
    pub script: String,
    pub timeout_seconds: u64,
    pub concurrency: Concurrency,
    pub inputs: NameMap<InputSpec>,
    pub outputs: NameMap<OutputSpec>,
}

/// The mathematical counterpart of `JobManifest`.
pub struct ManifestView {
    pub name: Seq<char>,
    pub script: Seq<char>,
    pub timeout_seconds: u64,
    pub concurrency: Concurrency,
    pub inputs: Seq<(Seq<char>, InputSpec)>,
    pub outputs: Seq<(Seq<char>, OutputSpec)>,
}

impl View for JobManifest {
    type V = ManifestView;

    open spec fn view(&self) -> ManifestView {
        ManifestView {
            name: self.name@,
            script: self.script@,
            timeout_seconds: self.timeout_seconds,
            concurrency: self.concurrency,
            inputs: self.inputs@,
            outputs: self.outputs@,
        }
    }
}

impl Clone for JobManifest {
    fn clone(&self) -> (r: Self)
        ensures
            r@ == self@,
    {
        let inputs = self.inputs.clone();
        let outputs = self.outputs.clone();
        assert(inputs@ =~= self.inputs@);
        assert(outputs@ =~= self.outputs@);
        JobManifest {
            name: self.name.clone(),
            script: self.script.clone(),
            timeout_seconds: self.timeout_seconds,
            concurrency: self.concurrency,
            inputs,
            outputs,
        }
    }
}

/// What the file system says of a manifest's script.
#[derive(Debug)]
pub enum ScriptProbe {
    Missing,
    Unreadable(String),
    Found { executable: bool },
}

/// A name that is safe in paths and environment variables: an ASCII letter,
/// then letters, digits, `_` and `-`.
pub open spec fn safe_name(name: Seq<char>) -> bool {
    &&& name.len() > 0
    &&& text::is_alphanumeric(name[0])
    &&& !('0' <= name[0] && name[0] <= '9')
    &&& forall|i: int|
        0 <= i < name.len() ==> text::is_alphanumeric(#[trigger] name[i]) || name[i] == '_'
            || name[i] == '-'
}

/// An input name whose environment variable the runner sets itself.
pub open spec fn reserved_input_name(name: Seq<char>) -> bool {
    ||| name == "id"@
    ||| name == "name"@
    ||| name == "workdir"@
    ||| name == "output_dir"@
    ||| name == "metadata_path"@
}

pub fn is_safe_name(name: &str) -> (r: bool)
    ensures
        r == safe_name(name@),
{
    let chars = text::chars_of(name);
    if chars.len() == 0 || !text::alphanumeric(chars[0]) || (chars[0] >= '0' && chars[0] <= '9') {
        return false;
    }
    let mut i: usize = 0;
    while i < chars.len()
        invariant
            i <= chars.len(),
            chars@ == name@,
            forall|k: int|
                0 <= k < i ==> text::is_alphanumeric(#[trigger] name@[k]) || name@[k] == '_'
                    || name@[k] == '-',
        decreases chars.len() - i,
    {
        if !text::alphanumeric(chars[i]) && chars[i] != '_' && chars[i] != '-' {
            assert(!text::is_alphanumeric(name@[i as int]));
            return false;
        }
        i += 1;
    }
    true
}

pub fn is_reserved_input_name(name: &str) -> (r: bool)
    ensures
        r == reserved_input_name(name@),
{
    text::same(name, "id") || text::same(name, "name") || text::same(name, "workdir")
        || text::same(name, "output_dir") || text::same(name, "metadata_path")
}

/// What is wrong with a manifest's job name.
pub open spec fn job_name_problem(name: Seq<char>, path: Seq<char>) -> Option<ManifestErrorView> {
    if safe_name(name) {
        None
    } else {
        Some(ManifestErrorView::InvalidJobName { name, path })
    }
}

pub fn validate_job_name(name: &str, path: &str) -> (r: Result<(), ManifestError>)
    ensures
        reports(r, job_name_problem(name@, path@)),
{
    if !is_safe_name(name) {
        return Err(ManifestError::InvalidJobName { name: name.to_owned(), path: path.to_owned() });
    }
    Ok(())
}

/// The result says exactly what the problem is: `Ok` where there is none.
pub open spec fn reports<T>(r: Result<T, ManifestError>, problem: Option<ManifestErrorView>) -> bool {
    match r {
        Ok(_) => problem is None,
        Err(e) => problem == Some(e@),
    }
}

/// What is wrong with an input's name.
pub open spec fn input_name_problem(name: Seq<char>, path: Seq<char>) -> Option<ManifestErrorView> {
    if safe_name(name) && !reserved_input_name(name) {
        None
    } else {
        Some(ManifestErrorView::InvalidInputName { name, path })
    }
}

pub fn validate_input_name(name: &str, path: &str) -> (r: Result<(), ManifestError>)
    ensures
        reports(r, input_name_problem(name@, path@)),
{
    if !is_safe_name(name) || is_reserved_input_name(name) {
        return Err(
            ManifestError::InvalidInputName { name: name.to_owned(), path: path.to_owned() },
        );
    }
    Ok(())
}

/// What is wrong with an output's name.
pub open spec fn output_name_problem(name: Seq<char>, path: Seq<char>) -> Option<
    ManifestErrorView,
> {
    if safe_name(name) {
        None
    } else {
        Some(ManifestErrorView::InvalidOutputName { name, path })
    }
}

pub fn validate_output_name(name: &str, path: &str) -> (r: Result<(), ManifestError>)
    ensures
        reports(r, output_name_problem(name@, path@)),
{
    if !is_safe_name(name) {
        return Err(
            ManifestError::InvalidOutputName { name: name.to_owned(), path: path.to_owned() },
        );
    }
    Ok(())
}

/// What is wrong with an output's path.
pub open spec fn output_path_problem(output: Seq<char>, path: Seq<char>) -> Option<
    ManifestErrorView,
> {
    if paths::stays_below(output) {
        None
    } else {
        Some(ManifestErrorView::InvalidOutputPath { output, path })
    }
}

pub fn validate_output_path(output: &str, path: &str) -> (r: Result<(), ManifestError>)
    ensures
        reports(r, output_path_problem(output@, path@)),
{
    if !paths::below(output) {
        return Err(
            ManifestError::InvalidOutputPath { output: output.to_owned(), path: path.to_owned() },
        );
    }
    Ok(())
}

/// What is wrong with a manifest's script.
pub open spec fn script_problem(
    script: Seq<char>,
    probe: ScriptProbe,
    path: Seq<char>,
) -> Option<ManifestErrorView> {
    if !paths::is_absolute(script) {
        Some(ManifestErrorView::ScriptNotAbsolute { script, path })
    } else {
        match probe {
            ScriptProbe::Missing => Some(ManifestErrorView::ScriptNotFound { script, path }),
            ScriptProbe::Unreadable(source) => Some(
                ManifestErrorView::ReadFile { path: script, source: source@ },
            ),
            ScriptProbe::Found { executable: false } => Some(
                ManifestErrorView::ScriptNotExecutable { script, path },
            ),
            ScriptProbe::Found { executable: true } => None,
        }
    }
}

pub fn validate_script_path(script: &str, probe: &ScriptProbe, path: &str) -> (r: Result<
    (),
    ManifestError,
>)
    ensures
        reports(r, script_problem(script@, *probe, path@)),
{
    if !paths::absolute(script) {
        return Err(
            ManifestError::ScriptNotAbsolute { script: script.to_owned(), path: path.to_owned() },
        );
    }
    match probe {
        ScriptProbe::Missing => Err(
            ManifestError::ScriptNotFound { script: script.to_owned(), path: path.to_owned() },
        ),
        ScriptProbe::Unreadable(source) => Err(
            ManifestError::ReadFile { path: script.to_owned(), source: source.clone() },
        ),
        ScriptProbe::Found { executable } => {
            if !*executable {
                return Err(
                    ManifestError::ScriptNotExecutable {
                        script: script.to_owned(),
                        path: path.to_owned(),
                    },
                );
            }
            Ok(())
        },
    }
}

/// Why an input's constraints cannot be used: the first of those that is not
/// positive, does not fit the input's type, or is no regular expression.
pub open spec fn constraint_reason(spec: InputSpec) -> Option<Seq<char>> {
    let length = match spec.max_length {
        Some(n) => if n == 0 {
            Some("max_length must be positive"@)
        } else if !(spec.kind is String) {
            Some("max_length is only supported for string inputs"@)
        } else {
            None
        },
        None => None,
    };
    let pattern = match spec.pattern {
        Some(p) => if !(spec.kind is String) {
            Some("pattern is only supported for string inputs"@)
        } else {
            match pattern::pattern_problem(p@) {
                Some(problem) => Some("invalid regex pattern: "@ + problem),
                None => None,
            }
        },
        None => None,
    };
    let json = match spec.max_json_bytes {
        Some(n) => if n == 0 {
            Some("max_json_bytes must be positive"@)
        } else if !(spec.kind is Json) {
            Some("max_json_bytes is only supported for json inputs"@)
        } else {
            None
        },
        None => None,
    };
    if length is Some {
        length
    } else if pattern is Some {
        pattern
    } else {
        json
    }
}

/// What is wrong with an input's constraints.
pub open spec fn constraint_problem(name: Seq<char>, spec: InputSpec, path: Seq<char>) -> Option<
    ManifestErrorView,
> {
    match constraint_reason(spec) {
        Some(reason) => Some(ManifestErrorView::InvalidInputConstraint { name, path, reason }),
        None => None,
    }
}

fn bad_constraint(name: &str, path: &str, reason: &str) -> (r: Result<(), ManifestError>)
    ensures
        r matches Err(e) && e@ == (ManifestErrorView::InvalidInputConstraint {
            name: name@,
            path: path@,
            reason: reason@,
        }),
{
    Err(
        ManifestError::InvalidInputConstraint {
            name: name.to_owned(),
            path: path.to_owned(),
            reason: reason.to_owned(),
        },
    )
}

pub fn validate_input_constraints(name: &str, spec: &InputSpec, path: &str) -> (r: Result<
    (),
    ManifestError,
>)
    ensures
        reports(r, constraint_problem(name@, *spec, path@)),
{
    if let Some(max_length) = spec.max_length {
        if max_length == 0 {
            return bad_constraint(name, path, "max_length must be positive");
        }
        if spec.kind != InputType::String {
            return bad_constraint(name, path, "max_length is only supported for string inputs");
        }
    }
    if let Some(pattern) = &spec.pattern {
        if spec.kind != InputType::String {
            return bad_constraint(name, path, "pattern is only supported for string inputs");
        }
        if let Err(problem) = pattern::check_pattern(pattern.as_str()) {
            let mut reason = "invalid regex pattern: ".to_owned();
            reason.append(problem.as_str());
            return bad_constraint(name, path, reason.as_str());
        }
    }
    if let Some(max_json_bytes) = spec.max_json_bytes {
        if max_json_bytes == 0 {
            return bad_constraint(name, path, "max_json_bytes must be positive");
        }
        if spec.kind != InputType::Json {
            return bad_constraint(name, path, "max_json_bytes is only supported for json inputs");
        }
    }
    Ok(())
}

pub open spec fn input_name_check(path: Seq<char>) -> spec_fn((Seq<char>, InputSpec)) -> Option<
    ManifestErrorView,
> {
    |input: (Seq<char>, InputSpec)| input_name_problem(input.0, path)
}

pub open spec fn constraint_check(path: Seq<char>) -> spec_fn((Seq<char>, InputSpec)) -> Option<
    ManifestErrorView,
> {
    |input: (Seq<char>, InputSpec)| constraint_problem(input.0, input.1, path)
}

pub open spec fn output_name_check(path: Seq<char>) -> spec_fn((Seq<char>, OutputSpec)) -> Option<
    ManifestErrorView,
> {
    |output: (Seq<char>, OutputSpec)| output_name_problem(output.0, path)
}

pub open spec fn output_path_check(path: Seq<char>) -> spec_fn((Seq<char>, OutputSpec)) -> Option<
    ManifestErrorView,
> {
    |output: (Seq<char>, OutputSpec)| output_path_problem(output.1.path@, path)
}

impl ManifestView {
    /// What is wrong with the manifest at `path`: of all its problems the one
    /// that is met first, going through the job name, the script, the timeout,
    /// the input names, the input constraints, the output names and the output
    /// paths, each of the last four in name order.
    pub open spec fn problem(self, script: ScriptProbe, path: Seq<char>) -> Option<
        ManifestErrorView,
    > {
        if job_name_problem(self.name, path) is Some {
            job_name_problem(self.name, path)
        } else if script_problem(self.script, script, path) is Some {
            script_problem(self.script, script, path)
        } else if self.timeout_seconds == 0 {
            Some(ManifestErrorView::InvalidTimeout { path })
        } else if search::first_failure(self.inputs, input_name_check(path)) is Some {
            search::first_failure(self.inputs, input_name_check(path))
        } else if search::first_failure(self.inputs, constraint_check(path)) is Some {
            search::first_failure(self.inputs, constraint_check(path))
        } else if search::first_failure(self.outputs, output_name_check(path)) is Some {
            search::first_failure(self.outputs, output_name_check(path))
        } else {
            search::first_failure(self.outputs, output_path_check(path))
        }
    }

    /// A manifest without a problem, as far as the manifest itself tells.
    pub open spec fn sound(self) -> bool {
        &&& safe_name(self.name)
        &&& paths::is_absolute(self.script)
        &&& self.timeout_seconds > 0
        &&& forall|i: int|
            0 <= i < self.inputs.len() ==> safe_name((#[trigger] self.inputs[i]).0)
                && !reserved_input_name(self.inputs[i].0)
        &&& forall|i: int|
            0 <= i < self.inputs.len() ==> constraint_reason((#[trigger] self.inputs[i]).1) is None
        &&& forall|i: int|
            0 <= i < self.outputs.len() ==> safe_name((#[trigger] self.outputs[i]).0)
                && paths::stays_below(self.outputs[i].1.path@)
    }
}

/// A manifest passes validation exactly when it is sound and its script is an
/// executable file.
pub proof fn no_problem_is_sound(manifest: ManifestView, script: ScriptProbe, path: Seq<char>)
    ensures
        (manifest.problem(script, path) is None) == (manifest.sound() && script
            == (ScriptProbe::Found { executable: true })),
{
    search::nothing_fails(manifest.inputs, input_name_check(path));
    search::nothing_fails(manifest.inputs, constraint_check(path));
    search::nothing_fails(manifest.outputs, output_name_check(path));
    search::nothing_fails(manifest.outputs, output_path_check(path));
    let (inputs, outputs) = (manifest.inputs, manifest.outputs);
    if manifest.problem(script, path) is None {
        assert forall|i: int| 0 <= i < inputs.len() implies safe_name((#[trigger] inputs[i]).0)
            && !reserved_input_name(inputs[i].0) by {
            assert(input_name_check(path)(inputs[i]) is None);
        }
        assert forall|i: int| 0 <= i < inputs.len() implies constraint_reason(
            (#[trigger] inputs[i]).1,
        ) is None by {
            assert(constraint_check(path)(inputs[i]) is None);
        }
        assert forall|i: int| 0 <= i < outputs.len() implies safe_name((#[trigger] outputs[i]).0)
            && paths::stays_below(outputs[i].1.path@) by {
            assert(output_name_check(path)(outputs[i]) is None);
            assert(output_path_check(path)(outputs[i]) is None);
        }
    }
    if manifest.sound() && script == (ScriptProbe::Found { executable: true }) {
        assert forall|i: int| 0 <= i < outputs.len() implies output_path_check(path)(
            #[trigger] outputs[i],
        ) is None by {
            assert(safe_name(outputs[i].0));
        }
    }
}

impl JobManifest {
    /// Holds the manifest that was read from `path` to the rules.
    pub fn validate(&self, script: &ScriptProbe, path: &str) -> (r: Result<(), ManifestError>)
        ensures
            reports(r, self@.problem(*script, path@)),
    {
        validate_job_name(self.name.as_str(), path)?;
        validate_script_path(self.script.as_str(), script, path)?;
        if self.timeout_seconds == 0 {
            return Err(ManifestError::InvalidTimeout { path: path.to_owned() });
        }
        self.validate_inputs(path)?;
        self.validate_outputs(path)
    }

    fn validate_inputs(&self, path: &str) -> (r: Result<(), ManifestError>)
        ensures
            reports(
                r,
                if search::first_failure(self.inputs@, input_name_check(path@)) is Some {
                    search::first_failure(self.inputs@, input_name_check(path@))
                } else {
                    search::first_failure(self.inputs@, constraint_check(path@))
                },
            ),
    {
        let n = self.inputs.len();
        let mut i: usize = 0;
        while i < n
            invariant
                i <= n,
                n == self.inputs@.len(),
                forall|j: int|
                    0 <= j < i ==> input_name_check(path@)(#[trigger] self.inputs@[j]) is None,
            decreases n - i,
        {
            if let Err(e) = validate_input_name(self.inputs.name_at(i).as_str(), path) {
                proof {
                    search::first_failure_at(self.inputs@, input_name_check(path@), i as int);
                }
                return Err(e);
            }
            i += 1;
        }
        proof {
            search::nothing_fails(self.inputs@, input_name_check(path@));
        }
        i = 0;
        while i < n
            invariant
                i <= n,
                n == self.inputs@.len(),
                search::first_failure(self.inputs@, input_name_check(path@)) is None,
                forall|j: int|
                    0 <= j < i ==> constraint_check(path@)(#[trigger] self.inputs@[j]) is None,
            decreases n - i,
        {
            let name = self.inputs.name_at(i).as_str();
            if let Err(e) = validate_input_constraints(name, self.inputs.value_at(i), path) {
                proof {
                    search::first_failure_at(self.inputs@, constraint_check(path@), i as int);
                }
                return Err(e);
            }
            i += 1;
        }
        proof {
            search::nothing_fails(self.inputs@, constraint_check(path@));
        }
        Ok(())
    }

    fn validate_outputs(&self, path: &str) -> (r: Result<(), ManifestError>)
        ensures
            reports(
                r,
                if search::first_failure(self.outputs@, output_name_check(path@)) is Some {
                    search::first_failure(self.outputs@, output_name_check(path@))
                } else {
                    search::first_failure(self.outputs@, output_path_check(path@))
                },
            ),
    {
        let n = self.outputs.len();
        let mut i: usize = 0;
        while i < n
            invariant
                i <= n,
                n == self.outputs@.len(),
                forall|j: int|
                    0 <= j < i ==> output_name_check(path@)(#[trigger] self.outputs@[j]) is None,
            decreases n - i,
        {
            if let Err(e) = validate_output_name(self.outputs.name_at(i).as_str(), path) {
                proof {
                    search::first_failure_at(self.outputs@, output_name_check(path@), i as int);
                }
                return Err(e);
            }
            i += 1;
        }
        proof {
            search::nothing_fails(self.outputs@, output_name_check(path@));
        }
        i = 0;
        while i < n
            invariant
                i <= n,
                n == self.outputs@.len(),
                search::first_failure(self.outputs@, output_name_check(path@)) is None,
                forall|j: int|
                    0 <= j < i ==> output_path_check(path@)(#[trigger] self.outputs@[j]) is None,
            decreases n - i,
        {
            if let Err(e) = validate_output_path(self.outputs.value_at(i).path.as_str(), path) {
                proof {
                    search::first_failure_at(self.outputs@, output_path_check(path@), i as int);
                }
                return Err(e);
            }
            i += 1;
        }
        proof {
            search::nothing_fails(self.outputs@, output_path_check(path@));
        }
        Ok(())
    }
}

} // verus!
