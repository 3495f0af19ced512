//! What can be wrong with job manifests.
use vstd::prelude::*;

verus! {

/// A manifest, or a directory of them, that cannot be used. A `source` is the message of the cause.
#[derive(Debug)]
pub enum ManifestError {
    ReadDir { path: String, source: String },
    ReadDirEntry { path: String, source: String },
    NotDirectory { path: String },
    ReadFile { path: String, source: String },
    ParseFile { path: String, source: String },
    DuplicateJobName { name: String, path: String },
    InvalidJobName { name: String, path: String },
    InvalidInputName { name: String, path: String },
    InvalidInputConstraint { name: String, path: String, reason: String },
    InvalidOutputName { name: String, path: String },
    InvalidOutputPath { output: String, path: String },
    InvalidTimeout { path: String },
    ScriptNotAbsolute { script: String, path: String },
    ScriptNotFound { script: String, path: String },
    ScriptNotExecutable { script: String, path: String },
}

/// The mathematical counterpart of `ManifestError`.
pub enum ManifestErrorView {
    ReadDir { path: Seq<char>, source: Seq<char> },
    ReadDirEntry { path: Seq<char>, source: Seq<char> },
    NotDirectory { path: Seq<char> },
    ReadFile { path: Seq<char>, source: Seq<char> },
    ParseFile { path: Seq<char>, source: Seq<char> },
    DuplicateJobName { name: Seq<char>, path: Seq<char> },
    InvalidJobName { name: Seq<char>, path: Seq<char> },
    InvalidInputName { name: Seq<char>, path: Seq<char> },
    InvalidInputConstraint { name: Seq<char>, path: Seq<char>, reason: Seq<char> },
    InvalidOutputName { name: Seq<char>, path: Seq<char> },
    InvalidOutputPath { output: Seq<char>, path: Seq<char> },
    InvalidTimeout { path: Seq<char> },
    ScriptNotAbsolute { script: Seq<char>, path: Seq<char> },
    ScriptNotFound { script: Seq<char>, path: Seq<char> },
    ScriptNotExecutable { script: Seq<char>, path: Seq<char> },
}

impl View for ManifestError {
    type V = ManifestErrorView;

    open spec fn view(&self) -> ManifestErrorView {
        match self {
            ManifestError::ReadDir { path, source } => ManifestErrorView::ReadDir { path: path@, source: source@ },
            ManifestError::ReadDirEntry { path, source } => ManifestErrorView::ReadDirEntry { path: path@, source: source@ },
            ManifestError::NotDirectory { path } => ManifestErrorView::NotDirectory { path: path@ },
            ManifestError::ReadFile { path, source } => ManifestErrorView::ReadFile { path: path@, source: source@ },
            ManifestError::ParseFile { path, source } => ManifestErrorView::ParseFile { path: path@, source: source@ },
            ManifestError::DuplicateJobName { name, path } => ManifestErrorView::DuplicateJobName { name: name@, path: path@ },
            ManifestError::InvalidJobName { name, path } => ManifestErrorView::InvalidJobName { name: name@, path: path@ },
            ManifestError::InvalidInputName { name, path } => ManifestErrorView::InvalidInputName { name: name@, path: path@ },
            ManifestError::InvalidInputConstraint { name, path, reason } => ManifestErrorView::InvalidInputConstraint { name: name@, path: path@, reason: reason@ },
            ManifestError::InvalidOutputName { name, path } => ManifestErrorView::InvalidOutputName { name: name@, path: path@ },
            ManifestError::InvalidOutputPath { output, path } => ManifestErrorView::InvalidOutputPath { output: output@, path: path@ },
            ManifestError::InvalidTimeout { path } => ManifestErrorView::InvalidTimeout { path: path@ },
            ManifestError::ScriptNotAbsolute { script, path } => ManifestErrorView::ScriptNotAbsolute { script: script@, path: path@ },
            ManifestError::ScriptNotFound { script, path } => ManifestErrorView::ScriptNotFound { script: script@, path: path@ },
            ManifestError::ScriptNotExecutable { script, path } => ManifestErrorView::ScriptNotExecutable { script: script@, path: path@ },
        }
    }
}

impl ManifestErrorView {
    /// The message that tells a person what went wrong.
    pub open spec fn message(self) -> Seq<char> {
        match self {
            ManifestErrorView::ReadDir { path, source } => "failed to read manifests directory "@ + path + ": "@ + source,
            ManifestErrorView::ReadDirEntry { path, source } => "failed to read entry in manifests directory "@ + path + ": "@ + source,
            ManifestErrorView::NotDirectory { path } => "manifests path is not a directory: "@ + path,
            ManifestErrorView::ReadFile { path, source } => "failed to read manifest "@ + path + ": "@ + source,
            ManifestErrorView::ParseFile { path, source } => "failed to parse manifest "@ + path + ": "@ + source,
            ManifestErrorView::DuplicateJobName { name, path } => "duplicate job name "@ + name + " found in manifest "@ + path,
            ManifestErrorView::InvalidJobName { name, path } => "invalid job name "@ + name + " in manifest "@ + path,
            ManifestErrorView::InvalidInputName { name, path } => "invalid input name "@ + name + " in manifest "@ + path,
            ManifestErrorView::InvalidInputConstraint { name, path, reason } => "invalid input constraint for "@ + name + " in manifest "@ + path + ": "@ + reason,
            ManifestErrorView::InvalidOutputName { name, path } => "invalid output name "@ + name + " in manifest "@ + path,
            ManifestErrorView::InvalidOutputPath { output, path } => "invalid output path "@ + output + " in manifest "@ + path,
            ManifestErrorView::InvalidTimeout { path } => "timeout_seconds must be positive in manifest "@ + path,
            ManifestErrorView::ScriptNotAbsolute { script, path } => "script "@ + script + " must be an absolute path in manifest "@ + path,
            ManifestErrorView::ScriptNotFound { script, path } => "script "@ + script + " does not exist for manifest "@ + path,
            ManifestErrorView::ScriptNotExecutable { script, path } => "script "@ + script + " is not executable for manifest "@ + path,
        }
    }
}

impl ManifestError {
    /// The message that tells a person what went wrong.
    pub fn message(&self) -> (r: String)
        ensures
            r@ == self@.message(),
    {
        match self {
            ManifestError::ReadDir { path, source } => {
                let mut out = "failed to read manifests directory ".to_owned();
                out.append(path.as_str());
                out.append(": ");
                out.append(source.as_str());
                out
            },
            ManifestError::ReadDirEntry { path, source } => {
                let mut out = "failed to read entry in manifests directory ".to_owned();
                out.append(path.as_str());
                out.append(": ");
                out.append(source.as_str());
                out
            },
            ManifestError::NotDirectory { path } => {
                let mut out = "manifests path is not a directory: ".to_owned();
                out.append(path.as_str());
                out
            },
            ManifestError::ReadFile { path, source } => {
                let mut out = "failed to read manifest ".to_owned();
                out.append(path.as_str());
                out.append(": ");
                out.append(source.as_str());
                out
            },
            ManifestError::ParseFile { path, source } => {
                let mut out = "failed to parse manifest ".to_owned();
                out.append(path.as_str());
                out.append(": ");
                out.append(source.as_str());
                out
            },
            ManifestError::DuplicateJobName { name, path } => {
                let mut out = "duplicate job name ".to_owned();
                out.append(name.as_str());
                out.append(" found in manifest ");
                out.append(path.as_str());
                out
            },
            ManifestError::InvalidJobName { name, path } => {
                let mut out = "invalid job name ".to_owned();
                out.append(name.as_str());
                out.append(" in manifest ");
                out.append(path.as_str());
                out
            },
            ManifestError::InvalidInputName { name, path } => {
                let mut out = "invalid input name ".to_owned();
                out.append(name.as_str());
                out.append(" in manifest ");
                out.append(path.as_str());
                out
            },
            ManifestError::InvalidInputConstraint { name, path, reason } => {
                let mut out = "invalid input constraint for ".to_owned();
                out.append(name.as_str());
                out.append(" in manifest ");
                out.append(path.as_str());
                out.append(": ");
                out.append(reason.as_str());
                out
            },
            ManifestError::InvalidOutputName { name, path } => {
                let mut out = "invalid output name ".to_owned();
                out.append(name.as_str());
                out.append(" in manifest ");
                out.append(path.as_str());
                out
            },
            ManifestError::InvalidOutputPath { output, path } => {
                let mut out = "invalid output path ".to_owned();
                out.append(output.as_str());
                out.append(" in manifest ");
                out.append(path.as_str());
                out
            },
            ManifestError::InvalidTimeout { path } => {
                let mut out = "timeout_seconds must be positive in manifest ".to_owned();
                out.append(path.as_str());
                out
            },
            ManifestError::ScriptNotAbsolute { script, path } => {
                let mut out = "script ".to_owned();
                out.append(script.as_str());
                out.append(" must be an absolute path in manifest ");
                out.append(path.as_str());
                out
            },
            ManifestError::ScriptNotFound { script, path } => {
                let mut out = "script ".to_owned();
                out.append(script.as_str());
                out.append(" does not exist for manifest ");
                out.append(path.as_str());
                out
            },
            ManifestError::ScriptNotExecutable { script, path } => {
                let mut out = "script ".to_owned();
                out.append(script.as_str());
                out.append(" is not executable for manifest ");
                out.append(path.as_str());
                out
            },
        }
    }
}

} // verus!
