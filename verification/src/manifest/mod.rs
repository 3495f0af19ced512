//! Job manifests: what jobs there are, what they take and what they leave.
pub mod error;
pub mod laws;
pub mod spec;
pub mod store;

pub use error::ManifestError;
pub use spec::{InputSpec, JobManifest, OutputSpec, ScriptProbe};
pub use store::{DirectoryEntry, DirectoryRead, ManifestRead, ManifestStore};
