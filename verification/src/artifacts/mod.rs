//! Artifacts: uploaded or produced files that expire.
pub mod api;
pub mod error;
pub mod laws;
pub mod metadata;
pub mod store;
pub mod sweep;

pub use error::ArtifactError;
pub use metadata::{ArtifactMetadata, StoredArtifact};
pub use store::{ArtifactStore, BlobFile, MetadataFile};
pub use sweep::{ArtifactEntry, Sweep};
