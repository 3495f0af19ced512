//! Artifacts as the protocol speaks of them.
use vstd::prelude::*;

use crate::artifacts::metadata::ArtifactMetadata;

verus! {

/// The answer to an upload.
#[derive(Debug, Clone, PartialEq, Eq)]
pub struct ArtifactUploadResponse {
    pub artifact_id: String,
    pub sha256: String,
    pub size: u64,
    pub expires_at: String,
}

impl From<ArtifactMetadata> for ArtifactUploadResponse {
    fn from(value: ArtifactMetadata) -> (r: Self) {
        ArtifactUploadResponse {
            artifact_id: value.artifact_id,
            sha256: value.sha256,
            size: value.size,
            expires_at: value.expires_at,
        }
    }
}

impl vstd::std_specs::convert::FromSpecImpl<ArtifactMetadata> for ArtifactUploadResponse {
    open spec fn obeys_from_spec() -> bool {
        true
    }

    open spec fn from_spec(value: ArtifactMetadata) -> Self {
        ArtifactUploadResponse {
            artifact_id: value.artifact_id,
            sha256: value.sha256,
            size: value.size,
            expires_at: value.expires_at,
        }
    }
}

} // verus!
