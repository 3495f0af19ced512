//! What the runner keeps beside an artifact's bytes.
use vstd::prelude::*;

use crate::artifacts::error::{ArtifactError, ArtifactErrorView};
use crate::time;
use crate::time::UtcInstant;

verus! {

/// What is known of an artifact.
#[derive(Debug, PartialEq, Eq)]
pub struct ArtifactMetadata {
    pub artifact_id: String,
    pub sha256: String,
    pub size: u64,
    pub expires_at: String,
}

/// The mathematical counterpart of `ArtifactMetadata`.
pub struct ArtifactMetadataView {
    pub artifact_id: Seq<char>,
    pub sha256: Seq<char>,
    pub size: u64,
    pub expires_at: Seq<char>,
}

impl View for ArtifactMetadata {
    type V = ArtifactMetadataView;

    open spec fn view(&self) -> ArtifactMetadataView {
        ArtifactMetadataView {
            artifact_id: self.artifact_id@,
            sha256: self.sha256@,
            size: self.size,
            expires_at: self.expires_at@,
        }
    }
}

impl Clone for ArtifactMetadata {
    fn clone(&self) -> (r: Self)
        ensures
            r == *self,
    {
        ArtifactMetadata {
            artifact_id: self.artifact_id.clone(),
            sha256: self.sha256.clone(),
            size: self.size,
            expires_at: self.expires_at.clone(),
        }
    }
}

/// An artifact with its bytes.
#[derive(Debug, Clone, PartialEq, Eq)]
pub struct StoredArtifact {
    pub metadata: ArtifactMetadata,
    pub bytes: Vec<u8>,
}

impl ArtifactMetadataView {
    /// Whether the artifact has expired at `now`; an expiry that is no RFC 3339
    /// text is an error. The moment of expiry itself is expired.
    pub open spec fn expired(self, now: UtcInstant) -> Result<bool, ArtifactErrorView> {
        match time::parsed_rfc3339(self.expires_at) {
            Ok(at) => Ok(UtcInstant { seconds: at.0, nanos: at.1 }.not_after(now)),
            Err(source) => Err(
                ArtifactErrorView::ParseExpiry { expires_at: self.expires_at, source },
            ),
        }
    }
}

/// The outcome is the expected one, errors taken by their views.
pub open spec fn yields<T>(
    r: Result<T, ArtifactError>,
    expected: Result<T, ArtifactErrorView>,
) -> bool {
    match r {
        Ok(value) => expected matches Ok(v) && v == value,
        Err(e) => expected matches Err(problem) && problem == e@,
    }
}

impl ArtifactMetadata {
    /// Whether the artifact has expired at `now`.
    pub fn is_expired_at(&self, now: &UtcInstant) -> (r: Result<bool, ArtifactError>)
        ensures
            yields(r, self@.expired(*now)),
    {
        match time::parse_rfc3339(self.expires_at.as_str()) {
            Ok(at) => Ok(at.at_or_before(now)),
            Err(source) => Err(
                ArtifactError::ParseExpiry { expires_at: self.expires_at.clone(), source },
            ),
        }
    }

    /// Whether the artifact has expired by the clock.
    pub fn is_expired(&self) -> (r: Result<bool, ArtifactError>)
        ensures
            exists|now: UtcInstant|
                now.clock_reading() && yields(r, #[trigger] self@.expired(now)),
    {
        let now = time::utc_now();
        self.is_expired_at(&now)
    }
}

/// Once expired, an artifact stays expired.
pub proof fn expiry_is_final(metadata: ArtifactMetadataView, now: UtcInstant, later: UtcInstant)
    requires
        metadata.expired(now) == Ok::<bool, ArtifactErrorView>(true),
        now.not_after(later),
    ensures
        metadata.expired(later) == Ok::<bool, ArtifactErrorView>(true),
{
}

} // verus!
