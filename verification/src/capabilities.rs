//! Protocol versions that a runner speaks.
use vstd::prelude::*;

verus! {

pub const RUNNER_PROTOCOL_VERSION: u32 = 1;

pub const SUPPORTED_RUNNER_PROTOCOL_VERSIONS: [u32; 1] = [RUNNER_PROTOCOL_VERSION];

/// The protocol versions that a runner says it speaks.
#[derive(Debug, Clone, PartialEq, Eq)]
pub struct RunnerCapabilitiesResponse {
    pub protocol_version: u32,
    pub supported_protocol_versions: Vec<u32>,
}

impl RunnerCapabilitiesResponse {
    /// Some version of the runner's is among those given.
    pub open spec fn shares_version(self, supported_versions: Seq<u32>) -> bool {
        exists|version: u32|
            self.supported_protocol_versions@.contains(version) && #[trigger] supported_versions.contains(
                version,
            )
    }

    pub fn current() -> (r: Self)
        ensures
            r.protocol_version == RUNNER_PROTOCOL_VERSION,
            r.supported_protocol_versions@ == seq![RUNNER_PROTOCOL_VERSION],
    {
        let mut supported_protocol_versions: Vec<u32> = Vec::new();
        let mut i: usize = 0;
        while i < SUPPORTED_RUNNER_PROTOCOL_VERSIONS.len()
            invariant
                i <= 1,
                supported_protocol_versions@ == seq![RUNNER_PROTOCOL_VERSION].take(i as int),
            decreases 1 - i,
        {
            supported_protocol_versions.push(SUPPORTED_RUNNER_PROTOCOL_VERSIONS[i]);
            i += 1;
        }
        RunnerCapabilitiesResponse {
            protocol_version: RUNNER_PROTOCOL_VERSION,
            supported_protocol_versions,
        }
    }

    pub fn is_compatible_with_supported_versions(&self, supported_versions: &[u32]) -> (r: bool)
        ensures
            r == self.shares_version(supported_versions@),
    {
        let mut i: usize = 0;
        while i < self.supported_protocol_versions.len()
            invariant
                i <= self.supported_protocol_versions@.len(),
                forall|k: int|
                    0 <= k < i ==> !supported_versions@.contains(
                        #[trigger] self.supported_protocol_versions@[k],
                    ),
            decreases self.supported_protocol_versions.len() - i,
        {
            let version: u32 = self.supported_protocol_versions[i];
            let mut j: usize = 0;
            while j < supported_versions.len()
                invariant
                    i < self.supported_protocol_versions@.len(),
                    version == self.supported_protocol_versions@[i as int],
                    j <= supported_versions@.len(),
                    forall|k: int| 0 <= k < j ==> #[trigger] supported_versions@[k] != version,
                decreases supported_versions.len() - j,
            {
                if supported_versions[j] == version {
                    assert(supported_versions@.contains(version));
                    return true;
                }
                j += 1;
            }
            i += 1;
        }
        false
    }
}

/// A runner is compatible with a server that speaks the runner's own versions.
pub proof fn compatible_with_itself(runner: RunnerCapabilitiesResponse)
    requires
        runner.supported_protocol_versions@.len() > 0,
    ensures
        runner.shares_version(runner.supported_protocol_versions@),
{
    let version = runner.supported_protocol_versions@[0];
    assert(runner.supported_protocol_versions@.contains(version));
}

} // verus!
