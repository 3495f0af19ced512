//! Which artifact directories a sweep removes.
use vstd::prelude::*;

use crate::artifacts::error::{ArtifactError, ArtifactErrorView};
use crate::artifacts::store::{ArtifactStore, BlobFile, MetadataFile};
use crate::time;
use crate::time::UtcInstant;

verus! {

/// An entry of the artifacts directory, with what its files hold.
#[derive(Debug)]
pub enum ArtifactEntry {
    Unreadable(String),
    NotDirectory,
    Directory { artifact_id: String, path: String, metadata: MetadataFile, blob: BlobFile },
}

/// What a sweep does: the directories that it removes, in order, and the
/// failure that ends it early.
#[derive(Debug)]
pub struct Sweep {
    pub removals: Vec<String>,
    pub failure: Option<ArtifactError>,
}

/// The mathematical counterpart of `Sweep`.
pub struct SweepView {
    pub removals: Seq<Seq<char>>,
    pub failure: Option<ArtifactErrorView>,
}

impl View for Sweep {
    type V = SweepView;

    open spec fn view(&self) -> SweepView {
        SweepView {
            removals: self.removals@.map_values(|path: String| path@),
            failure: match self.failure {
                Some(e) => Some(e@),
                None => None,
            },
        }
    }
}

/// What one more entry adds to a sweep, given whether it is to go.
pub open spec fn swept_step(
    so_far: Seq<Seq<char>>,
    entry: ArtifactEntry,
    verdict: Result<bool, ArtifactErrorView>,
) -> SweepView {
    match (verdict, entry) {
        (Err(problem), _) => SweepView { removals: so_far, failure: Some(problem) },
        (Ok(true), ArtifactEntry::Directory { path, .. }) => SweepView {
            removals: so_far.push(path@),
            failure: None,
        },
        _ => SweepView { removals: so_far, failure: None },
    }
}

/// The sweep of some entries: those that the verdict condemns go, in order,
/// until it fails.
pub open spec fn swept(
    entries: Seq<ArtifactEntry>,
    verdict: spec_fn(ArtifactEntry) -> Result<bool, ArtifactErrorView>,
) -> SweepView
    decreases entries.len(),
{
    if entries.len() == 0 {
        SweepView { removals: Seq::empty(), failure: None }
    } else {
        let before = swept(entries.drop_last(), verdict);
        if before.failure is Some {
            before
        } else {
            swept_step(before.removals, entries.last(), verdict(entries.last()))
        }
    }
}

proof fn sweep_stops_at_failure(
    entries: Seq<ArtifactEntry>,
    verdict: spec_fn(ArtifactEntry) -> Result<bool, ArtifactErrorView>,
    n: int,
)
    requires
        0 <= n <= entries.len(),
        swept(entries.take(n), verdict).failure is Some,
    ensures
        swept(entries, verdict) == swept(entries.take(n), verdict),
    decreases entries.len() - n,
{
    if n == entries.len() {
        assert(entries.take(n) =~= entries);
    } else {
        assert(entries.take(n + 1).drop_last() =~= entries.take(n));
        sweep_stops_at_failure(entries, verdict, n + 1);
    }
}

impl ArtifactStore {
    /// Whether an entry is an incomplete artifact.
    pub open spec fn incomplete_verdict(self) -> spec_fn(ArtifactEntry) -> Result<
        bool,
        ArtifactErrorView,
    > {
        |entry: ArtifactEntry|
            match entry {
                ArtifactEntry::Unreadable(source) => Err(
                    ArtifactErrorView::ReadDir { path: self.root_dir@, source: source@ },
                ),
                ArtifactEntry::NotDirectory => Ok(false),
                ArtifactEntry::Directory { artifact_id, path, metadata, blob } => self.incomplete(
                    artifact_id@,
                    path@,
                    metadata,
                    blob,
                ),
            }
    }

    /// Whether an entry is an artifact that has expired at `now`.
    pub open spec fn expired_verdict(self, now: UtcInstant) -> spec_fn(ArtifactEntry) -> Result<
        bool,
        ArtifactErrorView,
    > {
        |entry: ArtifactEntry|
            match entry {
                ArtifactEntry::Unreadable(source) => Err(
                    ArtifactErrorView::ReadDir { path: self.root_dir@, source: source@ },
                ),
                ArtifactEntry::NotDirectory => Ok(false),
                ArtifactEntry::Directory { artifact_id, metadata, .. } => self.expired_entry(
                    artifact_id@,
                    metadata,
                    now,
                ),
            }
    }

    fn judge_incomplete(&self, entry: &ArtifactEntry) -> (r: Result<bool, ArtifactError>)
        ensures
            crate::artifacts::metadata::yields(r, self.incomplete_verdict()(*entry)),
    {
        match entry {
            ArtifactEntry::Unreadable(source) => Err(
                ArtifactError::ReadDir { path: self.root_dir.clone(), source: source.clone() },
            ),
            ArtifactEntry::NotDirectory => Ok(false),
            ArtifactEntry::Directory { artifact_id, path, metadata, blob } => {
                self.artifact_dir_is_recoverable(
                    artifact_id.as_str(),
                    path.as_str(),
                    metadata,
                    blob,
                )
            },
        }
    }

    fn judge_expired(&self, entry: &ArtifactEntry, now: &UtcInstant) -> (r: Result<
        bool,
        ArtifactError,
    >)
        ensures
            crate::artifacts::metadata::yields(r, self.expired_verdict(*now)(*entry)),
    {
        match entry {
            ArtifactEntry::Unreadable(source) => Err(
                ArtifactError::ReadDir { path: self.root_dir.clone(), source: source.clone() },
            ),
            ArtifactEntry::NotDirectory => Ok(false),
            ArtifactEntry::Directory { artifact_id, metadata, .. } => {
                self.artifact_dir_is_expired_at(artifact_id.as_str(), metadata, now)
            },
        }
    }

    /// Sweeps away the artifacts whose upload was cut short.
    pub fn recover_incomplete_artifacts(&self, entries: &Vec<ArtifactEntry>) -> (r: Sweep)
        ensures
            r@ == swept(entries@, self.incomplete_verdict()),
    {
        let ghost verdict = self.incomplete_verdict();
        let mut sweep = Sweep { removals: Vec::new(), failure: None };
        assert(sweep@.removals =~= Seq::empty());
        assert(entries@.take(0) =~= Seq::empty());
        let mut i: usize = 0;
        while i < entries.len()
            invariant
                i <= entries@.len(),
                verdict == self.incomplete_verdict(),
                sweep.failure is None,
                sweep@ == swept(entries@.take(i as int), verdict),
            decreases entries@.len() - i,
        {
            let judged = self.judge_incomplete(&entries[i]);
            assert(entries@.take(i + 1).drop_last() =~= entries@.take(i as int));
            sweep.add(&entries[i], judged);
            if sweep.failure.is_some() {
                proof {
                    sweep_stops_at_failure(entries@, verdict, i + 1);
                }
                return sweep;
            }
            i += 1;
        }
        assert(entries@.take(i as int) =~= entries@);
        sweep
    }

    /// Sweeps away the artifacts that have expired at `now`.
    pub fn cleanup_expired_at(&self, entries: &Vec<ArtifactEntry>, now: &UtcInstant) -> (r: Sweep)
        ensures
            r@ == swept(entries@, self.expired_verdict(*now)),
    {
        let ghost verdict = self.expired_verdict(*now);
        let mut sweep = Sweep { removals: Vec::new(), failure: None };
        assert(sweep@.removals =~= Seq::empty());
        assert(entries@.take(0) =~= Seq::empty());
        let mut i: usize = 0;
        while i < entries.len()
            invariant
                i <= entries@.len(),
                verdict == self.expired_verdict(*now),
                sweep.failure is None,
                sweep@ == swept(entries@.take(i as int), verdict),
            decreases entries@.len() - i,
        {
            let judged = self.judge_expired(&entries[i], now);
            assert(entries@.take(i + 1).drop_last() =~= entries@.take(i as int));
            sweep.add(&entries[i], judged);
            if sweep.failure.is_some() {
                proof {
                    sweep_stops_at_failure(entries@, verdict, i + 1);
                }
                return sweep;
            }
            i += 1;
        }
        assert(entries@.take(i as int) =~= entries@);
        sweep
    }

    /// Sweeps away the artifacts that have expired by the clock.
    pub fn cleanup_expired(&self, entries: &Vec<ArtifactEntry>) -> (r: Sweep)
        ensures
            exists|now: UtcInstant|
                now.clock_reading() && r@ == swept(entries@, #[trigger] self.expired_verdict(now)),
    {
        let now = time::utc_now();
        self.cleanup_expired_at(entries, &now)
    }
}

impl Sweep {
    fn add(&mut self, entry: &ArtifactEntry, judged: Result<bool, ArtifactError>)
        requires
            old(self).failure is None,
        ensures
            final(self)@ == swept_step(
                old(self)@.removals,
                *entry,
                match judged {
                    Ok(b) => Ok(b),
                    Err(e) => Err(e@),
                },
            ),
    {
        match judged {
            Err(e) => {
                self.failure = Some(e);
            },
            Ok(condemned) => {
                if condemned {
                    if let ArtifactEntry::Directory { path, .. } = entry {
                        self.removals.push(path.clone());
                        assert(self@.removals =~= old(self)@.removals.push(path@));
                    }
                }
            },
        }
    }
}

} // verus!
