//! All the manifests that a runner has loaded.
use vstd::prelude::*;

use crate::manifest::error::{ManifestError, ManifestErrorView};
use crate::manifest::spec;
use crate::manifest::spec::{JobManifest, ManifestView, ScriptProbe};
use crate::names;
use crate::names::NameMap;
use crate::paths;

verus! {

/// What reading a manifest file gave. A `String` is the message of the failure.
#[derive(Debug)]
pub enum ManifestRead {
    Unreadable(String),
    Unparsable(String),
    Parsed { manifest: JobManifest, script: ScriptProbe },
}

/// An entry of the manifests directory. What its file holds matters only where
/// the file name ends in `.toml`.
#[derive(Debug)]
pub enum DirectoryEntry {
    Unreadable(String),
    File { file_name: String, path: String, manifest: ManifestRead },
}

/// What looking at the manifests directory gave.
#[derive(Debug)]
pub enum DirectoryRead {
    Unreadable(String),
    NotDirectory,
    Entries(Vec<DirectoryEntry>),
}

/// Why what was read from `path` is no usable manifest.
pub open spec fn read_problem(read: ManifestRead, path: Seq<char>) -> Option<ManifestErrorView> {
    match read {
        ManifestRead::Unreadable(source) => Some(
            ManifestErrorView::ReadFile { path, source: source@ },
        ),
        ManifestRead::Unparsable(source) => Some(
            ManifestErrorView::ParseFile { path, source: source@ },
        ),
        ManifestRead::Parsed { manifest, script } => manifest@.problem(script, path),
    }
}

impl JobManifest {
    /// The manifest that was read from `path`, where it meets the rules.
    pub fn load_from_path(path: &str, read: &ManifestRead) -> (r: Result<Self, ManifestError>)
        ensures
            spec::reports(r, read_problem(*read, path@)),
            r matches Ok(m) ==> (read matches ManifestRead::Parsed { manifest, .. } && m@
                == manifest@ && m@.sound()),
    {
        match read {
            ManifestRead::Unreadable(source) => Err(
                ManifestError::ReadFile { path: path.to_owned(), source: source.clone() },
            ),
            ManifestRead::Unparsable(source) => Err(
                ManifestError::ParseFile { path: path.to_owned(), source: source.clone() },
            ),
            ManifestRead::Parsed { manifest, script } => {
                manifest.validate(script, path)?;
                proof {
                    spec::no_problem_is_sound(manifest@, *script, path@);
                }
                Ok(manifest.clone())
            },
        }
    }
}

/// What one more directory entry makes of the manifests so far: an entry that
/// cannot be read, a manifest that cannot be used and a job name seen before
/// end the loading; a file that is no manifest changes nothing.
pub open spec fn loaded_step(
    directory: Seq<char>,
    so_far: Seq<(Seq<char>, ManifestView)>,
    entry: DirectoryEntry,
) -> Result<Seq<(Seq<char>, ManifestView)>, ManifestErrorView> {
    match entry {
        DirectoryEntry::Unreadable(source) => Err(
            ManifestErrorView::ReadDirEntry { path: directory, source: source@ },
        ),
        DirectoryEntry::File { file_name, path, manifest } => if !paths::is_toml_name(
            file_name@,
        ) {
            Ok(so_far)
        } else {
            match (read_problem(manifest, path@), manifest) {
                (Some(problem), _) => Err(problem),
                (None, ManifestRead::Parsed { manifest, .. }) => if names::has_name(
                    so_far,
                    manifest@.name,
                ) {
                    Err(ManifestErrorView::DuplicateJobName { name: manifest@.name, path: path@ })
                } else {
                    Ok(names::inserted(so_far, manifest@.name, manifest@))
                },
                _ => Ok(so_far),
            }
        },
    }
}

/// The manifests, in name order, that the entries of a directory give.
pub open spec fn loaded(directory: Seq<char>, entries: Seq<DirectoryEntry>) -> Result<
    Seq<(Seq<char>, ManifestView)>,
    ManifestErrorView,
>
    decreases entries.len(),
{
    if entries.len() == 0 {
        Ok(Seq::empty())
    } else {
        match loaded(directory, entries.drop_last()) {
            Err(e) => Err(e),
            Ok(so_far) => loaded_step(directory, so_far, entries.last()),
        }
    }
}

/// What the whole directory gives.
pub open spec fn loaded_directory(path: Seq<char>, directory: DirectoryRead) -> Result<
    Seq<(Seq<char>, ManifestView)>,
    ManifestErrorView,
> {
    match directory {
        DirectoryRead::Unreadable(source) => Err(
            ManifestErrorView::ReadDir { path, source: source@ },
        ),
        DirectoryRead::NotDirectory => Err(ManifestErrorView::NotDirectory { path }),
        DirectoryRead::Entries(entries) => loaded(path, entries@),
    }
}

proof fn loading_stops_at_failure(directory: Seq<char>, entries: Seq<DirectoryEntry>, n: int)
    requires
        0 <= n <= entries.len(),
        loaded(directory, entries.take(n)) is Err,
    ensures
        loaded(directory, entries) == loaded(directory, entries.take(n)),
    decreases entries.len() - n,
{
    if n == entries.len() {
        assert(entries.take(n) =~= entries);
    } else {
        assert(entries.take(n + 1).drop_last() =~= entries.take(n));
        loading_stops_at_failure(directory, entries, n + 1);
    }
}

/// A manifest by its mathematical counterpart.
pub open spec fn manifest_model() -> spec_fn(JobManifest) -> ManifestView {
    |manifest: JobManifest| manifest@
}

/// Manifests that were all held to the rules, found by job name.
#[derive(Debug)]
pub struct ManifestStore {
    manifests: NameMap<JobManifest>,
}

impl View for ManifestStore {
    type V = Seq<(Seq<char>, ManifestView)>;

    closed spec fn view(&self) -> Seq<(Seq<char>, ManifestView)> {
        names::with_values(self.manifests@, manifest_model())
    }
}

/// Every manifest meets the rules and is found under its own name.
pub open spec fn usable(manifests: Seq<(Seq<char>, ManifestView)>) -> bool {
    forall|i: int|
        0 <= i < manifests.len() ==> (#[trigger] manifests[i]).1.sound() && manifests[i].0
            == manifests[i].1.name
}

spec fn all_sound(s: Seq<(Seq<char>, JobManifest)>) -> bool {
    forall|i: int| 0 <= i < s.len() ==> (#[trigger] s[i]).1@.sound() && s[i].0 == s[i].1@.name
}

impl Clone for ManifestStore {
    fn clone(&self) -> (r: Self)
        ensures
            r@ == self@,
    {
        proof {
            use_type_invariant(&*self);
        }
        let manifests = self.manifests.clone();
        assert(names::with_values(manifests@, manifest_model()) =~= self@);
        assert forall|i: int| 0 <= i < manifests@.len() implies (#[trigger] manifests@[i]).1@.sound()
            && manifests@[i].0 == manifests@[i].1@.name by {
            assert(manifests@[i].1@ == self.manifests@[i].1@);
        }
        ManifestStore { manifests }
    }
}

impl ManifestStore {
    #[verifier::type_invariant]
    spec fn holds_sound_manifests(self) -> bool {
        all_sound(self.manifests@)
    }

    /// Loads the manifests of the directory at `path`.
    pub fn load_from_dir(path: &str, directory: &DirectoryRead) -> (r: Result<Self, ManifestError>)
        ensures
            match r {
                Ok(store) => loaded_directory(path@, *directory) matches Ok(manifests) && store@
                    == manifests && usable(manifests) && names::names_sorted(manifests),
                Err(e) => loaded_directory(path@, *directory) matches Err(problem) && problem == e@,
            },
    {
        let entries = match directory {
            DirectoryRead::Unreadable(source) => {
                return Err(
                    ManifestError::ReadDir { path: path.to_owned(), source: source.clone() },
                );
            },
            DirectoryRead::NotDirectory => {
                return Err(ManifestError::NotDirectory { path: path.to_owned() });
            },
            DirectoryRead::Entries(entries) => entries,
        };
        let mut manifests: NameMap<JobManifest> = NameMap::new();
        assert(names::with_values(manifests@, manifest_model()) =~= Seq::empty());
        assert(entries@.take(0) =~= Seq::empty());
        let mut i: usize = 0;
        while i < entries.len()
            invariant
                i <= entries@.len(),
                *directory == DirectoryRead::Entries(*entries),
                all_sound(manifests@),
                names::names_sorted(manifests@),
                loaded(path@, entries@.take(i as int)) == Ok::<_, ManifestErrorView>(
                    names::with_values(manifests@, manifest_model()),
                ),
            decreases entries@.len() - i,
        {
            let ghost before = manifests@;
            let ghost step = entries@.take(i + 1);
            assert(step.drop_last() =~= entries@.take(i as int));
            match &entries[i] {
                DirectoryEntry::Unreadable(source) => {
                    proof {
                        loading_stops_at_failure(path@, entries@, i + 1);
                    }
                    return Err(
                        ManifestError::ReadDirEntry {
                            path: path.to_owned(),
                            source: source.clone(),
                        },
                    );
                },
                DirectoryEntry::File { file_name, path: entry_path, manifest: read } => {
                    if paths::is_toml_file(file_name.as_str()) {
                        let manifest = match JobManifest::load_from_path(
                            entry_path.as_str(),
                            read,
                        ) {
                            Ok(manifest) => manifest,
                            Err(e) => {
                                proof {
                                    loading_stops_at_failure(path@, entries@, i + 1);
                                }
                                return Err(e);
                            },
                        };
                        let name = manifest.name.clone();
                        let known = manifests.contains_name(name.as_str());
                        proof {
                            names::with_values_lookup(before, manifest_model(), name@);
                            names::insert_position_splits(before, name@);
                        }
                        if known {
                            proof {
                                loading_stops_at_failure(path@, entries@, i + 1);
                            }
                            return Err(
                                ManifestError::DuplicateJobName { name, path: entry_path.clone() },
                            );
                        }
                        proof {
                            names::with_values_inserted(before, manifest_model(), name@, manifest);
                            inserting_keeps_sound(before, name@, manifest);
                        }
                        manifests.insert(name, manifest);
                    }
                },
            }
            i += 1;
        }
        assert(entries@.take(i as int) =~= entries@);
        proof {
            let model = names::with_values(manifests@, manifest_model());
            names::with_values_lookup(manifests@, manifest_model(), path@);
            assert forall|k: int| 0 <= k < model.len() implies (#[trigger] model[k]).1.sound()
                && model[k].0 == model[k].1.name by {
                assert(manifests@[k].1@.sound());
            }
        }
        Ok(ManifestStore { manifests })
    }

    pub fn len(&self) -> (r: usize)
        ensures
            r == self@.len(),
    {
        self.manifests.len()
    }

    pub fn is_empty(&self) -> (r: bool)
        ensures
            r == (self@.len() == 0),
    {
        self.manifests.is_empty()
    }

    /// The manifest of a job. Whatever the store holds is sound and found under
    /// its own name.
    pub fn get(&self, name: &str) -> (r: Option<&JobManifest>)
        ensures
            match r {
                Some(m) => names::lookup(self@, name@) == Some(m@) && m@.sound() && m@.name == name@,
                None => names::lookup(self@, name@) is None,
            },
            names::names_sorted(self@),
    {
        let found = self.manifests.get(name);
        proof {
            use_type_invariant(&*self);
            names::with_values_lookup(self.manifests@, manifest_model(), name@);
        }
        match found {
            Some(m) => {
                assert(names::has_name(self.manifests@, name@));
                let ghost i = names::position_of(self.manifests@, name@);
                assert(self.manifests@[i].1@.sound());
                Some(m)
            },
            None => None,
        }
    }

    /// Every manifest, in name order.
    pub fn all(&self) -> (r: Vec<&JobManifest>)
        ensures
            r@.len() == self@.len(),
            forall|i: int|
                0 <= i < r@.len() ==> (#[trigger] r@[i])@ == self@[i].1 && r@[i]@.sound(),
            names::names_sorted(self@),
            usable(self@),
    {
        proof {
            use_type_invariant(&*self);
        }
        let mut out: Vec<&JobManifest> = Vec::new();
        let n = self.manifests.len();
        let mut i: usize = 0;
        while i < n
            invariant
                i <= n,
                n == self.manifests@.len(),
                names::names_sorted(self.manifests@),
                all_sound(self.manifests@),
                out@.len() == i,
                forall|j: int|
                    0 <= j < i ==> (#[trigger] out@[j])@ == self.manifests@[j].1@
                        && out@[j]@.sound(),
            decreases n - i,
        {
            out.push(self.manifests.value_at(i));
            assert(self.manifests@[i as int].1@.sound());
            i += 1;
        }
        proof {
            names::with_values_lookup(self.manifests@, manifest_model(), Seq::empty());
            assert forall|k: int| 0 <= k < self@.len() implies (#[trigger] self@[k]).1.sound()
                && self@[k].0 == self@[k].1.name by {
                assert(self.manifests@[k].1@.sound());
            }
        }
        out
    }
}

proof fn inserting_keeps_sound(
    s: Seq<(Seq<char>, JobManifest)>,
    name: Seq<char>,
    manifest: JobManifest,
)
    requires
        all_sound(s),
        manifest@.sound(),
        manifest@.name == name,
        names::insert_position(s, name) <= s.len(),
    ensures
        all_sound(names::inserted(s, name, manifest)),
{
    let r = names::inserted(s, name, manifest);
    let p = names::insert_position(s, name) as int;
    assert forall|i: int| 0 <= i < r.len() implies (#[trigger] r[i]).1@.sound() && r[i].0
        == r[i].1@.name by {
        if i == p {
        } else if i < p || (p < s.len() && s[p].0 == name) {
            assert(r[i] == s[i]);
        } else {
            assert(r[i] == s[i - 1]);
        }
    }
}

} // verus!
