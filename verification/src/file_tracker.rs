//! Snapshots of a directory tree and what changed between them.

use sha2::{Digest, Sha256};
use vstd::prelude::*;

use crate::names::{
    distinct_names, has_name, lemma_names_fit, lemma_position, lemma_same_names, position, NameMap,
};
use crate::path::{parts, parts_of};
use crate::text::{same_text, views};

verus! {

/// The SHA-256 digest of bytes.
pub uninterp spec fn sha256(bytes: Seq<u8>) -> Seq<u8>;

/// `sha2::Sha256::digest` computes the SHA-256 digest, which depends on the bytes alone.
#[verifier::external_body]
pub(crate) fn sha256_digest(bytes: &[u8]) -> (r: [u8; 32])
    ensures
        r@ == sha256(bytes@),
{
    Sha256::digest(bytes).into()
}

/// Whether two digests are the same.
pub fn same_digest(a: &[u8; 32], b: &[u8; 32]) -> (r: bool)
    ensures
        r == (a@ == b@),
{
    let mut i: usize = 0;
    while i < 32
        invariant
            i <= 32,
            forall|k: int| 0 <= k < i ==> a@[k] == b@[k],
        decreases 32 - i,
    {
        if a[i] != b[i] {
            return false;
        }
        i += 1;
    }
    assert(a@ =~= b@);
    true
}

/// The files of a directory tree, each with the digest of its contents.
#[derive(Debug)]
pub struct Snapshot {
    files: NameMap<[u8; 32]>,
}

impl View for Snapshot {
    type V = Map<Seq<char>, Seq<u8>>;

    closed spec fn view(&self) -> Map<Seq<char>, Seq<u8>> {
        self.files@.map_values(|h: [u8; 32]| h@)
    }
}

impl Snapshot {
    /// The snapshot of an empty tree.
    pub fn new() -> (r: Self)
        ensures
            r@ == Map::<Seq<char>, Seq<u8>>::empty(),
    {
        let r = Snapshot { files: NameMap::new() };
        assert(r@ =~= Map::empty());
        r
    }

    /// Adds a file with the given contents.
    pub fn add(&mut self, path: String, contents: &[u8])
        ensures
            final(self)@ == old(self)@.insert(path@, sha256(contents@)),
    {
        let ghost before = self.files@;
        let hash = sha256_digest(contents);
        self.files.insert(path, hash);
        assert(self@ =~= before.map_values(|h: [u8; 32]| h@).insert(path@, sha256(contents@)));
    }

    /// A copy of the snapshot.
    pub fn copy(&self) -> (r: Self)
        ensures
            r@ == self@,
    {
        let mut files: NameMap<[u8; 32]> = NameMap::new();
        let n = self.files.len();
        let ghost all = self.files.entries();
        let mut i: usize = 0;
        while i < n
            invariant
                i <= n,
                n == all.len(),
                all == self.files.entries(),
                distinct_names(all),
                files.entries() == all.take(i as int),
            decreases n - i,
        {
            proof {
                if has_name(files.entries(), all[i as int].0) {
                    let p = position(files.entries(), all[i as int].0);
                    assert(all[p].0 == all[i as int].0);
                }
            }
            files.insert(self.files.name_at(i).clone(), *self.files.value_at(i));
            i += 1;
            assert(files.entries() =~= all.take(i as int));
        }
        assert(files.entries() =~= all);
        Snapshot { files }
    }

    /// Whether the two snapshots differ: a file was added, deleted or changed.
    pub fn differs_from(&self, other: &Snapshot) -> (r: bool)
        ensures
            r == (self@ != other@),
    {
        let n = self.files.len();
        let m = other.files.len();
        let ghost a = self.files.entries();
        let ghost b = other.files.entries();
        if n != m {
            proof {
                if self@ == other@ {
                    assert forall|i: int| 0 <= i < a.len() implies has_name(
                        b,
                        (#[trigger] a[i]).0,
                    ) by {
                        lemma_position(a, i);
                        assert(self@.dom().contains(a[i].0));
                        assert(other@.dom().contains(a[i].0));
                    }
                    lemma_names_fit(a, b);
                    assert forall|i: int| 0 <= i < b.len() implies has_name(
                        a,
                        (#[trigger] b[i]).0,
                    ) by {
                        lemma_position(b, i);
                        assert(other@.dom().contains(b[i].0));
                        assert(self@.dom().contains(b[i].0));
                    }
                    lemma_names_fit(b, a);
                }
            }
            return true;
        }
        let mut i: usize = 0;
        while i < n
            invariant
                i <= n,
                n == a.len(),
                n == b.len(),
                a == self.files.entries(),
                b == other.files.entries(),
                distinct_names(a),
                distinct_names(b),
                forall|k: int|
                    0 <= k < i ==> has_name(b, (#[trigger] a[k]).0) && other@[a[k].0]
                        == a[k].1@,
            decreases n - i,
        {
            proof {
                lemma_position(a, i as int);
                assert(self@[a[i as int].0] == a[i as int].1@);
            }
            match other.files.get(self.files.name_at(i).as_str()) {
                None => {
                    assert(self@.dom().contains(a[i as int].0));
                    assert(!other@.dom().contains(a[i as int].0));
                    return true;
                },
                Some(hash) => {
                    if !same_digest(self.files.value_at(i), hash) {
                        assert(self@[a[i as int].0] != other@[a[i as int].0]);
                        return true;
                    }
                },
            }
            i += 1;
        }
        proof {
            assert forall|k: Seq<char>| self@.dom().contains(k) <==> other@.dom().contains(k) by {
                if has_name(b, k) {
                    lemma_same_names(a, b, k);
                }
                if has_name(a, k) {
                    let p = position(a, k);
                    assert(has_name(b, a[p].0));
                }
            }
            assert forall|k: Seq<char>| self@.dom().contains(k) implies self@[k] == other@[k] by {
                let p = position(a, k);
                lemma_position(a, p);
                assert(other@[a[p].0] == a[p].1@);
            }
            assert(self@ =~= other@);
        }
        false
    }
}

/// The snapshots by the name of the step that they were taken for.
pub open spec fn snapshot_views(m: Map<Seq<char>, Snapshot>) -> Map<
    Seq<char>,
    Map<Seq<char>, Seq<u8>>,
> {
    m.map_values(|s: Snapshot| s@)
}

/// Tracks file changes between workflow steps using SHA-256 snapshots.
#[derive(Debug)]
pub struct FileTracker {
    /// Root directory to scan.
    root: String,
    /// Per-step snapshots keyed by step name.
    snapshots: NameMap<Snapshot>,
}

impl FileTracker {
    /// The directory that is scanned.
    pub closed spec fn root_spec(self) -> Seq<char> {
        self.root@
    }

    /// The snapshots taken so far, by name.
    pub closed spec fn taken(self) -> Map<Seq<char>, Map<Seq<char>, Seq<u8>>> {
        snapshot_views(self.snapshots@)
    }

    /// The files now differ from the snapshot that was taken under `name`.
    pub open spec fn changed(self, name: Seq<char>, now: Map<Seq<char>, Seq<u8>>) -> bool {
        self.taken().dom().contains(name) && self.taken()[name] != now
    }

    /// A tracker of the current directory.
    pub fn new() -> (r: Self)
        ensures
            r.root_spec() == "."@,
            r.taken() == Map::<Seq<char>, Map<Seq<char>, Seq<u8>>>::empty(),
    {
        Self::with_root(".".to_owned())
    }

    /// A tracker of the directory `root`.
    pub fn with_root(root: String) -> (r: Self)
        ensures
            r.root_spec() == root@,
            r.taken() == Map::<Seq<char>, Map<Seq<char>, Seq<u8>>>::empty(),
    {
        let r = FileTracker { root, snapshots: NameMap::new() };
        assert(r.taken() =~= Map::empty());
        r
    }

    /// The directory that is scanned.
    pub fn root(&self) -> (r: &str)
        ensures
            r@ == self.root_spec(),
    {
        self.root.as_str()
    }

    /// Associate the snapshot `now` of the root directory with `step_name`.
    pub fn take_snapshot(&mut self, step_name: &str, now: Snapshot)
        ensures
            final(self).root_spec() == old(self).root_spec(),
            final(self).taken() == old(self).taken().insert(step_name@, now@),
    {
        let ghost before = self.snapshots@;
        self.snapshots.insert(step_name.to_owned(), now);
        assert(self.taken() =~= snapshot_views(before).insert(step_name@, now@));
    }

    /// Whether a snapshot was taken under `step_name`.
    pub fn has_snapshot(&self, step_name: &str) -> (r: bool)
        ensures
            r == self.taken().dom().contains(step_name@),
    {
        self.snapshots.contains_key(step_name)
    }

    /// Compare the snapshot for `step_name` against the current state `now`.
    /// Returns `false` if no snapshot exists for that step.
    pub fn has_files_changed(&self, step_name: &str, now: &Snapshot) -> (r: bool)
        ensures
            r == self.changed(step_name@, now@),
    {
        match self.snapshots.get(step_name) {
            None => false,
            Some(old_snapshot) => old_snapshot.differs_from(now),
        }
    }
}

impl Default for FileTracker {
    fn default() -> (r: Self)
        ensures
            r.root_spec() == "."@,
            r.taken() == Map::<Seq<char>, Map<Seq<char>, Seq<u8>>>::empty(),
    {
        Self::new()
    }
}

/// A directory whose contents are not tracked.
pub open spec fn excluded_name(name: Seq<char>) -> bool {
    name == ".git"@ || name == "target"@ || name == "node_modules"@
}

/// A path with an excluded directory among its components.
pub open spec fn excluded(path: Seq<char>, windows: bool) -> bool {
    exists|i: int|
        0 <= i < parts(path, windows).len() && excluded_name(#[trigger] parts(path, windows)[i])
}

/// Return true if `path` contains an excluded directory component.
pub fn is_excluded(path: &str, windows: bool) -> (r: bool)
    ensures
        r == excluded(path@, windows),
{
    let all = parts_of(path, windows);
    assert(views(all@).len() == all@.len());
    let mut i: usize = 0;
    while i < all.len()
        invariant
            i <= all@.len(),
            views(all@) == parts(path@, windows),
            forall|k: int| 0 <= k < i ==> !excluded_name(#[trigger] parts(path@, windows)[k]),
        decreases all@.len() - i,
    {
        let part = all[i].as_str();
        assert(parts(path@, windows)[i as int] == part@);
        if same_text(part, ".git") || same_text(part, "target") || same_text(part, "node_modules") {
            return true;
        }
        i += 1;
    }
    false
}

// ---------------------------------------------------------------------------
// Laws
// ---------------------------------------------------------------------------

/// Directly after a snapshot was taken nothing counts as changed; what was taken under other
/// names stays as it was.
pub proof fn law_fresh_snapshot_is_unchanged(
    before: FileTracker,
    after: FileTracker,
    name: Seq<char>,
    other: Seq<char>,
    now: Map<Seq<char>, Seq<u8>>,
    later: Map<Seq<char>, Seq<u8>>,
)
    requires
        after.taken() == before.taken().insert(name, now),
    ensures
        !after.changed(name, now),
        after.changed(name, later) <==> now != later,
        other != name ==> after.changed(other, later) == before.changed(other, later),
{
}

/// Adding, changing or deleting a file is a change, and a file rewritten with the same digest
/// is none.
pub proof fn law_every_difference_counts(
    tracker: FileTracker,
    name: Seq<char>,
    path: Seq<char>,
    digest: Seq<u8>,
)
    requires
        tracker.taken().dom().contains(name),
    ensures
        ({
            let then = tracker.taken()[name];
            &&& !then.dom().contains(path) ==> tracker.changed(name, then.insert(path, digest))
            &&& then.dom().contains(path) ==> tracker.changed(name, then.remove(path))
            &&& then.dom().contains(path) && then[path] != digest ==> tracker.changed(
                name,
                then.insert(path, digest),
            )
            &&& then.dom().contains(path) && then[path] == digest ==> !tracker.changed(
                name,
                then.insert(path, digest),
            )
        }),
{
    let then = tracker.taken()[name];
    assert(then.insert(path, digest).dom().contains(path));
    assert(!then.remove(path).dom().contains(path));
    assert(then.insert(path, digest)[path] == digest);
    if then.dom().contains(path) && then[path] == digest {
        assert(then.insert(path, digest) =~= then);
    }
}

} // verus!
