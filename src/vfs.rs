//! Existence state of every interned file, and an edge-triggered log of the
//! changes made to it.
use vstd::prelude::*;

use std::sync::Arc;

use crate::file_id::FileId;
use crate::path_interner::{
    after_intern, distinct_paths, interned_index, lemma_after_intern,
    lemma_intern_distinct_and_idempotent, lemma_interned_index_unique, PathInterner,
};
use crate::vfs_path::{PathView, VirtualFsPath};

verus! {

/// Whether a file currently exists.
#[derive(Copy, PartialEq, Eq, PartialOrd, Clone, Debug, Structural)]
pub enum FileState {
    Exists,
    Deleted,
}

/// One recorded change of a file.
#[derive(Debug, Clone)]
pub struct ChangedFile {
    pub file_id: FileId,
    pub change: Change,
}

/// What a change did, with the new content where there is one.
#[derive(Eq, PartialEq, Debug, Clone)]
pub enum Change {
    Create(Vec<u8>),
    Modify(Vec<u8>),
    Delete,
}

/// The kind of a change, without its content.
#[derive(Eq, PartialEq, Debug, Clone, Copy, Structural)]
pub enum ChangeKind {
    Create,
    Modify,
    Delete,
}

/// A change record as a value: the file, the kind, and the new content
/// (empty for a deletion).
pub type ChangeView = (FileId, ChangeKind, Seq<u8>);

impl View for Change {
    type V = (ChangeKind, Seq<u8>);

    open spec fn view(&self) -> (ChangeKind, Seq<u8>) {
        match self {
            Change::Create(v) => (ChangeKind::Create, v@),
            Change::Modify(v) => (ChangeKind::Modify, v@),
            Change::Delete => (ChangeKind::Delete, Seq::empty()),
        }
    }
}

impl View for ChangedFile {
    type V = ChangeView;

    open spec fn view(&self) -> ChangeView {
        (self.file_id, self.change@.0, self.change@.1)
    }
}

impl ChangedFile {
    /// The file exists after this change.
    pub fn file_exists(&self) -> (r: bool)
        ensures
            r == !(self.change is Delete),
    {
        !matches!(self.change, Change::Delete)
    }
}

/// The state of handle `i` in `states`; a handle past the end is deleted.
pub open spec fn state_at(states: Seq<FileState>, i: int) -> FileState {
    if 0 <= i < states.len() {
        states[i]
    } else {
        FileState::Deleted
    }
}

/// The content of an optional buffer, as a value.
pub open spec fn contents_view(contents: Option<Vec<u8>>) -> Option<Seq<u8>> {
    match contents {
        Some(v) => Some(v@),
        None => None,
    }
}

/// The change that setting `contents` on a file in state `prev` records,
/// if any: deleting a deleted file records nothing.
pub open spec fn change_for(prev: FileState, contents: Option<Seq<u8>>) -> Option<(ChangeKind, Seq<u8>)> {
    match (prev, contents) {
        (FileState::Deleted, None) => None,
        (FileState::Deleted, Some(v)) => Some((ChangeKind::Create, v)),
        (FileState::Exists, None) => Some((ChangeKind::Delete, Seq::empty())),
        (FileState::Exists, Some(v)) => Some((ChangeKind::Modify, v)),
    }
}

/// The handles of the existing files among the first `k`, ascending.
pub open spec fn existing_prefix(states: Seq<FileState>, k: int) -> Seq<FileId>
    decreases k,
{
    if k <= 0 {
        Seq::empty()
    } else if states[k - 1] == FileState::Exists {
        existing_prefix(states, k - 1).push(FileId((k - 1) as u32))
    } else {
        existing_prefix(states, k - 1)
    }
}

/// The virtual file system: interned identities, their states, and the
/// changes not yet taken.
#[derive(Clone)]
pub struct VirtualFS {
    data: Vec<FileState>,
    changes: Vec<ChangedFile>,
    interner: PathInterner,
}

impl VirtualFS {
    /// The interned identities; handle `i` names the one at position `i`.
    pub closed spec fn paths(&self) -> Seq<PathView> {
        self.interner@
    }

    /// The state of each interned identity, by handle.
    pub closed spec fn states(&self) -> Seq<FileState> {
        self.data@
    }

    /// The changes recorded since the log was last taken, oldest first.
    pub closed spec fn change_log(&self) -> Seq<ChangeView> {
        self.changes@.map_values(|c: ChangedFile| c@)
    }

    /// Identities are unique, and there is one state per identity.
    pub open spec fn wf(&self) -> bool {
        &&& distinct_paths(self.paths())
        &&& self.paths().len() <= FileId::MAX_FILE_ID
        &&& self.states().len() == self.paths().len()
    }

    /// `path` is interned already, or there is room for another identity.
    pub open spec fn has_room_for(&self, path: PathView) -> bool {
        self.paths().contains(path) || self.paths().len() < FileId::MAX_FILE_ID
    }

    /// The handle of `path` if that file exists.
    pub open spec fn file_id_of(&self, path: PathView) -> Option<FileId> {
        if self.paths().contains(path) && self.states()[interned_index(self.paths(), path)]
            == FileState::Exists {
            Some(FileId(interned_index(self.paths(), path) as u32))
        } else {
            None
        }
    }

    /// What `set_file_contents(path, contents)` does to `pre`, giving `post`
    /// and returning `changed`.
    pub open spec fn set_contents_post(
        pre: VirtualFS,
        post: VirtualFS,
        path: PathView,
        contents: Option<Seq<u8>>,
        changed: bool,
    ) -> bool {
        let id = interned_index(pre.paths(), path);
        let prev = state_at(pre.states(), id);
        &&& post.paths() == after_intern(pre.paths(), path)
        &&& post.states().len() == post.paths().len()
        &&& changed == change_for(prev, contents) is Some
        &&& post.states()[id] == (if contents is Some {
            FileState::Exists
        } else {
            FileState::Deleted
        })
        &&& forall|i: int|
            0 <= i < post.states().len() && i != id ==> #[trigger] post.states()[i] == state_at(
                pre.states(),
                i,
            )
        &&& post.change_log() == match change_for(prev, contents) {
            Some(c) => pre.change_log().push((FileId(id as u32), c.0, c.1)),
            None => pre.change_log(),
        }
    }

    /// An empty file system.
    pub fn new() -> (r: VirtualFS)
        ensures
            r.wf(),
            r.paths() == Seq::<PathView>::empty(),
            r.states() == Seq::<FileState>::empty(),
            r.change_log() == Seq::<ChangeView>::empty(),
    {
        let r = VirtualFS { data: Vec::new(), changes: Vec::new(), interner: PathInterner::new() };
        assert(r.change_log() =~= Seq::<ChangeView>::empty());
        r
    }

    /// Whether `path` can be interned.
    pub fn can_intern(&self, path: &VirtualFsPath) -> (r: bool)
        requires
            self.wf(),
        ensures
            r == self.has_room_for(path@),
    {
        self.interner.get(path).is_some() || self.interner.len() < FileId::MAX_FILE_ID as usize
    }

    /// The handle of `path` if that file exists now; a deleted file keeps its
    /// handle but is not reported.
    pub fn file_id(&self, path: &VirtualFsPath) -> (r: Option<FileId>)
        requires
            self.wf(),
        ensures
            r == self.file_id_of(path@),
    {
        match self.interner.get(path) {
            Some(id) => {
                if matches!(self.get(id), FileState::Exists) {
                    Some(id)
                } else {
                    None
                }
            },
            None => None,
        }
    }

    /// The identity behind a handle.
    pub fn file_path(&self, file_id: FileId) -> (r: &VirtualFsPath)
        requires
            self.wf(),
            file_id.0 < self.paths().len(),
        ensures
            r@ == self.paths()[file_id.0 as int],
    {
        self.interner.lookup(file_id)
    }

    /// The existing files with their identities, by ascending handle.
    pub fn iter(&self) -> (r: Vec<(FileId, &VirtualFsPath)>)
        requires
            self.wf(),
        ensures
            r@.len() == existing_prefix(self.states(), self.states().len() as int).len(),
            forall|j: int|
                0 <= j < r@.len() ==> {
                    &&& (#[trigger] r@[j]).0 == existing_prefix(
                        self.states(),
                        self.states().len() as int,
                    )[j]
                    &&& r@[j].1@ == self.paths()[r@[j].0.0 as int]
                },
    {
        let mut out: Vec<(FileId, &VirtualFsPath)> = Vec::new();
        let n = self.data.len();
        let mut i: usize = 0;
        while i < n
            invariant
                self.wf(),
                n == self.data@.len(),
                i <= n,
                out@.len() == existing_prefix(self.states(), i as int).len(),
                forall|j: int|
                    0 <= j < out@.len() ==> {
                        &&& (#[trigger] out@[j]).0 == existing_prefix(self.states(), i as int)[j]
                        &&& out@[j].0.0 < n
                        &&& out@[j].1@ == self.paths()[out@[j].0.0 as int]
                    },
            decreases n - i,
        {
            let id = FileId(i as u32);
            if matches!(self.data[i], FileState::Exists) {
                let path = self.interner.lookup(id);
                out.push((id, path));
            }
            i = i + 1;
        }
        out
    }

    /// Creates, modifies or deletes (`None`) the file at `path`, recording the
    /// change with a kind taken from the file's previous state. Deleting a
    /// file that does not exist changes nothing and returns `false`.
    pub fn set_file_contents(&mut self, path: VirtualFsPath, contents: Option<Vec<u8>>) -> (r: bool)
        requires
            old(self).wf(),
            old(self).has_room_for(path@),
        ensures
            final(self).wf(),
            Self::set_contents_post(*old(self), *final(self), path@, contents_view(contents), r),
    {
        let ghost p = path@;
        let ghost cv = contents_view(contents);
        let file_id = self.alloc_file_id(path);
        let prev = self.get(file_id);
        let ghost id = file_id.0 as int;
        let change_kind = match (prev, contents) {
            (FileState::Deleted, None) => return false,
            (FileState::Deleted, Some(v)) => Change::Create(v),
            (FileState::Exists, None) => Change::Delete,
            (FileState::Exists, Some(v)) => Change::Modify(v),
        };
        let changed_file = ChangedFile { file_id, change: change_kind };
        let new_state = if changed_file.file_exists() {
            FileState::Exists
        } else {
            FileState::Deleted
        };
        self.data.set(file_id.0 as usize, new_state);
        let ghost before = self.changes@;
        self.changes.push(changed_file);
        assert(self.change_log() =~= old(self).change_log().push(changed_file@)) by {
            assert(before.map_values(|c: ChangedFile| c@) == old(self).change_log());
        }
        true
    }

    /// Hands out the recorded changes, oldest first, and empties the log.
    pub fn take_changes(&mut self) -> (r: Vec<ChangedFile>)
        requires
            old(self).wf(),
        ensures
            final(self).wf(),
            Self::take_changes_post(*old(self), *final(self), r@.map_values(|c: ChangedFile| c@)),
    {
        let mut taken: Vec<ChangedFile> = Vec::new();
        std::mem::swap(&mut taken, &mut self.changes);
        assert(self.change_log() =~= Seq::<ChangeView>::empty());
        taken
    }

    /// What `take_changes` does to `pre`, giving `post` and returning
    /// `taken`.
    pub open spec fn take_changes_post(pre: VirtualFS, post: VirtualFS, taken: Seq<ChangeView>) -> bool {
        &&& taken == pre.change_log()
        &&& post.change_log() == Seq::<ChangeView>::empty()
        &&& post.paths() == pre.paths()
        &&& post.states() == pre.states()
    }

    /// Interns `path` and gives it a state, deleted if it is new.
    fn alloc_file_id(&mut self, path: VirtualFsPath) -> (r: FileId)
        requires
            old(self).wf(),
            old(self).has_room_for(path@),
        ensures
            final(self).wf(),
            final(self).paths() == after_intern(old(self).paths(), path@),
            r.0 == interned_index(old(self).paths(), path@),
            r.0 < final(self).states().len(),
            final(self).states() == (if old(self).paths().contains(path@) {
                old(self).states()
            } else {
                old(self).states().push(FileState::Deleted)
            }),
            final(self).change_log() == old(self).change_log(),
    {
        let file_id = self.interner.intern(path);
        if file_id.0 as usize == self.data.len() {
            self.data.push(FileState::Deleted);
        }
        file_id
    }

    /// The state of a handle.
    fn get(&self, file_id: FileId) -> (r: FileState)
        requires
            self.wf(),
            file_id.0 < self.states().len(),
        ensures
            r == self.states()[file_id.0 as int],
    {
        self.data[file_id.0 as usize]
    }
}

/// Relies on `Arc::unwrap_or_clone`: the file system behind the handle, moved
/// out when the handle is the only one, cloned otherwise; either way with the
/// same identities, states and change log.
#[verifier::external_body]
pub fn unshare(shared: Arc<VirtualFS>) -> (r: VirtualFS)
    ensures
        r.paths() == shared.paths(),
        r.states() == shared.states(),
        r.change_log() == shared.change_log(),
{
    Arc::unwrap_or_clone(shared)
}

impl Default for VirtualFS {
    fn default() -> (r: VirtualFS)
        ensures
            r.wf(),
            r.paths() == Seq::<PathView>::empty(),
            r.states() == Seq::<FileState>::empty(),
            r.change_log() == Seq::<ChangeView>::empty(),
    {
        VirtualFS::new()
    }
}

/// Deleting a file that does not exist reports no change and records
/// nothing.
pub proof fn lemma_delete_missing_is_noop(
    pre: VirtualFS,
    post: VirtualFS,
    path: PathView,
    changed: bool,
)
    requires
        VirtualFS::set_contents_post(pre, post, path, None, changed),
        state_at(pre.states(), interned_index(pre.paths(), path)) == FileState::Deleted,
    ensures
        !changed,
        post.change_log() == pre.change_log(),
        post.states()[interned_index(pre.paths(), path)] == FileState::Deleted,
{
}

/// Deleting a file that does not exist changes no file's existence: every
/// identity has the handle it had, or none, as before.
pub proof fn lemma_delete_missing_keeps_file_ids(
    pre: VirtualFS,
    post: VirtualFS,
    path: PathView,
    changed: bool,
    q: PathView,
)
    requires
        pre.wf(),
        VirtualFS::set_contents_post(pre, post, path, None, changed),
        pre.file_id_of(path) is None,
    ensures
        !changed,
        post.change_log() == pre.change_log(),
        post.file_id_of(q) == pre.file_id_of(q),
{
    let id = interned_index(pre.paths(), path);
    lemma_after_intern(pre.paths(), path);
    assert(state_at(pre.states(), id) == FileState::Deleted);
    if pre.paths().contains(q) {
        let k = interned_index(pre.paths(), q);
        lemma_interned_index_unique(post.paths(), q, k);
        assert(post.paths()[k] == pre.paths()[k]);
        assert(post.paths().contains(q));
        if q == path {
            assert(k == id);
        } else {
            assert(k != id) by {
                if pre.paths().contains(path) {
                    assert(pre.paths()[id] == path);
                }
            }
        }
    } else if q != path {
        assert(!post.paths().contains(q)) by {
            if post.paths().contains(q) {
                let j = choose|j: int| 0 <= j < post.paths().len() && post.paths()[j] == q;
                if j < pre.paths().len() {
                    assert(pre.paths()[j] == q);
                }
            }
        }
    } else {
        lemma_interned_index_unique(post.paths(), path, id);
    }
}

/// The change records of a run of `set_file_contents` calls: one for each
/// call that changed something, in call order. `fs[j]` is the file system
/// before call `j`, and `calls[j]` its identity, contents and result.
pub open spec fn records_of(
    fs: Seq<VirtualFS>,
    calls: Seq<(PathView, Option<Seq<u8>>, bool)>,
    k: int,
) -> Seq<ChangeView>
    decreases k,
{
    if k <= 0 {
        Seq::empty()
    } else {
        let j = k - 1;
        let id = interned_index(fs[j].paths(), calls[j].0);
        match change_for(state_at(fs[j].states(), id), calls[j].1) {
            Some(c) => records_of(fs, calls, j).push((FileId(id as u32), c.0, c.1)),
            None => records_of(fs, calls, j),
        }
    }
}

/// After the log was taken, a run of `set_file_contents` calls leaves in it
/// exactly the records of the calls that changed something, in the order of
/// the calls; the next `take_changes` hands out just those.
pub proof fn lemma_log_in_call_order(
    fs: Seq<VirtualFS>,
    calls: Seq<(PathView, Option<Seq<u8>>, bool)>,
    after: VirtualFS,
    taken: Seq<ChangeView>,
)
    requires
        fs.len() == calls.len() + 1,
        fs[0].change_log() == Seq::<ChangeView>::empty(),
        forall|j: int|
            0 <= j < calls.len() ==> #[trigger] VirtualFS::set_contents_post(
                fs[j],
                fs[j + 1],
                calls[j].0,
                calls[j].1,
                calls[j].2,
            ),
        VirtualFS::take_changes_post(fs.last(), after, taken),
    ensures
        taken == records_of(fs, calls, calls.len() as int),
{
    lemma_log_prefix(fs, calls, calls.len() as int);
}

/// The log after `k` calls holds the records of those calls.
proof fn lemma_log_prefix(fs: Seq<VirtualFS>, calls: Seq<(PathView, Option<Seq<u8>>, bool)>, k: int)
    requires
        fs.len() == calls.len() + 1,
        0 <= k <= calls.len(),
        fs[0].change_log() == Seq::<ChangeView>::empty(),
        forall|j: int|
            0 <= j < calls.len() ==> #[trigger] VirtualFS::set_contents_post(
                fs[j],
                fs[j + 1],
                calls[j].0,
                calls[j].1,
                calls[j].2,
            ),
    ensures
        fs[k].change_log() == records_of(fs, calls, k),
    decreases k,
{
    if k > 0 {
        let j = k - 1;
        lemma_log_prefix(fs, calls, j);
        assert(VirtualFS::set_contents_post(fs[j], fs[j + 1], calls[j].0, calls[j].1, calls[j].2));
    }
}

/// Creating, deleting and creating again one identity works on one handle
/// throughout, and records a creation, a deletion and a creation, in that
/// order.
pub proof fn lemma_recreate_keeps_file_id(
    v0: VirtualFS,
    v1: VirtualFS,
    v2: VirtualFS,
    v3: VirtualFS,
    path: PathView,
    first: Seq<u8>,
    second: Seq<u8>,
    c1: bool,
    c2: bool,
    c3: bool,
)
    requires
        v0.wf(),
        VirtualFS::set_contents_post(v0, v1, path, Some(first), c1),
        VirtualFS::set_contents_post(v1, v2, path, None, c2),
        VirtualFS::set_contents_post(v2, v3, path, Some(second), c3),
    ensures
        interned_index(v1.paths(), path) == interned_index(v0.paths(), path),
        interned_index(v2.paths(), path) == interned_index(v0.paths(), path),
        v3.paths() == v1.paths(),
        c1 && c2 && c3,
        v1.change_log().len() == v0.change_log().len() + 1,
        v3.change_log() == v1.change_log().push(
            (FileId(interned_index(v0.paths(), path) as u32), ChangeKind::Delete, Seq::empty()),
        ).push((FileId(interned_index(v0.paths(), path) as u32), ChangeKind::Create, second)),
{
    lemma_intern_distinct_and_idempotent(v0.paths(), path, path);
}

/// Taking the change log hands out every record in the order it was
/// made; taking it again right away hands out nothing.
pub proof fn lemma_take_changes_twice(
    v0: VirtualFS,
    v1: VirtualFS,
    v2: VirtualFS,
    first: Seq<ChangeView>,
    second: Seq<ChangeView>,
)
    requires
        VirtualFS::take_changes_post(v0, v1, first),
        VirtualFS::take_changes_post(v1, v2, second),
    ensures
        first == v0.change_log(),
        second == Seq::<ChangeView>::empty(),
{
}

} // verus!
