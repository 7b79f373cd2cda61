//! Maps file identities to dense integer handles. Handles are never freed:
//! the total number of identities ever seen is assumed to stay small.
use vstd::prelude::*;

use indexmap::IndexSet;
use rustc_hash::FxHasher;
use std::hash::BuildHasherDefault;

use crate::file_id::FileId;
use crate::vfs_path::{PathView, VirtualFsPath};

verus! {

/// Declares `indexmap::IndexSet`, the insertion-ordered set behind the
/// interner; it is only handled through the wrappers below.
#[verifier::external_type_specification]
#[verifier::external_body]
#[verifier::reject_recursive_types(T)]
#[verifier::reject_recursive_types(S)]
pub struct ExIndexSet<T, S>(IndexSet<T, S>);

/// Declares `rustc_hash::FxHasher`, the hasher of the interner and the
/// document store.
#[verifier::external_type_specification]
#[verifier::external_body]
pub struct ExFxHasher(FxHasher);

/// Declares `std::hash::BuildHasherDefault`, which builds `FxHasher`s.
#[verifier::external_type_specification]
#[verifier::external_body]
#[verifier::reject_recursive_types(H)]
pub struct ExBuildHasherDefault<H>(BuildHasherDefault<H>);

/// Insertion-ordered set of identities, hashed with `FxHasher`.
pub type PathSet = IndexSet<VirtualFsPath, BuildHasherDefault<FxHasher>>;

/// The identities held by a `PathSet`, in insertion order.
pub uninterp spec fn path_set_items(set: PathSet) -> Seq<PathView>;

/// Relies on `IndexSet::default`: the new set is empty.
#[verifier::external_body]
fn path_set_new() -> (r: PathSet)
    ensures
        path_set_items(r) == Seq::<PathView>::empty(),
{
    IndexSet::default()
}

/// Relies on `IndexSet::insert_full`: an identity already held keeps its
/// index and the set is unchanged; a new one is appended at the end.
#[verifier::external_body]
fn path_set_insert_full(set: &mut PathSet, value: VirtualFsPath) -> (r: (usize, bool))
    ensures
        path_set_items(*old(set)).contains(value@) ==> {
            &&& path_set_items(*final(set)) == path_set_items(*old(set))
            &&& r.0 < path_set_items(*old(set)).len()
            &&& path_set_items(*old(set))[r.0 as int] == value@
            &&& !r.1
        },
        !path_set_items(*old(set)).contains(value@) ==> {
            &&& path_set_items(*final(set)) == path_set_items(*old(set)).push(value@)
            &&& r.0 == path_set_items(*old(set)).len()
            &&& r.1
        },
{
    set.insert_full(value)
}

/// Relies on `IndexSet::get_index_of`: the index of an identity, if held.
#[verifier::external_body]
fn path_set_get_index_of(set: &PathSet, value: &VirtualFsPath) -> (r: Option<usize>)
    ensures
        r is None <==> !path_set_items(*set).contains(value@),
        r matches Some(i) ==> i < path_set_items(*set).len() && path_set_items(*set)[i as int]
            == value@,
{
    set.get_index_of(value)
}

/// Relies on `IndexSet::get_index`: the identity at a valid index.
#[verifier::external_body]
fn path_set_get_index(set: &PathSet, index: usize) -> (r: Option<&VirtualFsPath>)
    ensures
        index < path_set_items(*set).len() <==> r is Some,
        r matches Some(p) ==> p@ == path_set_items(*set)[index as int],
{
    set.get_index(index)
}

/// Relies on `IndexSet::clone`: the copy holds the same identities in the
/// same order.
#[verifier::external_body]
fn path_set_clone(set: &PathSet) -> (r: PathSet)
    ensures
        path_set_items(r) == path_set_items(*set),
{
    set.clone()
}

/// Relies on `IndexSet::len`: the number of identities held.
#[verifier::external_body]
fn path_set_len(set: &PathSet) -> (r: usize)
    ensures
        r == path_set_items(*set).len(),
{
    set.len()
}

/// No identity occurs twice in `paths`.
pub open spec fn distinct_paths(paths: Seq<PathView>) -> bool {
    forall|i: int, j: int|
        0 <= i < paths.len() && 0 <= j < paths.len() && i != j ==> #[trigger] paths[i]
            != #[trigger] paths[j]
}

/// The handle that interning `p` into `paths` yields: its position if held,
/// else the next free one.
pub open spec fn interned_index(paths: Seq<PathView>, p: PathView) -> int {
    if paths.contains(p) {
        choose|i: int| 0 <= i < paths.len() && paths[i] == p
    } else {
        paths.len() as int
    }
}

/// The identities after interning `p` into `paths`.
pub open spec fn after_intern(paths: Seq<PathView>, p: PathView) -> Seq<PathView> {
    if paths.contains(p) {
        paths
    } else {
        paths.push(p)
    }
}

/// Bidirectional map between identities and `FileId`s.
pub struct PathInterner {
    map: PathSet,
}

impl View for PathInterner {
    type V = Seq<PathView>;

    /// The interned identities; the one at position `i` has handle `i`.
    closed spec fn view(&self) -> Seq<PathView> {
        path_set_items(self.map)
    }
}

impl PathInterner {
    /// Every identity is interned once, and every handle fits a `FileId`.
    pub open spec fn wf(&self) -> bool {
        &&& distinct_paths(self@)
        &&& self@.len() <= FileId::MAX_FILE_ID
    }

    /// An interner that holds no identity.
    pub fn new() -> (r: PathInterner)
        ensures
            r.wf(),
            r@ == Seq::<PathView>::empty(),
    {
        PathInterner { map: path_set_new() }
    }

    /// The number of interned identities.
    pub fn len(&self) -> (r: usize)
        ensures
            r == self@.len(),
    {
        path_set_len(&self.map)
    }

    /// The handle of `path`, if it was interned; allocates nothing.
    pub fn get(&self, path: &VirtualFsPath) -> (r: Option<FileId>)
        requires
            self.wf(),
        ensures
            r is Some <==> self@.contains(path@),
            r matches Some(id) ==> id.0 == interned_index(self@, path@) && self@[id.0 as int]
                == path@,
    {
        match path_set_get_index_of(&self.map, path) {
            Some(i) => {
                proof {
                    lemma_interned_index_unique(self@, path@, i as int);
                }
                Some(FileId(i as u32))
            },
            None => None,
        }
    }

    /// The handle of `path`, interning it first if it is new.
    pub fn intern(&mut self, path: VirtualFsPath) -> (r: FileId)
        requires
            old(self).wf(),
            old(self)@.contains(path@) || old(self)@.len() < FileId::MAX_FILE_ID,
        ensures
            final(self).wf(),
            final(self)@ == after_intern(old(self)@, path@),
            old(self)@.is_prefix_of(final(self)@),
            r.0 == interned_index(old(self)@, path@),
            r.0 < final(self)@.len(),
            final(self)@[r.0 as int] == path@,
    {
        let ghost p = path@;
        let (id, _added) = path_set_insert_full(&mut self.map, path);
        proof {
            lemma_after_intern(old(self)@, p);
            assert(old(self)@.is_prefix_of(self@)) by {
                assert(self@.take(old(self)@.len() as int) =~= old(self)@);
            }
            if old(self)@.contains(p) {
                lemma_interned_index_unique(old(self)@, p, id as int);
            }
        }
        FileId(id as u32)
    }

    /// The identity behind a handle this interner produced.
    pub fn lookup(&self, id: FileId) -> (r: &VirtualFsPath)
        requires
            id.0 < self@.len(),
        ensures
            r@ == self@[id.0 as int],
    {
        match path_set_get_index(&self.map, id.0 as usize) {
            Some(p) => p,
            None => {
                proof {
                    assert(false);
                }
                path_set_get_index(&self.map, id.0 as usize).unwrap()
            },
        }
    }
}

impl Clone for PathInterner {
    fn clone(&self) -> PathInterner {
        PathInterner { map: path_set_clone(&self.map) }
    }
}

impl Default for PathInterner {
    fn default() -> (r: PathInterner)
        ensures
            r.wf(),
            r@ == Seq::<PathView>::empty(),
    {
        PathInterner::new()
    }
}

/// In a sequence without repeats, the position of an element is the one
/// `interned_index` picks.
pub proof fn lemma_interned_index_unique(paths: Seq<PathView>, p: PathView, i: int)
    requires
        distinct_paths(paths),
        0 <= i < paths.len(),
        paths[i] == p,
    ensures
        interned_index(paths, p) == i,
{
    assert(paths.contains(p));
    let k = interned_index(paths, p);
    assert(0 <= k < paths.len() && paths[k] == p);
}

/// Interning keeps identities unique, keeps the earlier handles, and the
/// handle it yields holds the interned identity.
pub proof fn lemma_after_intern(paths: Seq<PathView>, p: PathView)
    requires
        distinct_paths(paths),
    ensures
        distinct_paths(after_intern(paths, p)),
        0 <= interned_index(paths, p) < after_intern(paths, p).len(),
        after_intern(paths, p)[interned_index(paths, p)] == p,
        after_intern(paths, p).len() <= paths.len() + 1,
        forall|i: int| 0 <= i < paths.len() ==> #[trigger] after_intern(paths, p)[i] == paths[i],
{
    let next = after_intern(paths, p);
    if !paths.contains(p) {
        assert forall|i: int, j: int|
            0 <= i < next.len() && 0 <= j < next.len() && i != j implies #[trigger] next[i]
            != #[trigger] next[j] by {
            if i == paths.len() {
                assert(paths[j] == next[j]);
            } else if j == paths.len() {
                assert(paths[i] == next[i]);
            }
        }
    }
}

/// Two different identities get two different handles, and interning an
/// identity a second time gives the handle of the first time and interns
/// nothing new.
pub proof fn lemma_intern_distinct_and_idempotent(paths: Seq<PathView>, a: PathView, b: PathView)
    requires
        distinct_paths(paths),
    ensures
        a != b ==> interned_index(paths, a) != interned_index(after_intern(paths, a), b),
        interned_index(after_intern(paths, a), a) == interned_index(paths, a),
        after_intern(after_intern(paths, a), a) == after_intern(paths, a),
{
    let s1 = after_intern(paths, a);
    let ia = interned_index(paths, a);
    lemma_after_intern(paths, a);
    lemma_after_intern(s1, b);
    lemma_interned_index_unique(s1, a, ia);
    assert(s1.contains(a));
    if a != b {
        let ib = interned_index(s1, b);
        assert(after_intern(s1, b)[ia] == s1[ia]);
        assert(after_intern(s1, b)[ib] == b);
    }
}

/// Looking up the handle that interning yields gives back the interned
/// identity.
pub proof fn lemma_lookup_interned(paths: Seq<PathView>, p: PathView)
    requires
        distinct_paths(paths),
    ensures
        after_intern(paths, p)[interned_index(paths, p)] == p,
{
    lemma_after_intern(paths, p);
}

/// A handle handed out earlier keeps naming its identity however many
/// identities were interned since: interning that identity again gives the
/// same handle and adds nothing, interning another one gives another handle,
/// and looking the handle up gives the identity back.
pub proof fn lemma_earlier_handle_is_stable(
    earlier: Seq<PathView>,
    now: Seq<PathView>,
    handle: int,
    a: PathView,
    b: PathView,
)
    requires
        distinct_paths(now),
        earlier.is_prefix_of(now),
        0 <= handle < earlier.len(),
        earlier[handle] == a,
    ensures
        now[handle] == a,
        interned_index(now, a) == handle,
        after_intern(now, a) == now,
        a != b ==> interned_index(now, b) != handle,
        after_intern(now, b)[handle] == a,
{
    assert(now[handle] == earlier[handle]);
    lemma_interned_index_unique(now, a, handle);
    assert(now.contains(a));
    lemma_after_intern(now, b);
}

} // verus!
