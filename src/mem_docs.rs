//! The documents currently open in the editor.
use vstd::prelude::*;

use rustc_hash::FxHashMap;

use crate::vfs_path::{PathView, VirtualFsPath};

verus! {

/// Open documents by identity, hashed with `FxHasher`.
pub type DocMap = FxHashMap<VirtualFsPath, DocumentData>;

/// A document as a value: its version and its content.
pub type DocView = (i32, Seq<u8>);

/// Documents as values, by identity.
pub type DocEntries = Map<PathView, DocView>;

/// The documents a `DocMap` holds.
pub uninterp spec fn doc_entries(m: DocMap) -> DocEntries;

/// Relies on `HashMap::default`: the new map is empty.
#[verifier::external_body]
fn doc_map_new() -> (r: DocMap)
    ensures
        doc_entries(r) == DocEntries::empty(),
{
    FxHashMap::default()
}

/// Relies on `HashMap::insert`: the key now maps to the value, and the value
/// it had before, if any, is returned.
#[verifier::external_body]
fn doc_map_insert(m: &mut DocMap, k: VirtualFsPath, v: DocumentData) -> (r: Option<DocumentData>)
    ensures
        doc_entries(*final(m)) == doc_entries(*old(m)).insert(k@, v@),
        r is Some <==> doc_entries(*old(m)).contains_key(k@),
        r matches Some(d) ==> d@ == doc_entries(*old(m))[k@],
{
    m.insert(k, v)
}

/// Relies on `HashMap::remove`: the key is gone, and its value, if any, is
/// returned.
#[verifier::external_body]
fn doc_map_remove(m: &mut DocMap, k: &VirtualFsPath) -> (r: Option<DocumentData>)
    ensures
        doc_entries(*final(m)) == doc_entries(*old(m)).remove(k@),
        r is Some <==> doc_entries(*old(m)).contains_key(k@),
        r matches Some(d) ==> d@ == doc_entries(*old(m))[k@],
{
    m.remove(k)
}

/// Relies on `HashMap::get`: the value of a key, if present.
#[verifier::external_body]
fn doc_map_get<'a>(m: &'a DocMap, k: &VirtualFsPath) -> (r: Option<&'a DocumentData>)
    ensures
        r is Some <==> doc_entries(*m).contains_key(k@),
        r matches Some(d) ==> d@ == doc_entries(*m)[k@],
{
    m.get(k)
}

/// Relies on `HashMap::contains_key`.
#[verifier::external_body]
fn doc_map_contains(m: &DocMap, k: &VirtualFsPath) -> (r: bool)
    ensures
        r == doc_entries(*m).contains_key(k@),
{
    m.contains_key(k)
}

/// Relies on `HashMap::clone`: the copy holds the same entries.
#[verifier::external_body]
fn doc_map_clone(m: &DocMap) -> (r: DocMap)
    ensures
        doc_entries(r) == doc_entries(*m),
{
    m.clone()
}

/// An open document: the version the client gave and the content.
#[derive(Debug, Clone)]
pub struct DocumentData {
    pub version: i32,
    pub data: Vec<u8>,
}

impl View for DocumentData {
    type V = DocView;

    open spec fn view(&self) -> DocView {
        (self.version, self.data@)
    }
}

impl DocumentData {
    pub fn new(version: i32, data: Vec<u8>) -> (r: DocumentData)
        ensures
            r.version == version,
            r.data == data,
    {
        DocumentData { version, data }
    }
}

/// The document store, with a flag raised whenever a document is added or
/// removed.
pub struct MemDocs {
    mem_docs: DocMap,
    added_or_removed: bool,
}

impl View for MemDocs {
    type V = Map<PathView, DocView>;

    closed spec fn view(&self) -> Map<PathView, DocView> {
        doc_entries(self.mem_docs)
    }
}

impl MemDocs {
    /// A document was added or removed since the flag was last taken.
    pub closed spec fn changed(&self) -> bool {
        self.added_or_removed
    }

    /// An empty store.
    pub fn new() -> (r: MemDocs)
        ensures
            r@ == DocEntries::empty(),
            !r.changed(),
    {
        MemDocs { mem_docs: doc_map_new(), added_or_removed: false }
    }

    /// A copy that later changes to either side do not reach.
    pub fn duplicate(&self) -> (r: MemDocs)
        ensures
            r@ == self@,
            r.changed() == self.changed(),
    {
        MemDocs { mem_docs: doc_map_clone(&self.mem_docs), added_or_removed: self.added_or_removed }
    }

    /// The store holds a document at `path`.
    pub fn contains(&self, path: &VirtualFsPath) -> (r: bool)
        ensures
            r == self@.contains_key(path@),
    {
        doc_map_contains(&self.mem_docs, path)
    }

    /// Stores `data` at `path`, replacing any document there; a replaced
    /// document is reported as `Err`.
    pub fn insert(&mut self, path: VirtualFsPath, data: DocumentData) -> (r: Result<(), ()>)
        ensures
            final(self)@ == old(self)@.insert(path@, data@),
            r is Err <==> old(self)@.contains_key(path@),
            final(self).changed(),
    {
        self.added_or_removed = true;
        match doc_map_insert(&mut self.mem_docs, path, data) {
            Some(_) => Err(()),
            None => Ok(()),
        }
    }

    /// Drops the document at `path`; a missing one is reported as `Err`.
    pub fn remove(&mut self, path: &VirtualFsPath) -> (r: Result<(), ()>)
        ensures
            final(self)@ == old(self)@.remove(path@),
            r is Ok <==> old(self)@.contains_key(path@),
            final(self).changed(),
    {
        self.added_or_removed = true;
        match doc_map_remove(&mut self.mem_docs, path) {
            Some(_) => Ok(()),
            None => Err(()),
        }
    }

    /// Replaces the document at `path` if one is open there; the flag stays
    /// as it was, since nothing was added or removed.
    pub fn update(&mut self, path: VirtualFsPath, data: DocumentData) -> (r: Result<(), ()>)
        ensures
            r is Ok <==> old(self)@.contains_key(path@),
            final(self)@ == (if old(self)@.contains_key(path@) {
                old(self)@.insert(path@, data@)
            } else {
                old(self)@
            }),
            final(self).changed() == old(self).changed(),
    {
        if !doc_map_contains(&self.mem_docs, &path) {
            return Err(());
        }
        let _ = doc_map_insert(&mut self.mem_docs, path, data);
        Ok(())
    }

    /// The document at `path`, if open.
    pub fn get(&self, path: &VirtualFsPath) -> (r: Option<&DocumentData>)
        ensures
            r is Some <==> self@.contains_key(path@),
            r matches Some(d) ==> d@ == self@[path@],
    {
        doc_map_get(&self.mem_docs, path)
    }

    /// Whether documents were added or removed since the last call; lowers
    /// the flag.
    pub fn take_changes(&mut self) -> (r: bool)
        ensures
            r == old(self).changed(),
            !final(self).changed(),
            final(self)@ == old(self)@,
    {
        let r = self.added_or_removed;
        self.added_or_removed = false;
        r
    }
}

impl Default for MemDocs {
    fn default() -> (r: MemDocs)
        ensures
            r@ == DocEntries::empty(),
            !r.changed(),
    {
        MemDocs::new()
    }
}

} // verus!
