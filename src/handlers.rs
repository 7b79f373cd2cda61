//! Handlers of the document notifications: open, change, close, cancel.
use vstd::prelude::*;

use crate::global_state::GlobalState;
use crate::lsp::RequestId;
use crate::mem_docs::DocEntries;
use crate::vfs::VirtualFS;
use crate::vfs_path::{PathView, VirtualFsPath};

verus! {

/// What opening `path` does to the document store.
pub open spec fn open_post(pre: DocEntries, post: DocEntries, path: PathView, version: i32, text: Seq<u8>) -> bool {
    post == pre.insert(path, (version, text))
}

/// What changing `path` does to the document store: an open document takes
/// the new text and version; otherwise nothing changes.
pub open spec fn change_post(pre: DocEntries, post: DocEntries, path: PathView, version: i32, text: Seq<u8>) -> bool {
    post == if pre.contains_key(path) {
        pre.insert(path, (version, text))
    } else {
        pre
    }
}

/// What closing `path` does to the document store.
pub open spec fn close_post(pre: DocEntries, post: DocEntries, path: PathView) -> bool {
    post == pre.remove(path)
}

/// Cancels the request `id`.
pub fn handle_cancel(state: &mut GlobalState, id: RequestId)
    ensures
        GlobalState::cancel_post(*old(state), *final(state), id.key()),
{
    state.cancel(id);
}

/// Opens a document and writes its text into the file system. A document
/// already open is replaced, and that is reported as `Err`.
pub fn handle_did_open_text_document(
    state: &mut GlobalState,
    path: VirtualFsPath,
    text: String,
    version: i32,
) -> (r: Result<(), ()>)
    requires
        old(state).wf(),
        old(state).files().has_room_for(path@),
    ensures
        final(state).wf(),
        open_post(
            old(state).docs(),
            final(state).docs(),
            path@,
            version,
            vstd::utf8::encode_utf8(text@),
        ),
        r is Err <==> old(state).docs().contains_key(path@),
        exists|changed: bool|
            VirtualFS::set_contents_post(
                old(state).files(),
                final(state).files(),
                path@,
                Some(vstd::utf8::encode_utf8(text@)),
                changed,
            ),
        final(state).pending() == old(state).pending(),
        final(state).sent() == old(state).sent(),
{
    let r = state.add_document(path.duplicate(), text.clone(), version);
    state.add_changes_into_document(path, text);
    r
}

/// Closes a document; closing one that is not open is reported as `Err`.
/// The file system keeps its copy.
pub fn handle_did_close_text_document(state: &mut GlobalState, path: &VirtualFsPath) -> (r: Result<
    (),
    (),
>)
    ensures
        close_post(old(state).docs(), final(state).docs(), path@),
        r is Ok <==> old(state).docs().contains_key(path@),
        final(state).files() == old(state).files(),
        final(state).pending() == old(state).pending(),
        final(state).sent() == old(state).sent(),
{
    state.remove_document(path)
}

/// Replaces the whole text of an open document and adopts the new version.
/// A change to a document that is not open is reported as `Err` and changes
/// nothing.
pub fn handle_did_change_text_document(
    state: &mut GlobalState,
    path: VirtualFsPath,
    text: String,
    version: i32,
) -> (r: Result<(), ()>)
    ensures
        change_post(
            old(state).docs(),
            final(state).docs(),
            path@,
            version,
            vstd::utf8::encode_utf8(text@),
        ),
        r is Ok <==> old(state).docs().contains_key(path@),
        final(state).files() == old(state).files(),
        final(state).pending() == old(state).pending(),
        final(state).sent() == old(state).sent(),
{
    state.change_document(path, text, version)
}

/// Opening a document, changing it, and closing it leaves the store without
/// it, having held the new version in between; changing a document that was
/// never opened leaves the store as it was.
pub proof fn lemma_document_lifecycle(
    d0: DocEntries,
    d1: DocEntries,
    d2: DocEntries,
    d3: DocEntries,
    path: PathView,
    v1: i32,
    v2: i32,
    t1: Seq<u8>,
    t2: Seq<u8>,
)
    requires
        open_post(d0, d1, path, v1, t1),
        change_post(d1, d2, path, v2, t2),
        close_post(d2, d3, path),
    ensures
        d1[path] == (v1, t1),
        d2[path] == (v2, t2),
        !d3.contains_key(path),
        forall|other: PathView| other != path ==> d3.contains_key(other) == d0.contains_key(other),
{
}

/// A change to a document that is not open leaves the store as it was.
pub proof fn lemma_change_of_unopened_is_noop(
    d0: DocEntries,
    d1: DocEntries,
    path: PathView,
    version: i32,
    text: Seq<u8>,
)
    requires
        !d0.contains_key(path),
        change_post(d0, d1, path, version, text),
    ensures
        d1 == d0,
{
}

} // verus!
