//! Session state: configuration, request correlation, the document store,
//! the virtual file system, and the responses waiting to be sent.
use vstd::prelude::*;

use lsp_server::ReqQueue;
use std::sync::Arc;
use std::time::Instant;

use crate::config::Config;
use crate::lsp::{
    Request, RequestId, RequestKey, Response, ResponseError, REQUEST_CANCELED,
};
use crate::mem_docs::{DocEntries, DocumentData, MemDocs};
use crate::text::bytes_of;
use crate::vfs::{contents_view, unshare, ChangedFile, VirtualFS};
use crate::vfs_path::VirtualFsPath;

verus! {

/// Declares `lsp_server::ReqQueue`, the registry of pending requests; it is
/// only handled through the wrappers below.
#[verifier::external_type_specification]
#[verifier::external_body]
#[verifier::reject_recursive_types(I)]
#[verifier::reject_recursive_types(O)]
pub struct ExReqQueue<I, O>(ReqQueue<I, O>);

/// Declares `std::time::Instant`, carried with each pending request.
#[verifier::external_type_specification]
#[verifier::external_body]
pub struct ExInstant(Instant);

/// Pending requests: incoming ones with their method and receipt time,
/// outgoing ones with the method the server asked for.
pub type RequestQueue = ReqQueue<(String, Instant), String>;

/// Methods of pending requests, by id.
pub type PendingMap = Map<RequestKey, Seq<char>>;

/// The methods of the incoming requests not yet answered, by id.
pub uninterp spec fn pending_incoming(q: RequestQueue) -> PendingMap;

/// The methods of the requests the server issued and the client has not yet
/// answered, by id.
pub uninterp spec fn pending_outgoing(q: RequestQueue) -> PendingMap;

/// Relies on `ReqQueue::default`: nothing is pending.
#[verifier::external_body]
fn queue_new() -> (r: RequestQueue)
    ensures
        pending_incoming(r) == PendingMap::empty(),
        pending_outgoing(r) == PendingMap::empty(),
{
    ReqQueue::default()
}

/// Relies on `Incoming::register`: the request is pending with its data.
#[verifier::external_body]
fn queue_register_incoming(q: &mut RequestQueue, id: &RequestId, method: String, received: Instant)
    ensures
        pending_incoming(*final(q)) == pending_incoming(*old(q)).insert(id.key(), method@),
        pending_outgoing(*final(q)) == pending_outgoing(*old(q)),
{
    let id = match id {
        RequestId::Number(n) => lsp_server::RequestId::from(*n),
        RequestId::Text(s) => lsp_server::RequestId::from(s.clone()),
    };
    q.incoming.register(id, (method, received))
}

/// Relies on `Incoming::complete`: the request is no longer pending, and its
/// data is returned if it was.
#[verifier::external_body]
fn queue_complete_incoming(q: &mut RequestQueue, id: &RequestId) -> (r: Option<(String, Instant)>)
    ensures
        pending_incoming(*final(q)) == pending_incoming(*old(q)).remove(id.key()),
        pending_outgoing(*final(q)) == pending_outgoing(*old(q)),
        r is Some <==> pending_incoming(*old(q)).contains_key(id.key()),
        r matches Some(d) ==> d.0@ == pending_incoming(*old(q))[id.key()],
{
    let id = match id {
        RequestId::Number(n) => lsp_server::RequestId::from(*n),
        RequestId::Text(s) => lsp_server::RequestId::from(s.clone()),
    };
    q.incoming.complete(&id)
}

/// Relies on `Incoming::cancel`: the request is no longer pending, and if it
/// was, the error of the cancellation answer is returned.
#[verifier::external_body]
fn queue_cancel_incoming(q: &mut RequestQueue, id: &RequestId) -> (r: Option<ResponseError>)
    ensures
        pending_incoming(*final(q)) == pending_incoming(*old(q)).remove(id.key()),
        pending_outgoing(*final(q)) == pending_outgoing(*old(q)),
        r is Some <==> pending_incoming(*old(q)).contains_key(id.key()),
        r matches Some(e) ==> e.code == REQUEST_CANCELED && e.message@ == "canceled by client"@,
{
    let id = match id {
        RequestId::Number(n) => lsp_server::RequestId::from(*n),
        RequestId::Text(s) => lsp_server::RequestId::from(s.clone()),
    };
    q.incoming.cancel(id).and_then(|r| r.error).map(
        |e| ResponseError { code: e.code, message: e.message },
    )
}

/// Relies on `Outgoing::complete`: the request is no longer pending, and its
/// data is returned if it was.
#[verifier::external_body]
fn queue_complete_outgoing(q: &mut RequestQueue, id: &RequestId) -> (r: Option<String>)
    ensures
        pending_outgoing(*final(q)) == pending_outgoing(*old(q)).remove(id.key()),
        pending_incoming(*final(q)) == pending_incoming(*old(q)),
        r is Some <==> pending_outgoing(*old(q)).contains_key(id.key()),
        r matches Some(m) ==> m@ == pending_outgoing(*old(q))[id.key()],
{
    let id = match id {
        RequestId::Number(n) => lsp_server::RequestId::from(*n),
        RequestId::Text(s) => lsp_server::RequestId::from(s.clone()),
    };
    q.outgoing.complete(id)
}

/// The whole session.
pub struct GlobalState {
    pub config: Arc<Config>,
    req_queue: RequestQueue,
    pub shutdown_requested: bool,
    mem_docs: MemDocs,
    vfs: Arc<VirtualFS>,
    outbox: Vec<Response>,
}

/// A point-in-time view of the session: later changes to the document
/// store do not reach it, and the file system is shared until the session
/// next changes it, which then works on its own copy.
pub struct GlobalStateSnapshot {
    pub config: Arc<Config>,
    pub mem_docs: MemDocs,
    pub vfs: Arc<VirtualFS>,
}

impl GlobalState {
    /// Incoming requests not yet answered: id to method.
    pub closed spec fn pending(&self) -> PendingMap {
        pending_incoming(self.req_queue)
    }

    /// Requests the server issued that the client has not yet answered.
    pub closed spec fn awaiting(&self) -> PendingMap {
        pending_outgoing(self.req_queue)
    }

    /// Responses waiting to be sent, oldest first.
    pub closed spec fn sent(&self) -> Seq<Response> {
        self.outbox@
    }

    /// The open documents.
    pub closed spec fn docs(&self) -> DocEntries {
        self.mem_docs@
    }

    /// The virtual file system.
    pub closed spec fn files(&self) -> VirtualFS {
        *self.vfs
    }

    /// The shared configuration.
    pub closed spec fn configuration(&self) -> Arc<Config> {
        self.config
    }

    /// A shutdown was requested.
    pub closed spec fn shutting_down(&self) -> bool {
        self.shutdown_requested
    }

    /// The session is well formed.
    pub open spec fn wf(&self) -> bool {
        self.files().wf()
    }

    /// `post` is `pre` with only pending requests and the outbox changed.
    pub open spec fn same_documents(pre: GlobalState, post: GlobalState) -> bool {
        &&& post.docs() == pre.docs()
        &&& post.files() == pre.files()
        &&& post.shutting_down() == pre.shutting_down()
        &&& post.awaiting() == pre.awaiting()
    }

    /// What `register_request` does: the request becomes pending with its
    /// method.
    pub open spec fn register_post(pre: GlobalState, post: GlobalState, id: RequestKey, method: Seq<char>) -> bool {
        &&& Self::same_documents(pre, post)
        &&& post.pending() == pre.pending().insert(id, method)
        &&& post.sent() == pre.sent()
    }

    /// An error answer with `code` to the request `id` went through
    /// `respond`.
    pub open spec fn error_answer_post(pre: GlobalState, post: GlobalState, id: RequestId, code: i32) -> bool {
        exists|resp: Response|
            #![trigger Self::respond_post(pre, post, resp)]
            resp.id == id && resp.result is None && resp.has_error_code(code)
                && Self::respond_post(pre, post, resp)
    }

    /// What `respond(response)` does: a pending request is completed and its
    /// answer queued; an answer to anything else is dropped.
    pub open spec fn respond_post(pre: GlobalState, post: GlobalState, response: Response) -> bool {
        &&& Self::same_documents(pre, post)
        &&& if pre.pending().contains_key(response.id.key()) {
            &&& post.pending() == pre.pending().remove(response.id.key())
            &&& post.sent() == pre.sent().push(response)
        } else {
            &&& post.pending() == pre.pending()
            &&& post.sent() == pre.sent()
        }
    }

    /// What `cancel(id)` does: a pending request is completed with a
    /// cancellation answer; anything else is left alone.
    pub open spec fn cancel_post(pre: GlobalState, post: GlobalState, id: RequestKey) -> bool {
        &&& Self::same_documents(pre, post)
        &&& post.pending() == pre.pending().remove(id)
        &&& if pre.pending().contains_key(id) {
            &&& post.sent().len() == pre.sent().len() + 1
            &&& post.sent().take(pre.sent().len() as int) == pre.sent()
            &&& post.sent().last().id.key() == id
            &&& post.sent().last().result is None
            &&& post.sent().last().has_error_code(REQUEST_CANCELED)
        } else {
            post.sent() == pre.sent()
        }
    }

    /// A fresh session.
    pub fn new(config: Config) -> (r: GlobalState)
        ensures
            r.wf(),
            r.pending() == PendingMap::empty(),
            r.sent() == Seq::<Response>::empty(),
            r.docs() == DocEntries::empty(),
            !r.shutting_down(),
    {
        GlobalState {
            config: Arc::new(config),
            req_queue: queue_new(),
            shutdown_requested: false,
            mem_docs: MemDocs::new(),
            vfs: Arc::new(VirtualFS::new()),
            outbox: Vec::new(),
        }
    }

    /// Records an incoming request so that it can be answered or cancelled.
    pub fn register_request(&mut self, request: &Request, request_received: Instant)
        ensures
            Self::register_post(*old(self), *final(self), request.id.key(), request.method@),
    {
        queue_register_incoming(
            &mut self.req_queue,
            &request.id,
            request.method.clone(),
            request_received,
        );
    }

    /// Whether a shutdown was requested.
    pub fn is_shutting_down(&self) -> (r: bool)
        ensures
            r == self.shutting_down(),
    {
        self.shutdown_requested
    }

    /// Marks the session as shutting down.
    pub fn request_shutdown(&mut self)
        ensures
            final(self).shutting_down(),
            final(self).docs() == old(self).docs(),
            final(self).files() == old(self).files(),
            final(self).pending() == old(self).pending(),
            final(self).awaiting() == old(self).awaiting(),
            final(self).sent() == old(self).sent(),
    {
        self.shutdown_requested = true;
    }

    /// A snapshot of the session.
    pub fn snapshot(&self) -> (r: GlobalStateSnapshot)
        ensures
            r.mem_docs@ == self.docs(),
            r.config == self.configuration(),
            *r.vfs == self.files(),
    {
        GlobalStateSnapshot {
            config: Arc::clone(&self.config),
            mem_docs: self.mem_docs.duplicate(),
            vfs: Arc::clone(&self.vfs),
        }
    }

    /// The file system, unshared from any snapshot, for changing.
    fn take_vfs(&mut self) -> (r: VirtualFS)
        ensures
            r.paths() == old(self).files().paths(),
            r.states() == old(self).files().states(),
            r.change_log() == old(self).files().change_log(),
            final(self).docs() == old(self).docs(),
            final(self).pending() == old(self).pending(),
            final(self).awaiting() == old(self).awaiting(),
            final(self).sent() == old(self).sent(),
            final(self).shutting_down() == old(self).shutting_down(),
    {
        let mut shared = Arc::new(VirtualFS::new());
        std::mem::swap(&mut shared, &mut self.vfs);
        unshare(shared)
    }

    /// Answers a pending request; the answer to a request that was already
    /// answered or cancelled is dropped.
    pub fn respond(&mut self, response: Response)
        ensures
            Self::respond_post(*old(self), *final(self), response),
    {
        if let Some((_method, _start)) = queue_complete_incoming(&mut self.req_queue, &response.id) {
            self.send(response);
        } else {
            assert(self.pending() =~= old(self).pending());
        }
    }

    /// Queues a response for sending.
    fn send(&mut self, response: Response)
        ensures
            final(self).sent() == old(self).sent().push(response),
            final(self).pending() == old(self).pending(),
            Self::same_documents(*old(self), *final(self)),
    {
        self.outbox.push(response);
    }

    /// Cancels a pending request, answering it with a cancellation error.
    pub fn cancel(&mut self, request_id: RequestId)
        ensures
            Self::cancel_post(*old(self), *final(self), request_id.key()),
    {
        let ghost key = request_id.key();
        if let Some(error) = queue_cancel_incoming(&mut self.req_queue, &request_id) {
            let response = Response { id: request_id, result: None, error: Some(error) };
            self.send(response);
            assert(self.sent().take(old(self).sent().len() as int) =~= old(self).sent());
        }
    }

    /// Completes a request the server issued: returns the method it was
    /// registered with, or `None` if no such request is pending.
    pub fn complete_request(&mut self, response: &Response) -> (r: Option<String>)
        ensures
            final(self).awaiting() == old(self).awaiting().remove(response.id.key()),
            r is Some <==> old(self).awaiting().contains_key(response.id.key()),
            r matches Some(m) ==> m@ == old(self).awaiting()[response.id.key()],
            final(self).pending() == old(self).pending(),
            final(self).sent() == old(self).sent(),
            final(self).docs() == old(self).docs(),
            final(self).files() == old(self).files(),
    {
        queue_complete_outgoing(&mut self.req_queue, &response.id)
    }

    /// Hands out the queued responses, oldest first, and empties the queue.
    pub fn take_outbox(&mut self) -> (r: Vec<Response>)
        ensures
            r@ == old(self).sent(),
            final(self).sent() == Seq::<Response>::empty(),
            final(self).pending() == old(self).pending(),
            Self::same_documents(*old(self), *final(self)),
    {
        let mut taken: Vec<Response> = Vec::new();
        std::mem::swap(&mut taken, &mut self.outbox);
        taken
    }

    /// Whether the file system can intern `path`: it holds it already, or has
    /// room for another identity.
    pub fn vfs_has_room_for(&self, path: &VirtualFsPath) -> (r: bool)
        requires
            self.wf(),
        ensures
            r == self.files().has_room_for(path@),
    {
        self.vfs.can_intern(path)
    }

    /// The file system, for reading.
    pub fn vfs(&self) -> (r: &VirtualFS)
        ensures
            *r == self.files(),
    {
        &self.vfs
    }

    /// Hands out the file-system changes recorded since the last call.
    pub fn take_file_changes(&mut self) -> (r: Vec<ChangedFile>)
        requires
            old(self).wf(),
        ensures
            final(self).wf(),
            VirtualFS::take_changes_post(
                old(self).files(),
                final(self).files(),
                r@.map_values(|c: ChangedFile| c@),
            ),
            final(self).docs() == old(self).docs(),
            final(self).pending() == old(self).pending(),
            final(self).sent() == old(self).sent(),
    {
        let mut fs = self.take_vfs();
        let r = fs.take_changes();
        self.vfs = Arc::new(fs);
        r
    }

    /// Opens a document; a document already open at `path` is replaced and
    /// reported as `Err`.
    pub fn add_document(&mut self, path: VirtualFsPath, text: String, version: i32) -> (r: Result<(), ()>)
        ensures
            final(self).docs() == old(self).docs().insert(
                path@,
                (version, vstd::utf8::encode_utf8(text@)),
            ),
            r is Err <==> old(self).docs().contains_key(path@),
            final(self).files() == old(self).files(),
            final(self).pending() == old(self).pending(),
            final(self).sent() == old(self).sent(),
    {
        let data = DocumentData::new(version, bytes_of(text));
        self.mem_docs.insert(path, data)
    }

    /// Closes a document; closing one that is not open is reported as `Err`.
    pub fn remove_document(&mut self, path: &VirtualFsPath) -> (r: Result<(), ()>)
        ensures
            final(self).docs() == old(self).docs().remove(path@),
            r is Ok <==> old(self).docs().contains_key(path@),
            final(self).files() == old(self).files(),
            final(self).pending() == old(self).pending(),
            final(self).sent() == old(self).sent(),
    {
        self.mem_docs.remove(path)
    }

    /// Replaces the content and version of an open document; a document that
    /// is not open is left alone and reported as `Err`.
    pub fn change_document(&mut self, path: VirtualFsPath, text: String, version: i32) -> (r: Result<(), ()>)
        ensures
            r is Ok <==> old(self).docs().contains_key(path@),
            final(self).docs() == (if old(self).docs().contains_key(path@) {
                old(self).docs().insert(path@, (version, vstd::utf8::encode_utf8(text@)))
            } else {
                old(self).docs()
            }),
            final(self).files() == old(self).files(),
            final(self).pending() == old(self).pending(),
            final(self).sent() == old(self).sent(),
    {
        if !self.mem_docs.contains(&path) {
            return Err(());
        }
        let data = DocumentData::new(version, bytes_of(text));
        let _ = self.mem_docs.update(path, data);
        Ok(())
    }

    /// The open document at `path`, if any.
    pub fn get_document(&self, path: &VirtualFsPath) -> (r: Option<&DocumentData>)
        ensures
            r is Some <==> self.docs().contains_key(path@),
            r matches Some(d) ==> d@ == self.docs()[path@],
    {
        self.mem_docs.get(path)
    }

    /// Writes `text` into the file system as the content of `path`.
    pub fn add_changes_into_document(&mut self, path: VirtualFsPath, text: String) -> (r: bool)
        requires
            old(self).wf(),
            old(self).files().has_room_for(path@),
        ensures
            final(self).wf(),
            VirtualFS::set_contents_post(
                old(self).files(),
                final(self).files(),
                path@,
                Some(vstd::utf8::encode_utf8(text@)),
                r,
            ),
            final(self).docs() == old(self).docs(),
            final(self).pending() == old(self).pending(),
            final(self).sent() == old(self).sent(),
    {
        let bytes = bytes_of(text);
        let ghost b = bytes@;
        let contents = Some(bytes);
        assert(contents_view(contents) == Some(b));
        let mut fs = self.take_vfs();
        let r = fs.set_file_contents(path, contents);
        self.vfs = Arc::new(fs);
        r
    }
}

/// A request that is registered and then cancelled is answered exactly
/// once, with a cancellation error; an answer to it sent afterwards is
/// dropped.
pub proof fn lemma_cancel_then_respond(
    s0: GlobalState,
    s1: GlobalState,
    s2: GlobalState,
    s3: GlobalState,
    id: RequestKey,
    method: Seq<char>,
    late: Response,
)
    requires
        GlobalState::register_post(s0, s1, id, method),
        GlobalState::cancel_post(s1, s2, id),
        late.id.key() == id,
        GlobalState::respond_post(s2, s3, late),
    ensures
        s2.sent().len() == s0.sent().len() + 1,
        s2.sent().take(s0.sent().len() as int) == s0.sent(),
        s2.sent().last().id.key() == id,
        s2.sent().last().has_error_code(REQUEST_CANCELED),
        s3.sent() == s2.sent(),
        !s3.pending().contains_key(id),
{
}

} // verus!
