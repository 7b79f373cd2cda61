//! Routes an incoming message to the handler of its method and turns the
//! handler's outcome into an answer.
use vstd::prelude::*;

use crate::config::json_is_null_value;
use crate::global_state::{GlobalState, GlobalStateSnapshot};
use crate::handlers::{
    change_post, close_post, open_post, handle_cancel, handle_did_change_text_document, handle_did_close_text_document,
    handle_did_open_text_document,
};
use crate::vfs::VirtualFS;
use crate::vfs_path::VirtualFsPath;
use crate::lsp::{
    Cancelled, HandlerError, HandlerResult, Message, Notification, Request, RequestId, Response,
    ResponseError, INTERNAL_ERROR, INVALID_PARAMS, INVALID_REQUEST, METHOD_NOT_FOUND,
};
use crate::text::starts_with_text;
use std::time::Instant;

verus! {

/// The answer a handler's outcome calls for: a response, or the
/// cancellation that suppresses one.
pub open spec fn answer_for(id: RequestId, result: HandlerResult) -> Result<Response, Cancelled> {
    match result {
        Ok(v) => Ok(Response { id, result: Some(v), error: None }),
        Err(HandlerError::Lsp(e)) => Ok(
            Response {
                id,
                result: None,
                error: Some(ResponseError { code: e.code, message: e.message }),
            },
        ),
        Err(HandlerError::Cancelled(c)) => Err(c),
        Err(HandlerError::Other(description)) => Ok(
            Response {
                id,
                result: None,
                error: Some(ResponseError { code: INTERNAL_ERROR, message: description }),
            },
        ),
    }
}

/// Turns a handler's outcome into the response for request `id`: a
/// result payload, the code and message of a protocol error, an internal
/// error with the failure's description, or no response at all for a
/// cancellation.
pub fn result_to_response(id: RequestId, result: HandlerResult) -> (r: Result<Response, Cancelled>)
    ensures
        r == answer_for(id, result),
{
    match result {
        Ok(value) => Ok(Response::new_ok(id, value)),
        Err(HandlerError::Lsp(e)) => Ok(Response::new_err(id, e.code, e.message)),
        Err(HandlerError::Cancelled(c)) => Err(c),
        Err(HandlerError::Other(description)) => Ok(
            Response::new_err(id, INTERNAL_ERROR, description),
        ),
    }
}

/// Sends the answer that a handler's outcome for request `id` calls for;
/// a cancellation sends nothing.
pub fn respond_with(state: &mut GlobalState, id: RequestId, result: HandlerResult)
    ensures
        match answer_for(id, result) {
            Ok(resp) => GlobalState::respond_post(*old(state), *final(state), resp),
            Err(_) => *final(state) == *old(state),
        },
{
    match result_to_response(id, result) {
        Ok(response) => state.respond(response),
        Err(_cancelled) => {},
    }
}

/// Routes one request through a chain of handlers.
pub struct RequestDispatcher {
    pub req: Option<Request>,
}

impl RequestDispatcher {
    /// What `parse(method, ..)` does to the dispatcher and the session: a
    /// request for another method is left for the next handler; a request
    /// for this method is taken, and if its parameters do not parse it is
    /// answered with `INVALID_PARAMS` and nothing is handed to a handler.
    pub open spec fn parse_post(
        pre: Option<Request>,
        post: Option<Request>,
        s_pre: GlobalState,
        s_post: GlobalState,
        method: Seq<char>,
        handed_out: Option<Request>,
    ) -> bool {
        match pre {
            None => post is None && handed_out is None && s_post == s_pre,
            Some(q) => if q.method@ != method {
                post == pre && handed_out is None && s_post == s_pre
            } else {
                &&& post is None
                &&& match handed_out {
                    Some(h) => h == q && s_post == s_pre,
                    None => GlobalState::error_answer_post(s_pre, s_post, q.id, INVALID_PARAMS),
                }
            },
        }
    }

    /// Takes the request if it is for `method` and its parameters parse;
    /// a request for another method is left in place. Parameters that do
    /// not parse are answered with `INVALID_PARAMS`, and `None` is returned
    /// so that no handler runs.
    pub fn parse<P, F>(&mut self, state: &mut GlobalState, method: &str, parse_params: F) -> (r:
        Option<(Request, P)>)
        where
            F: FnOnce(&serde_json::Value) -> Result<P, String>,
        requires
            forall|v: &serde_json::Value| #[trigger] parse_params.requires((v,)),
        ensures
            Self::parse_post(
                old(self).req,
                final(self).req,
                *old(state),
                *final(state),
                method@,
                match r {
                    Some(p) => Some(p.0),
                    None => None,
                },
            ),
            match old(self).req {
                Some(q) if q.method@ == method@ => {
                    &&& r matches Some(p) ==> parse_params.ensures((&q.params,), Ok(p.1))
                    &&& r is None ==> exists|e: String| parse_params.ensures((&q.params,), Err(e))
                },
                _ => true,
            },
    {
        let matches = match &self.req {
            Some(req) => crate::text::same_text(req.method.as_str(), method),
            None => false,
        };
        if !matches {
            return None;
        }
        let req = self.req.take().unwrap();
        match parse_params(&req.params) {
            Ok(params) => Some((req, params)),
            Err(message) => {
                let ghost pre = *state;
                let response = Response::new_err(req.id, INVALID_PARAMS, message);
                state.respond(response);
                assert(GlobalState::respond_post(pre, *state, response));
                None
            },
        }
    }

    /// What `finish` does: a request that no handler took is answered with
    /// `METHOD_NOT_FOUND`.
    pub open spec fn finish_post(
        pre: Option<Request>,
        post: Option<Request>,
        s_pre: GlobalState,
        s_post: GlobalState,
    ) -> bool {
        &&& post is None
        &&& match pre {
            None => s_post == s_pre,
            Some(q) => GlobalState::error_answer_post(s_pre, s_post, q.id, METHOD_NOT_FOUND),
        }
    }

    /// Ends the chain: a request that no handler took is answered with
    /// `METHOD_NOT_FOUND`.
    pub fn finish(&mut self, state: &mut GlobalState)
        ensures
            Self::finish_post(old(self).req, final(self).req, *old(state), *final(state)),
    {
        if let Some(req) = self.req.take() {
            let ghost pre = *state;
            let response = Response::new_err(
                req.id,
                METHOD_NOT_FOUND,
                "unknown request".to_owned(),
            );
            state.respond(response);
            assert(GlobalState::respond_post(pre, *state, response));
        }
    }

    /// After a shutdown request, a request still waiting for a handler is
    /// answered with `INVALID_REQUEST`.
    pub fn reject_after_shutdown(&mut self, state: &mut GlobalState)
        ensures
            final(self).req == old(self).req,
            match old(self).req {
                Some(q) if old(state).shutting_down() => exists|resp: Response|
                    #![trigger GlobalState::respond_post(*old(state), *final(state), resp)]
                    resp.id.key() == q.id.key() && resp.has_error_code(INVALID_REQUEST)
                        && GlobalState::respond_post(*old(state), *final(state), resp),
                _ => *final(state) == *old(state),
            },
    {
        if let Some(req) = &self.req {
            if state.is_shutting_down() {
                let ghost pre = *state;
                let response = Response::new_err(
                    req.id.duplicate(),
                    INVALID_REQUEST,
                    "Shutdown already requested".to_owned(),
                );
                state.respond(response);
                assert(GlobalState::respond_post(pre, *state, response));
            }
        }
    }
}

/// A request for a method that no handler in the chain serves is answered
/// exactly once, with `METHOD_NOT_FOUND` and the request's own id, once the
/// chain is finished.
pub proof fn lemma_unmatched_request_not_found(
    q: Request,
    d1: Option<Request>,
    d2: Option<Request>,
    s0: GlobalState,
    s1: GlobalState,
    s2: GlobalState,
    s3: GlobalState,
    first: Seq<char>,
    second: Seq<char>,
    h1: Option<Request>,
    h2: Option<Request>,
)
    requires
        q.method@ != first,
        q.method@ != second,
        s0.pending().contains_key(q.id.key()),
        RequestDispatcher::parse_post(Some(q), d1, s0, s1, first, h1),
        RequestDispatcher::parse_post(d1, d2, s1, s2, second, h2),
        RequestDispatcher::finish_post(d2, None, s2, s3),
    ensures
        h1 is None && h2 is None,
        s3.sent().len() == s0.sent().len() + 1,
        s3.sent().take(s0.sent().len() as int) == s0.sent(),
        s3.sent().last().id == q.id,
        s3.sent().last().has_error_code(METHOD_NOT_FOUND),
{
    let resp = choose|resp: Response|
        resp.id == q.id && resp.result is None && resp.has_error_code(METHOD_NOT_FOUND)
            && GlobalState::respond_post(s2, s3, resp);
    assert(s3.sent() == s0.sent().push(resp));
    assert(s3.sent().take(s0.sent().len() as int) =~= s0.sent());
}

/// A request whose parameters do not parse is answered exactly once, with
/// `INVALID_PARAMS` and the request's own id, and nothing is handed to its
/// handler.
pub proof fn lemma_malformed_params_invalid(
    q: Request,
    d1: Option<Request>,
    s0: GlobalState,
    s1: GlobalState,
    handed_out: Option<Request>,
)
    requires
        s0.pending().contains_key(q.id.key()),
        RequestDispatcher::parse_post(Some(q), d1, s0, s1, q.method@, handed_out),
        handed_out is None,
    ensures
        d1 is None,
        s1.sent().len() == s0.sent().len() + 1,
        s1.sent().take(s0.sent().len() as int) == s0.sent(),
        s1.sent().last().id == q.id,
        s1.sent().last().has_error_code(INVALID_PARAMS),
{
    let resp = choose|resp: Response|
        resp.id == q.id && resp.result is None && resp.has_error_code(INVALID_PARAMS)
            && GlobalState::respond_post(s0, s1, resp);
    assert(s1.sent() == s0.sent().push(resp));
    assert(s1.sent().take(s0.sent().len() as int) =~= s0.sent());
}

/// Relies on `serde_json::Value::Null`: the JSON `null` value.
#[verifier::external_body]
fn json_null() -> (r: serde_json::Value)
    ensures
        json_is_null_value(r),
{
    serde_json::Value::Null
}

/// Accepts any parameters, for a method that takes none.
fn no_params(_params: &serde_json::Value) -> (r: Result<(), String>)
    ensures
        r is Ok,
{
    Ok(())
}

/// The method of the shutdown request.
pub const SHUTDOWN: &'static str = "shutdown";

/// The method of the completion request.
pub const COMPLETION: &'static str = "textDocument/completion";

/// `post` is `pre` with `resp` sent through `respond`, whatever happened
/// to the shutdown flag: a pending request is answered, anything else is
/// dropped.
pub open spec fn answered(pre: GlobalState, post: GlobalState, resp: Response) -> bool {
    &&& post.docs() == pre.docs()
    &&& post.files() == pre.files()
    &&& post.awaiting() == pre.awaiting()
    &&& if pre.pending().contains_key(resp.id.key()) {
        &&& post.pending() == pre.pending().remove(resp.id.key())
        &&& post.sent() == pre.sent().push(resp)
    } else {
        &&& post.pending() == pre.pending()
        &&& post.sent() == pre.sent()
    }
}

/// What `on_request` does with `req`, given the completion parser and
/// handler.
pub open spec fn request_post<P, F, H>(
    pre: GlobalState,
    post: GlobalState,
    req: Request,
    parse_completion: F,
    handle_completion: H,
) -> bool where
    F: FnOnce(&serde_json::Value) -> Result<P, String>,
    H: FnOnce(GlobalStateSnapshot, P) -> HandlerResult,
 {
    &&& post.docs() == pre.docs()
    &&& post.files() == pre.files()
    &&& post.shutting_down() == (pre.shutting_down() || req.method@ == SHUTDOWN@)
    &&& if req.method@ == SHUTDOWN@ {
        exists|v: serde_json::Value|
            #![auto]
            json_is_null_value(v) && answered(
                pre,
                post,
                Response { id: req.id, result: Some(v), error: None },
            )
    } else if pre.shutting_down() {
        exists|resp: Response|
            #![trigger answered(pre, post, resp)]
            resp.id.key() == req.id.key() && resp.has_error_code(INVALID_REQUEST) && answered(
                pre,
                post,
                resp,
            )
    } else if req.method@ == COMPLETION@ {
        ||| (exists|e: String| parse_completion.ensures((&req.params,), Err(e)))
            && GlobalState::error_answer_post(pre, post, req.id, INVALID_PARAMS)
        ||| exists|snap: GlobalStateSnapshot, p: P, res: HandlerResult|
            #![trigger handle_completion.ensures((snap, p), res)]
            {
                &&& snap.mem_docs@ == pre.docs()
                &&& parse_completion.ensures((&req.params,), Ok(p))
                &&& handle_completion.ensures((snap, p), res)
                &&& match answer_for(req.id, res) {
                    Ok(resp) => GlobalState::respond_post(pre, post, resp),
                    Err(_) => post == pre,
                }
            }
    } else {
        GlobalState::error_answer_post(pre, post, req.id, METHOD_NOT_FOUND)
    }
}

/// Dispatches one request: `shutdown` marks the session as shutting down
/// and is answered with `null`; after a shutdown, any other request is
/// refused with `INVALID_REQUEST`; `textDocument/completion` is parsed with
/// `parse_completion` (refused with `INVALID_PARAMS` when that fails) and
/// handed, with a snapshot of the session, to `handle_completion`, whose
/// outcome is answered; any other request is answered with
/// `METHOD_NOT_FOUND`.
pub fn on_request<P, F, H>(state: &mut GlobalState, req: Request, parse_completion: F, handle_completion: H)
    where
        F: FnOnce(&serde_json::Value) -> Result<P, String>,
        H: FnOnce(GlobalStateSnapshot, P) -> HandlerResult,
    requires
        forall|v: &serde_json::Value| #[trigger] parse_completion.requires((v,)),
        forall|s: GlobalStateSnapshot, p: P| #[trigger] handle_completion.requires((s, p)),
    ensures
        request_post(*old(state), *final(state), req, parse_completion, handle_completion),
{
    let ghost pre = *state;
    let ghost q = req;
    proof {
        reveal_strlit("shutdown");
        reveal_strlit("textDocument/completion");
    }
    let mut dispatcher = RequestDispatcher { req: Some(req) };
    let shutdown: Option<(Request, ())> = dispatcher.parse(state, SHUTDOWN, no_params);
    let ghost s1 = *state;
    if let Some((taken, ())) = shutdown {
        state.request_shutdown();
        let ghost s_flag = *state;
        let null = json_null();
        respond_with(state, taken.id, Ok(null));
        assert(answered(pre, *state, Response { id: q.id, result: Some(null), error: None }));
    }
    let ghost s2 = *state;
    let ghost d2 = dispatcher.req;
    dispatcher.reject_after_shutdown(state);
    let ghost s3 = *state;
    let completion = dispatcher.parse(state, COMPLETION, parse_completion);
    let ghost s4 = *state;
    let ghost mut witness: Option<(GlobalStateSnapshot, HandlerResult)> = None;
    if let Some((taken, params)) = completion {
        let snap = state.snapshot();
        let ghost snap_copy = snap;
        let ghost p = params;
        let result = handle_completion(snap, params);
        proof {
            witness = Some((snap_copy, result));
            assert(handle_completion.ensures((snap_copy, p), result));
        }
        respond_with(state, taken.id, result);
    }
    let ghost s5 = *state;
    dispatcher.finish(state);
    proof {
        if q.method@ == SHUTDOWN@ {
            assert(s2 == *state) by {
                assert(d2 is None);
            }
        } else if pre.shutting_down() {
            assert(s1 == pre);
            assert(s2 == pre);
            let resp = choose|resp: Response|
                #![trigger GlobalState::respond_post(s2, s3, resp)]
                resp.id.key() == q.id.key() && resp.has_error_code(INVALID_REQUEST)
                    && GlobalState::respond_post(s2, s3, resp);
            assert(!s3.pending().contains_key(q.id.key()));
            if q.method@ == COMPLETION@ {
                if let Some((snap, res)) = witness {
                    match answer_for(q.id, res) {
                        Ok(r2) => assert(GlobalState::respond_post(s4, s5, r2)),
                        Err(_) => {},
                    }
                } else {
                    let r3 = choose|r3: Response|
                        #![trigger GlobalState::respond_post(s3, s4, r3)]
                        r3.id == q.id && r3.result is None && r3.has_error_code(INVALID_PARAMS)
                            && GlobalState::respond_post(s3, s4, r3);
                }
            } else {
                let r4 = choose|r4: Response|
                    #![trigger GlobalState::respond_post(s5, *state, r4)]
                    r4.id == q.id && r4.result is None && r4.has_error_code(METHOD_NOT_FOUND)
                        && GlobalState::respond_post(s5, *state, r4);
            }
            assert(answered(pre, *state, resp));
        } else {
            assert(s2 == pre);
            assert(s3 == pre);
            if q.method@ == COMPLETION@ {
                if let Some((snap, res)) = witness {
                    assert(s4 == pre);
                } else {
                    assert(s4 == s5);
                }
                assert(s5 == *state);
            } else {
                assert(s4 == pre);
                assert(s5 == pre);
            }
        }
    }
}

/// Records a new request, received at `request_received`, and dispatches
/// it as `on_request` does. A request for a method no handler serves gets
/// exactly one answer, `METHOD_NOT_FOUND` with its own id.
pub fn on_new_request<P, F, H>(
    state: &mut GlobalState,
    request_received: Instant,
    req: Request,
    parse_completion: F,
    handle_completion: H,
)
    where
        F: FnOnce(&serde_json::Value) -> Result<P, String>,
        H: FnOnce(GlobalStateSnapshot, P) -> HandlerResult,
    requires
        forall|v: &serde_json::Value| #[trigger] parse_completion.requires((v,)),
        forall|s: GlobalStateSnapshot, p: P| #[trigger] handle_completion.requires((s, p)),
    ensures
        final(state).docs() == old(state).docs(),
        final(state).files() == old(state).files(),
        final(state).shutting_down() == (old(state).shutting_down() || req.method@ == SHUTDOWN@),
        req.method@ != SHUTDOWN@ && req.method@ != COMPLETION@ && !old(state).shutting_down()
            ==> {
            &&& final(state).sent().len() == old(state).sent().len() + 1
            &&& final(state).sent().take(old(state).sent().len() as int) == old(state).sent()
            &&& final(state).sent().last().id == req.id
            &&& final(state).sent().last().has_error_code(METHOD_NOT_FOUND)
        },
        exists|registered: GlobalState|
            GlobalState::register_post(*old(state), registered, req.id.key(), req.method@)
                && request_post(registered, *final(state), req, parse_completion, handle_completion),
{
    let ghost pre = *state;
    let ghost q = req;
    state.register_request(&req, request_received);
    let ghost registered = *state;
    on_request(state, req, parse_completion, handle_completion);
    proof {
        if q.method@ != SHUTDOWN@ && q.method@ != COMPLETION@ && !pre.shutting_down() {
            let resp = choose|resp: Response|
                resp.id == q.id && resp.result is None && resp.has_error_code(METHOD_NOT_FOUND)
                    && GlobalState::respond_post(registered, *state, resp);
            assert(registered.pending().contains_key(q.id.key()));
            assert(state.sent() == pre.sent().push(resp));
            assert(state.sent().take(pre.sent().len() as int) =~= pre.sent());
        }
    }
}

/// Routes one notification through a chain of handlers.
pub struct NotificationDispatcher {
    pub notification: Option<Notification>,
}

impl NotificationDispatcher {
    /// Takes the notification if it is for `method` and hands out its
    /// parsed parameters; one for another method is left in place and
    /// `Ok(None)` returned. Parameters that do not parse are returned as
    /// `Err` with the parser's description.
    pub fn parse<P, F>(&mut self, method: &str, parse_params: F) -> (r: Result<Option<P>, String>)
        where
            F: FnOnce(&serde_json::Value) -> Result<P, String>,
        requires
            forall|v: &serde_json::Value| #[trigger] parse_params.requires((v,)),
        ensures
            match old(self).notification {
                Some(n) if n.method@ == method@ => {
                    &&& final(self).notification is None
                    &&& r matches Ok(Some(p)) ==> parse_params.ensures((&n.params,), Ok(p))
                    &&& r matches Err(e) ==> parse_params.ensures((&n.params,), Err(e))
                    &&& !(r matches Ok(None))
                },
                _ => final(self).notification == old(self).notification && r matches Ok(None),
            },
    {
        let matches = match &self.notification {
            Some(n) => crate::text::same_text(n.method.as_str(), method),
            None => false,
        };
        if !matches {
            return Ok(None);
        }
        let notification = self.notification.take().unwrap();
        match parse_params(&notification.params) {
            Ok(params) => Ok(Some(params)),
            Err(message) => Err(message),
        }
    }

    /// Ends the chain: whether a notification was left unhandled that
    /// should be reported. Methods under the `$/` namespace may go
    /// unhandled silently.
    pub fn finish(&self) -> (r: bool)
        ensures
            r == (match self.notification {
                Some(n) => !(n.method@.len() >= 2 && n.method@.take(2) == "$/"@),
                None => false,
            }),
    {
        match &self.notification {
            Some(n) => {
                let reserved = starts_with_text(n.method.as_str(), "$/");
                proof {
                    reveal_strlit("$/");
                }
                !reserved
            },
            None => false,
        }
    }
}

/// The method of the cancellation notification.
pub const CANCEL_REQUEST: &'static str = "$/cancelRequest";

/// The method of the document-opened notification.
pub const DID_OPEN: &'static str = "textDocument/didOpen";

/// The method of the document-changed notification.
pub const DID_CHANGE: &'static str = "textDocument/didChange";

/// The method of the document-closed notification.
pub const DID_CLOSE: &'static str = "textDocument/didClose";

/// The fields of an open or change notification: the document's identity
/// (or the URL text that named none), its full text, and its version.
pub struct DocumentParams {
    pub path: Result<VirtualFsPath, String>,
    pub text: String,
    pub version: i32,
}

/// What became of a notification.
#[derive(Debug, PartialEq, Eq)]
pub enum NotificationOutcome {
    /// A handler took it.
    Handled,
    /// Its parameters did not parse; the description is given.
    Malformed(String),
    /// Its document URL names no file; the URL text is given.
    NotAFile(String),
    /// It opened a document that was already open.
    DuplicateOpen,
    /// It opened a document whose identity is new, and no file id is left.
    FileIdsExhausted,
    /// It changed or closed a document that is not open.
    UnknownDocument,
    /// No handler serves its method.
    Unhandled,
    /// No handler serves its method, which is in the reserved `$/` space.
    Ignored,
}

/// `method` is none of the notifications with a handler.
pub open spec fn unserved_notification(method: Seq<char>) -> bool {
    method != CANCEL_REQUEST@ && method != DID_OPEN@ && method != DID_CHANGE@ && method != DID_CLOSE@
}

/// What `on_notification` does with `n`, given the four parsers, ending
/// in `post` and returning `r`.
pub open spec fn notification_post<FC, FO, FCh, FCl>(
    pre: GlobalState,
    post: GlobalState,
    n: Notification,
    parse_cancel: FC,
    parse_open: FO,
    parse_change: FCh,
    parse_close: FCl,
    r: NotificationOutcome,
) -> bool where
    FC: FnOnce(&serde_json::Value) -> Result<RequestId, String>,
    FO: FnOnce(&serde_json::Value) -> Result<DocumentParams, String>,
    FCh: FnOnce(&serde_json::Value) -> Result<DocumentParams, String>,
    FCl: FnOnce(&serde_json::Value) -> Result<Result<VirtualFsPath, String>, String>,
 {
    &&& (r is Malformed || r is NotAFile || r is Unhandled || r is Ignored || r is FileIdsExhausted
        ==> post == pre)
    &&& (unserved_notification(n.method@) ==> post == pre && (r
        is Unhandled || r is Ignored))
    &&& (unserved_notification(n.method@) ==> (r is Ignored <==> (n.method@.len() >= 2
        && n.method@.take(2) == "$/"@)))
    &&& (n.method@ == CANCEL_REQUEST@ ==> exists|o: Result<RequestId, String>|
        #[trigger] parse_cancel.ensures((&n.params,), o) && match o {
            Err(e) => r == NotificationOutcome::Malformed(e) && post == pre,
            Ok(id) => r == NotificationOutcome::Handled && GlobalState::cancel_post(
                pre,
                post,
                id.key(),
            ),
        })
    &&& (n.method@ == DID_OPEN@ ==> exists|o: Result<DocumentParams, String>|
        #[trigger] parse_open.ensures((&n.params,), o) && match o {
            Err(e) => r == NotificationOutcome::Malformed(e) && post == pre,
            Ok(p) => match p.path {
                Err(url) => r == NotificationOutcome::NotAFile(url) && post
                    == pre,
                Ok(path) => if !pre.files().has_room_for(path@) {
                    r == NotificationOutcome::FileIdsExhausted && post == pre
                } else {
                    &&& open_post(
                        pre.docs(),
                        post.docs(),
                        path@,
                        p.version,
                        vstd::utf8::encode_utf8(p.text@),
                    )
                    &&& exists|changed: bool|
                        VirtualFS::set_contents_post(
                            pre.files(),
                            post.files(),
                            path@,
                            Some(vstd::utf8::encode_utf8(p.text@)),
                            changed,
                        )
                    &&& (r == NotificationOutcome::DuplicateOpen <==> pre.docs().contains_key(path@))
                    &&& (r == NotificationOutcome::Handled || r == NotificationOutcome::DuplicateOpen)
                    &&& post.pending() == pre.pending()
                    &&& post.sent() == pre.sent()
                },
            },
        })
    &&& (n.method@ == DID_CHANGE@ ==> exists|o: Result<DocumentParams, String>|
        #[trigger] parse_change.ensures((&n.params,), o) && match o {
            Err(e) => r == NotificationOutcome::Malformed(e) && post == pre,
            Ok(p) => match p.path {
                Err(url) => r == NotificationOutcome::NotAFile(url) && post
                    == pre,
                Ok(path) => {
                    &&& change_post(
                        pre.docs(),
                        post.docs(),
                        path@,
                        p.version,
                        vstd::utf8::encode_utf8(p.text@),
                    )
                    &&& post.files() == pre.files()
                    &&& (r == NotificationOutcome::UnknownDocument <==> !pre.docs().contains_key(path@))
                    &&& (r == NotificationOutcome::Handled || r == NotificationOutcome::UnknownDocument)
                    &&& post.pending() == pre.pending()
                    &&& post.sent() == pre.sent()
                },
            },
        })
    &&& (n.method@ == DID_CLOSE@ ==> exists|o: Result<Result<VirtualFsPath, String>, String>|
        #[trigger] parse_close.ensures((&n.params,), o) && match o {
            Err(e) => r == NotificationOutcome::Malformed(e) && post == pre,
            Ok(Err(url)) => r == NotificationOutcome::NotAFile(url) && post == pre,
            Ok(Ok(path)) => {
                &&& close_post(pre.docs(), post.docs(), path@)
                &&& post.files() == pre.files()
                &&& (r == NotificationOutcome::UnknownDocument <==> !pre.docs().contains_key(path@))
                &&& (r == NotificationOutcome::Handled || r == NotificationOutcome::UnknownDocument)
                &&& post.pending() == pre.pending()
                &&& post.sent() == pre.sent()
            },
        })
}

/// Dispatches one notification to the handlers of cancellation and of the
/// document lifecycle. The parsers turn the raw parameters into the
/// handlers' values. A notification for another method changes nothing
/// and comes back `Unhandled`, or `Ignored` when its method is in the
/// reserved `$/` space.
pub fn on_notification<FC, FO, FCh, FCl>(
    state: &mut GlobalState,
    notification: Notification,
    parse_cancel: FC,
    parse_open: FO,
    parse_change: FCh,
    parse_close: FCl,
) -> (r: NotificationOutcome)
    where
        FC: FnOnce(&serde_json::Value) -> Result<RequestId, String>,
        FO: FnOnce(&serde_json::Value) -> Result<DocumentParams, String>,
        FCh: FnOnce(&serde_json::Value) -> Result<DocumentParams, String>,
        FCl: FnOnce(&serde_json::Value) -> Result<Result<VirtualFsPath, String>, String>,
    requires
        old(state).wf(),
        forall|v: &serde_json::Value| #[trigger] parse_cancel.requires((v,)),
        forall|v: &serde_json::Value| #[trigger] parse_open.requires((v,)),
        forall|v: &serde_json::Value| #[trigger] parse_change.requires((v,)),
        forall|v: &serde_json::Value| #[trigger] parse_close.requires((v,)),
    ensures
        final(state).wf(),
        notification_post(
            *old(state),
            *final(state),
            notification,
            parse_cancel,
            parse_open,
            parse_change,
            parse_close,
            r,
        ),
{
    let ghost method = notification.method@;
    proof {
        reveal_strlit("$/cancelRequest");
        reveal_strlit("textDocument/didOpen");
        reveal_strlit("textDocument/didChange");
        reveal_strlit("textDocument/didClose");
        assert(DID_OPEN@.len() != CANCEL_REQUEST@.len());
        assert(DID_CHANGE@.len() != CANCEL_REQUEST@.len());
        assert(DID_CLOSE@.len() != CANCEL_REQUEST@.len());
        assert(DID_CHANGE@.len() != DID_OPEN@.len());
        assert(DID_CLOSE@.len() != DID_CHANGE@.len());
        assert(DID_OPEN@.len() != DID_CLOSE@.len());
    }
    let mut dispatcher = NotificationDispatcher { notification: Some(notification) };
    match dispatcher.parse(CANCEL_REQUEST, parse_cancel) {
        Err(e) => return NotificationOutcome::Malformed(e),
        Ok(Some(id)) => {
            handle_cancel(state, id);
            return NotificationOutcome::Handled;
        },
        Ok(None) => {},
    }
    match dispatcher.parse(DID_OPEN, parse_open) {
        Err(e) => return NotificationOutcome::Malformed(e),
        Ok(Some(params)) => {
            return match params.path {
                Ok(path) => {
                    if !state.vfs_has_room_for(&path) {
                        return NotificationOutcome::FileIdsExhausted;
                    }
                    if handle_did_open_text_document(state, path, params.text, params.version).is_err() {
                        NotificationOutcome::DuplicateOpen
                    } else {
                        NotificationOutcome::Handled
                    }
                },
                Err(url) => NotificationOutcome::NotAFile(url),
            };
        },
        Ok(None) => {},
    }
    match dispatcher.parse(DID_CHANGE, parse_change) {
        Err(e) => return NotificationOutcome::Malformed(e),
        Ok(Some(params)) => {
            return match params.path {
                Ok(path) => {
                    if handle_did_change_text_document(state, path, params.text, params.version).is_err() {
                        NotificationOutcome::UnknownDocument
                    } else {
                        NotificationOutcome::Handled
                    }
                },
                Err(url) => NotificationOutcome::NotAFile(url),
            };
        },
        Ok(None) => {},
    }
    match dispatcher.parse(DID_CLOSE, parse_close) {
        Err(e) => return NotificationOutcome::Malformed(e),
        Ok(Some(path)) => {
            return match path {
                Ok(path) => {
                    if handle_did_close_text_document(state, &path).is_err() {
                        NotificationOutcome::UnknownDocument
                    } else {
                        NotificationOutcome::Handled
                    }
                },
                Err(url) => NotificationOutcome::NotAFile(url),
            };
        },
        Ok(None) => {},
    }
    if dispatcher.finish() {
        NotificationOutcome::Unhandled
    } else {
        NotificationOutcome::Ignored
    }
}

/// The method of the notification that ends the session.
pub const EXIT: &'static str = "exit";

/// What became of one incoming message.
#[derive(Debug, PartialEq, Eq)]
pub enum EventOutcome {
    /// The peer asked the server to exit.
    Exit,
    /// A request was dispatched; its answers wait in the outbox.
    Request,
    /// A notification was dispatched, with this outcome.
    Notification(NotificationOutcome),
    /// A response to a request of the server: the method that request was
    /// issued with, or `None` for an id the server never issued.
    Response(Option<String>),
}

/// Handles one incoming message: `exit` ends the session whatever came
/// before it; a request is registered and dispatched as `on_new_request`
/// does; a notification is dispatched as `on_notification` does; a response
/// completes the request of the server it answers.
pub fn handle_event<P, F, H, FC, FO, FCh, FCl>(
    state: &mut GlobalState,
    msg: Message,
    received: Instant,
    parse_completion: F,
    handle_completion: H,
    parse_cancel: FC,
    parse_open: FO,
    parse_change: FCh,
    parse_close: FCl,
) -> (r: EventOutcome)
    where
        F: FnOnce(&serde_json::Value) -> Result<P, String>,
        H: FnOnce(GlobalStateSnapshot, P) -> HandlerResult,
        FC: FnOnce(&serde_json::Value) -> Result<RequestId, String>,
        FO: FnOnce(&serde_json::Value) -> Result<DocumentParams, String>,
        FCh: FnOnce(&serde_json::Value) -> Result<DocumentParams, String>,
        FCl: FnOnce(&serde_json::Value) -> Result<Result<VirtualFsPath, String>, String>,
    requires
        old(state).wf(),
        forall|v: &serde_json::Value| #[trigger] parse_completion.requires((v,)),
        forall|s: GlobalStateSnapshot, p: P| #[trigger] handle_completion.requires((s, p)),
        forall|v: &serde_json::Value| #[trigger] parse_cancel.requires((v,)),
        forall|v: &serde_json::Value| #[trigger] parse_open.requires((v,)),
        forall|v: &serde_json::Value| #[trigger] parse_change.requires((v,)),
        forall|v: &serde_json::Value| #[trigger] parse_close.requires((v,)),
    ensures
        final(state).wf(),
        match msg {
            Message::Notification(n) => if n.method@ == EXIT@ {
                r is Exit && *final(state) == *old(state)
            } else {
                r matches EventOutcome::Notification(o) && notification_post(
                    *old(state),
                    *final(state),
                    n,
                    parse_cancel,
                    parse_open,
                    parse_change,
                    parse_close,
                    o,
                )
            },
            Message::Request(q) => r is Request && exists|registered: GlobalState|
                GlobalState::register_post(*old(state), registered, q.id.key(), q.method@)
                    && request_post(registered, *final(state), q, parse_completion, handle_completion),
            Message::Response(resp) => {
                &&& final(state).awaiting() == old(state).awaiting().remove(resp.id.key())
                &&& final(state).pending() == old(state).pending()
                &&& final(state).sent() == old(state).sent()
                &&& final(state).docs() == old(state).docs()
                &&& final(state).files() == old(state).files()
                &&& match r {
                    EventOutcome::Response(Some(m)) => old(state).awaiting().contains_key(
                        resp.id.key(),
                    ) && m@ == old(state).awaiting()[resp.id.key()],
                    EventOutcome::Response(None) => !old(state).awaiting().contains_key(
                        resp.id.key(),
                    ),
                    _ => false,
                }
            },
        },
{
    match msg {
        Message::Notification(n) => {
            if crate::text::same_text(n.method.as_str(), EXIT) {
                EventOutcome::Exit
            } else {
                EventOutcome::Notification(
                    on_notification(state, n, parse_cancel, parse_open, parse_change, parse_close),
                )
            }
        },
        Message::Request(q) => {
            on_new_request(state, received, q, parse_completion, handle_completion);
            EventOutcome::Request
        },
        Message::Response(resp) => EventOutcome::Response(state.complete_request(&resp)),
    }
}

} // verus!
