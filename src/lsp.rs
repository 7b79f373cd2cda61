//! Protocol values handled by the core: request ids, messages, responses,
//! error codes, and the two kinds of failure a handler reports.
use vstd::prelude::*;

verus! {

/// Declares `serde_json::Value`, carried opaquely as parameters and results.
#[verifier::external_type_specification]
#[verifier::external_body]
pub struct ExValue(serde_json::Value);

/// The request is not a valid request object, or arrived after shutdown.
pub const INVALID_REQUEST: i32 = -32600;

/// No handler serves the request's method.
pub const METHOD_NOT_FOUND: i32 = -32601;

/// The request's parameters do not have the shape its method expects.
pub const INVALID_PARAMS: i32 = -32602;

/// A handler failed for a reason of its own.
pub const INTERNAL_ERROR: i32 = -32603;

/// The client cancelled the request.
pub const REQUEST_CANCELED: i32 = -32800;

/// The identifier a request carries: a number or a string.
#[derive(Debug, Clone, PartialEq, Eq, Hash)]
pub enum RequestId {
    Number(i32),
    Text(String),
}

/// The value a request id stands for; a number and a string never match.
pub type RequestKey = (Option<i32>, Seq<char>);

impl RequestId {
    /// The id as a value.
    pub open spec fn key(&self) -> RequestKey {
        match self {
            RequestId::Number(n) => (Some(*n), Seq::empty()),
            RequestId::Text(s) => (None, s@),
        }
    }

    /// A copy of the id.
    pub fn duplicate(&self) -> (r: RequestId)
        ensures
            r.key() == self.key(),
    {
        match self {
            RequestId::Number(n) => RequestId::Number(*n),
            RequestId::Text(s) => RequestId::Text(s.clone()),
        }
    }
}

/// An error answer: a code and a description.
#[derive(Debug, Clone, PartialEq, Eq)]
pub struct ResponseError {
    pub code: i32,
    pub message: String,
}

/// The answer to a request: a result payload or an error.
#[derive(Debug)]
pub struct Response {
    pub id: RequestId,
    pub result: Option<serde_json::Value>,
    pub error: Option<ResponseError>,
}

/// A request from the peer.
#[derive(Debug)]
pub struct Request {
    pub id: RequestId,
    pub method: String,
    pub params: serde_json::Value,
}

/// A notification from the peer.
#[derive(Debug)]
pub struct Notification {
    pub method: String,
    pub params: serde_json::Value,
}

/// Any message of the protocol.
#[derive(Debug)]
pub enum Message {
    Request(Request),
    Response(Response),
    Notification(Notification),
}

impl Response {
    /// An error answer to request `id`.
    pub fn new_err(id: RequestId, code: i32, message: String) -> (r: Response)
        ensures
            r.id == id,
            r.result is None,
            r.error == Some((ResponseError { code, message })),
    {
        Response { id, result: None, error: Some(ResponseError { code, message }) }
    }

    /// A successful answer to request `id`.
    pub fn new_ok(id: RequestId, result: serde_json::Value) -> (r: Response)
        ensures
            r.id == id,
            r.result == Some(result),
            r.error is None,
    {
        Response { id, result: Some(result), error: None }
    }

    /// The response is an error answer with the given code.
    pub open spec fn has_error_code(&self, code: i32) -> bool {
        self.error matches Some(e) && e.code == code
    }
}

/// Why a computation was abandoned. Distinct from a failure: the request it
/// served has been answered already.
#[derive(Debug, Clone, Copy, PartialEq, Eq, Structural)]
pub enum Cancelled {
    /// The computation worked on a revision that a pending write replaces.
    PendingWrite,
    /// The computation waited on another one, and that one panicked.
    PropagatedPanic,
}

impl Cancelled {
    /// A description of the cancellation.
    pub fn describe(&self) -> (r: String)
        ensures
            r@ == (match self {
                Cancelled::PendingWrite => "cancelled because of pending write"@,
                Cancelled::PropagatedPanic => "cancelled because of propagated panic"@,
            }),
    {
        match self {
            Cancelled::PendingWrite => "cancelled because of pending write".to_owned(),
            Cancelled::PropagatedPanic => "cancelled because of propagated panic".to_owned(),
        }
    }
}

/// A failure that carries its own protocol error code.
#[derive(Debug, Clone, PartialEq, Eq)]
pub struct LspError {
    pub code: i32,
    pub message: String,
}

impl LspError {
    pub fn new(code: i32, message: String) -> (r: LspError)
        ensures
            r.code == code,
            r.message == message,
    {
        LspError { code, message }
    }
}

/// How a request handler failed.
#[derive(Debug)]
pub enum HandlerError {
    /// A protocol error, answered with its own code and message.
    Lsp(LspError),
    /// The computation was cancelled; the request is answered elsewhere.
    Cancelled(Cancelled),
    /// Any other failure, with its description.
    Other(String),
}

/// What a request handler returns: the serialised result or a failure.
pub type HandlerResult = Result<serde_json::Value, HandlerError>;

} // verus!
