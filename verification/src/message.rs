//! The data carried through the bridge: the decoded request envelope,
//! the normalized invocation record handed to the command dispatcher,
//! the command outcome handed back, and the HTTP response that
//! completes an exchange.

use vstd::prelude::*;

verus! {

/// The request method, as far as the bridge distinguishes it: a
/// preflight `OPTIONS` is answered at once, every other method goes
/// through decoding.
pub enum HttpMethod {
    Options,
    Post,
    Other,
}

/// The part of an inbound HTTP request the bridge reads: method, path,
/// and the header set in arrival order.
pub struct RequestHead {
    pub method: HttpMethod,
    pub path: String,
    pub headers: Vec<(String, String)>,
}

/// The JSON envelope a UI surface posts: command name, the two
/// callback ids, and an arbitrary payload carried through opaquely.
pub struct RecievedMessage {
    pub cmd: String,
    pub callback: u32,
    pub error: u32,
    pub payload: serde_json::Value,
}

/// A command's body: a structured JSON value, or raw bytes passed
/// through as they are.
pub enum InvokeBody {
    Json(serde_json::Value),
    Raw(Vec<u8>),
}

/// A command's outcome as the dispatcher delivers it: a success body,
/// or an error payload.
pub enum InvokeResponse {
    Success(InvokeBody),
    Error(serde_json::Value),
}

/// One decoded command request, normalized for the dispatcher: the
/// envelope's fields, the validated origin URL, and the request's
/// header set.
pub struct Invocation {
    pub cmd: String,
    pub callback: u32,
    pub error: u32,
    pub url: String,
    pub body: InvokeBody,
    pub headers: Vec<(String, String)>,
}

/// A response body: empty, JSON text, or raw bytes.
pub enum ResponseBody {
    Empty,
    Text(String),
    Bytes(Vec<u8>),
}

/// One HTTP response, ready to be written to a connection: status,
/// the full header set to attach, and the body.
pub struct HttpResponse {
    pub status: u16,
    pub headers: Vec<(String, String)>,
    pub body: ResponseBody,
}

} // verus!
