//! A localhost HTTP bridge for webview command invocation.
//!
//! A sandboxed UI surface that cannot reach the host's native message
//! channel posts its commands as HTTP requests against a loopback port.
//! The bridge decodes each request, parks the connection in a correlation
//! store keyed by the caller-chosen callback id, and completes it later,
//! from any execution context, when the host-side dispatcher delivers the
//! command's outcome.

pub mod bridge;
pub mod cors;
pub mod headers;
pub mod json;
pub mod message;
pub mod origin;
pub mod path;
pub mod script;
pub mod store;

pub use bridge::{Completion, Invoke, PendingExchange, RequestAction};
pub use message::{
    HttpMethod, HttpResponse, Invocation, InvokeBody, InvokeResponse, RecievedMessage,
    RequestHead, ResponseBody,
};
pub use store::CorrelationStore;
