//! The bridge itself: per-request decoding and dispatch, and per-
//! completion lookup and response building. One `Invoke` value holds
//! the configured allow-list, the fixed loopback port, and the
//! correlation store of connections awaiting a command outcome.

use vstd::prelude::*;
use crate::cors::{cors, spec_cors_headers};
use crate::headers::{header_value, spec_header_value};
use crate::json::{json_text, to_json_text};
use crate::message::{
    HttpMethod, HttpResponse, Invocation, InvokeBody, InvokeResponse, RecievedMessage,
    RequestHead, ResponseBody,
};
use crate::origin::{origin_is_valid_url, url_ok};
use crate::store::CorrelationStore;

verus! {

/// One connection awaiting a command outcome, together with the origin
/// of the request that opened it: only that origin can answer the
/// cross-origin check when the response is finally built.
pub struct PendingExchange<C> {
    pub conn: C,
    pub origin: String,
}

/// What the listener does with one inbound request: answer it at once
/// (preflight, unknown surface, decode failure), or hand the decoded
/// invocation to the dispatcher while the connection waits in the
/// correlation store.
pub enum RequestAction<C> {
    Respond(HttpResponse, C),
    Dispatch(Invocation),
}

/// What a command completion came to: the response and the connection
/// it belongs to; no pending exchange under that id (a late or
/// duplicate completion, dropped silently); or a pending exchange whose
/// outcome the codec could not render.
pub enum Completion<C> {
    Completed(HttpResponse, C),
    NotFound,
    Failed(C),
}

/// The request's `Origin` header, if any.
pub open spec fn spec_origin_of(hh: Seq<(Seq<char>, Seq<char>)>) -> Option<Seq<char>> {
    spec_header_value(hh, "Origin"@)
}

/// The request's content type, defaulting to `application/json` when
/// the header is absent.
pub open spec fn spec_content_type(hh: Seq<(Seq<char>, Seq<char>)>) -> Seq<char> {
    match spec_header_value(hh, "Content-Type"@) {
        Some(ct) => ct,
        None => "application/json"@,
    }
}

/// Whether a non-preflight request to a live surface decodes: its
/// content type is the supported JSON type, it carries an `Origin`
/// header that is a valid absolute URL, and its body parsed as an
/// envelope.
pub open spec fn spec_decode_ok(
    hh: Seq<(Seq<char>, Seq<char>)>,
    parsed: Option<RecievedMessage>,
) -> bool {
    &&& spec_content_type(hh) == "application/json"@
    &&& parsed is Some
    &&& spec_origin_of(hh) matches Some(o) && url_ok(o)
}

/// The asynchronous correlation bridge. `C` is the connection handle a
/// transport hands in with each request and receives back with each
/// response; the bridge itself never reads it.
pub struct Invoke<C> {
    allowed_origins: Vec<String>,
    port: u16,
    requests: CorrelationStore<PendingExchange<C>>,
}

impl<C> Invoke<C> {
    /// The configured allow-list of origins.
    pub closed spec fn spec_allowed(&self) -> Seq<Seq<char>> {
        self.allowed_origins.deep_view()
    }

    /// The loopback port the bridge was built for.
    pub closed spec fn spec_port(&self) -> u16 {
        self.port
    }

    /// The pending exchanges, keyed by callback id.
    pub closed spec fn pending(&self) -> Map<u32, PendingExchange<C>> {
        self.requests@
    }

    /// A bridge for the given allow-list and port, with no exchange
    /// pending.
    pub fn new(allowed_origins: Vec<String>, port: u16) -> (s: Self)
        ensures
            s.spec_allowed() == allowed_origins.deep_view(),
            s.spec_port() == port,
            s.pending() == Map::<u32, PendingExchange<C>>::empty(),
    {
        Invoke { allowed_origins, port, requests: CorrelationStore::new() }
    }

    /// The port, for the transport and the bootstrap script.
    pub fn port(&self) -> (p: u16)
        ensures
            p == self.spec_port(),
    {
        self.port
    }

    /// The bootstrap script for this bridge's port.
    pub fn initialization_script(&self) -> (r: String)
        ensures
            r@ == crate::script::spec_script(self.spec_port()),
    {
        crate::script::bootstrap_script(self.port)
    }

    /// Decides one inbound request.
    ///
    /// A preflight `OPTIONS` is answered `200` with an empty body,
    /// whatever its path or body; a request to a surface the lookup
    /// did not find is answered `404`; a request that does not decode
    /// (unsupported content type, missing or invalid `Origin`, body
    /// that did not parse as an envelope) is answered `400`. All three
    /// answers carry the cross-origin headers, and none of them stores
    /// anything. A request that decodes is turned into an invocation
    /// for the dispatcher, and its connection is stored under the
    /// envelope's success-callback id, overwriting any prior entry
    /// under that id.
    ///
    /// `parsed` is the outcome of the external codec on the request
    /// body, and is only consulted when the content type is the
    /// supported JSON type.
    pub fn handle_request(
        &mut self,
        head: RequestHead,
        surface_found: bool,
        parsed: Option<RecievedMessage>,
        conn: C,
    ) -> (r: RequestAction<C>)
        ensures
            final(self).spec_allowed() == old(self).spec_allowed(),
            final(self).spec_port() == old(self).spec_port(),
            ({
                let ad = old(self).spec_allowed();
                let hh = head.headers.deep_view();
                let od = spec_origin_of(hh);
                &&& (head.method is Options ==> {
                    &&& r matches RequestAction::Respond(resp, c)
                    &&& c == conn
                    &&& resp.status == 200
                    &&& resp.body is Empty
                    &&& resp.headers.deep_view() == spec_cors_headers(ad, od)
                    &&& final(self).pending() == old(self).pending()
                })
                &&& (!(head.method is Options) && !surface_found ==> {
                    &&& r matches RequestAction::Respond(resp, c)
                    &&& c == conn
                    &&& resp.status == 404
                    &&& resp.body is Empty
                    &&& resp.headers.deep_view() == spec_cors_headers(ad, od)
                    &&& final(self).pending() == old(self).pending()
                })
                &&& (!(head.method is Options) && surface_found
                    && !spec_decode_ok(hh, parsed) ==> {
                    &&& r matches RequestAction::Respond(resp, c)
                    &&& c == conn
                    &&& resp.status == 400
                    &&& resp.body is Empty
                    &&& resp.headers.deep_view() == spec_cors_headers(ad, od)
                    &&& final(self).pending() == old(self).pending()
                })
                &&& (!(head.method is Options) && surface_found
                    && spec_decode_ok(hh, parsed) ==> {
                    let msg = parsed.unwrap();
                    &&& r matches RequestAction::Dispatch(inv)
                    &&& inv.cmd == msg.cmd
                    &&& inv.callback == msg.callback
                    &&& inv.error == msg.error
                    &&& Some(inv.url@) == od
                    &&& inv.body matches InvokeBody::Json(p)
                    &&& p == msg.payload
                    &&& inv.headers.deep_view() == hh
                    &&& final(self).pending().contains_key(msg.callback)
                    &&& final(self).pending()[msg.callback].conn == conn
                    &&& Some(final(self).pending()[msg.callback].origin@) == od
                    &&& final(self).pending().remove(msg.callback)
                        == old(self).pending().remove(msg.callback)
                })
            }),
    {
        let origin = header_value(&head.headers, "Origin");
        match head.method {
            HttpMethod::Options => {
                let headers = cors(&self.allowed_origins, &origin);
                RequestAction::Respond(
                    HttpResponse { status: 200, headers, body: ResponseBody::Empty },
                    conn,
                )
            },
            _ => {
                if !surface_found {
                    let headers = cors(&self.allowed_origins, &origin);
                    return RequestAction::Respond(
                        HttpResponse { status: 404, headers, body: ResponseBody::Empty },
                        conn,
                    );
                }
                let content_type = match header_value(&head.headers, "Content-Type") {
                    Some(ct) => ct,
                    None => String::from_str("application/json"),
                };
                let supported = content_type.eq(&String::from_str("application/json"));
                let origin_valid = match &origin {
                    Some(o) => origin_is_valid_url(o.as_str()),
                    None => false,
                };
                if supported && origin_valid && parsed.is_some() {
                    let msg = parsed.unwrap();
                    let origin_text = match origin {
                        Some(o) => o,
                        None => String::new(),
                    };
                    let exchange = PendingExchange { conn, origin: origin_text.clone() };
                    self.requests.insert(msg.callback, exchange);
                    RequestAction::Dispatch(Invocation {
                        cmd: msg.cmd,
                        callback: msg.callback,
                        error: msg.error,
                        url: origin_text,
                        body: InvokeBody::Json(msg.payload),
                        headers: head.headers,
                    })
                } else {
                    let headers = cors(&self.allowed_origins, &origin);
                    RequestAction::Respond(
                        HttpResponse { status: 400, headers, body: ResponseBody::Empty },
                        conn,
                    )
                }
            },
        }
    }

    /// Delivers one command completion.
    ///
    /// The pending exchange under `id` is removed and completed with a
    /// response built from the outcome: status `200` for success and
    /// `400` for an error, the JSON text of a structured payload or the
    /// raw bytes of a raw one as the body, and the cross-origin headers
    /// decided against the origin of the request that opened the
    /// exchange. A completion for an id with no pending exchange is
    /// reported as `NotFound` and changes nothing.
    pub fn complete(&mut self, id: u32, response: InvokeResponse) -> (r: Completion<C>)
        ensures
            final(self).spec_allowed() == old(self).spec_allowed(),
            final(self).spec_port() == old(self).spec_port(),
            !old(self).pending().contains_key(id) ==> r is NotFound
                && final(self).pending() == old(self).pending(),
            old(self).pending().contains_key(id) ==> {
                let ad = old(self).spec_allowed();
                let ex = old(self).pending()[id];
                let hd = spec_cors_headers(ad, Some(ex.origin@));
                &&& final(self).pending() == old(self).pending().remove(id)
                &&& (response matches InvokeResponse::Success(InvokeBody::Json(v)) ==> {
                    &&& json_text(v) matches Some(t) ==> ({
                        &&& r matches Completion::Completed(resp, c)
                        &&& c == ex.conn
                        &&& resp.status == 200
                        &&& resp.body matches ResponseBody::Text(s)
                        &&& s@ == t
                        &&& resp.headers.deep_view() == hd
                    })
                    &&& json_text(v) is None ==> ({
                        &&& r matches Completion::Failed(c)
                        &&& c == ex.conn
                    })
                })
                &&& (response matches InvokeResponse::Success(InvokeBody::Raw(b)) ==> {
                    &&& r matches Completion::Completed(resp, c)
                    &&& c == ex.conn
                    &&& resp.status == 200
                    &&& resp.body matches ResponseBody::Bytes(bs)
                    &&& bs == b
                    &&& resp.headers.deep_view() == hd
                })
                &&& (response matches InvokeResponse::Error(e) ==> {
                    &&& json_text(e) matches Some(t) ==> ({
                        &&& r matches Completion::Completed(resp, c)
                        &&& c == ex.conn
                        &&& resp.status == 400
                        &&& resp.body matches ResponseBody::Text(s)
                        &&& s@ == t
                        &&& resp.headers.deep_view() == hd
                    })
                    &&& json_text(e) is None ==> ({
                        &&& r matches Completion::Failed(c)
                        &&& c == ex.conn
                    })
                })
            },
    {
        let taken = self.requests.take_and_remove(id);
        match taken {
            None => Completion::NotFound,
            Some(exchange) => {
                let PendingExchange { conn, origin } = exchange;
                let origin_opt = Some(origin);
                match response {
                    InvokeResponse::Success(InvokeBody::Json(v)) => {
                        match to_json_text(&v) {
                            Ok(s) => {
                                let headers = cors(&self.allowed_origins, &origin_opt);
                                Completion::Completed(
                                    HttpResponse {
                                        status: 200,
                                        headers,
                                        body: ResponseBody::Text(s),
                                    },
                                    conn,
                                )
                            },
                            Err(_) => Completion::Failed(conn),
                        }
                    },
                    InvokeResponse::Success(InvokeBody::Raw(b)) => {
                        let headers = cors(&self.allowed_origins, &origin_opt);
                        Completion::Completed(
                            HttpResponse { status: 200, headers, body: ResponseBody::Bytes(b) },
                            conn,
                        )
                    },
                    InvokeResponse::Error(e) => {
                        match to_json_text(&e) {
                            Ok(s) => {
                                let headers = cors(&self.allowed_origins, &origin_opt);
                                Completion::Completed(
                                    HttpResponse {
                                        status: 400,
                                        headers,
                                        body: ResponseBody::Text(s),
                                    },
                                    conn,
                                )
                            },
                            Err(_) => Completion::Failed(conn),
                        }
                    },
                }
            },
        }
    }
}

} // verus!
