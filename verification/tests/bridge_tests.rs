use invoke_http::bridge::{Completion, Invoke, RequestAction};
use invoke_http::message::{
    HttpMethod, InvokeBody, InvokeResponse, RecievedMessage, RequestHead, ResponseBody,
};

fn headers(list: &[(&str, &str)]) -> Vec<(String, String)> {
    list.iter()
        .map(|(n, v)| (n.to_string(), v.to_string()))
        .collect()
}

fn origins(list: &[&str]) -> Vec<String> {
    list.iter().map(|s| s.to_string()).collect()
}

fn json(text: &str) -> serde_json::Value {
    serde_json::from_str(text).unwrap()
}

fn head(method: HttpMethod, path: &str, hs: &[(&str, &str)]) -> RequestHead {
    RequestHead { method, path: path.to_string(), headers: headers(hs) }
}

fn greet_message(callback: u32, error: u32) -> RecievedMessage {
    RecievedMessage {
        cmd: "greet".to_string(),
        callback,
        error,
        payload: json("{\"name\":\"a\"}"),
    }
}

fn good_headers() -> Vec<(&'static str, &'static str)> {
    vec![
        ("Origin", "http://tauri.localhost"),
        ("Content-Type", "application/json"),
    ]
}

fn header_pair<'a>(hs: &'a [(String, String)], name: &str) -> Option<&'a str> {
    hs.iter()
        .find(|(n, _)| n.eq_ignore_ascii_case(name))
        .map(|(_, v)| v.as_str())
}

#[test]
fn options_is_answered_at_once_with_cors_headers() {
    let mut bridge: Invoke<u32> = Invoke::new(origins(&["*"]), 1234);
    // Path unknown to any surface and no body: a preflight does not care.
    let action = bridge.handle_request(
        head(HttpMethod::Options, "/nowhere", &[]),
        false,
        None,
        7,
    );
    match action {
        RequestAction::Respond(resp, conn) => {
            assert_eq!(conn, 7);
            assert_eq!(resp.status, 200);
            assert!(matches!(resp.body, ResponseBody::Empty));
            assert_eq!(header_pair(&resp.headers, "Access-Control-Allow-Origin"), Some("*"));
            assert_eq!(header_pair(&resp.headers, "Access-Control-Allow-Headers"), Some("*"));
            assert_eq!(
                header_pair(&resp.headers, "Access-Control-Allow-Methods"),
                Some("POST, OPTIONS")
            );
        }
        RequestAction::Dispatch(_) => panic!("preflight must not dispatch"),
    }
}

#[test]
fn unknown_surface_is_404_and_stores_nothing() {
    let mut bridge: Invoke<u32> = Invoke::new(origins(&["*"]), 1234);
    let action = bridge.handle_request(
        head(HttpMethod::Post, "/ghost", &good_headers()),
        false,
        Some(greet_message(1, 2)),
        7,
    );
    match action {
        RequestAction::Respond(resp, conn) => {
            assert_eq!(conn, 7);
            assert_eq!(resp.status, 404);
            assert!(matches!(resp.body, ResponseBody::Empty));
            assert!(header_pair(&resp.headers, "Access-Control-Allow-Origin").is_some());
        }
        RequestAction::Dispatch(_) => panic!("unknown surface must not dispatch"),
    }
    // Nothing was stored: the callback id is unknown to the table.
    assert!(matches!(
        bridge.complete(1, InvokeResponse::Success(InvokeBody::Json(json("{}")))),
        Completion::NotFound
    ));
}

#[test]
fn unsupported_content_type_is_rejected() {
    let mut bridge: Invoke<u32> = Invoke::new(origins(&["*"]), 1234);
    let action = bridge.handle_request(
        head(
            HttpMethod::Post,
            "/main",
            &[("Origin", "http://tauri.localhost"), ("Content-Type", "text/plain")],
        ),
        true,
        Some(greet_message(1, 2)),
        7,
    );
    match action {
        RequestAction::Respond(resp, _) => assert_eq!(resp.status, 400),
        RequestAction::Dispatch(_) => panic!("unsupported content type must not dispatch"),
    }
}

#[test]
fn missing_origin_is_rejected() {
    let mut bridge: Invoke<u32> = Invoke::new(origins(&["*"]), 1234);
    let action = bridge.handle_request(
        head(HttpMethod::Post, "/main", &[("Content-Type", "application/json")]),
        true,
        Some(greet_message(1, 2)),
        7,
    );
    match action {
        RequestAction::Respond(resp, _) => assert_eq!(resp.status, 400),
        RequestAction::Dispatch(_) => panic!("a request without an origin must not dispatch"),
    }
}

#[test]
fn invalid_origin_url_is_rejected() {
    let mut bridge: Invoke<u32> = Invoke::new(origins(&["*"]), 1234);
    let action = bridge.handle_request(
        head(
            HttpMethod::Post,
            "/main",
            &[("Origin", "not an absolute url"), ("Content-Type", "application/json")],
        ),
        true,
        Some(greet_message(1, 2)),
        7,
    );
    match action {
        RequestAction::Respond(resp, _) => assert_eq!(resp.status, 400),
        RequestAction::Dispatch(_) => panic!("an invalid origin must not dispatch"),
    }
}

#[test]
fn unparsed_body_is_rejected() {
    let mut bridge: Invoke<u32> = Invoke::new(origins(&["*"]), 1234);
    let action = bridge.handle_request(head(HttpMethod::Post, "/main", &good_headers()), true, None, 7);
    match action {
        RequestAction::Respond(resp, _) => assert_eq!(resp.status, 400),
        RequestAction::Dispatch(_) => panic!("an unparsed body must not dispatch"),
    }
}

#[test]
fn port_is_kept_from_construction() {
    let bridge: Invoke<u32> = Invoke::new(origins(&["*"]), 4321);
    assert_eq!(bridge.port(), 4321);
}

#[test]
fn any_non_options_method_goes_through_decoding() {
    let mut bridge: Invoke<u32> = Invoke::new(origins(&["*"]), 1234);
    let action = bridge.handle_request(
        head(HttpMethod::Other, "/main", &good_headers()),
        true,
        Some(greet_message(1, 2)),
        7,
    );
    assert!(matches!(action, RequestAction::Dispatch(_)));
}

#[test]
fn content_type_defaults_to_json() {
    let mut bridge: Invoke<u32> = Invoke::new(origins(&["*"]), 1234);
    let action = bridge.handle_request(
        head(HttpMethod::Post, "/main", &[("Origin", "http://tauri.localhost")]),
        true,
        Some(greet_message(5, 6)),
        7,
    );
    assert!(matches!(action, RequestAction::Dispatch(_)));
}

#[test]
fn end_to_end_success() {
    let mut bridge: Invoke<u32> = Invoke::new(origins(&["http://tauri.localhost"]), 1234);
    let action = bridge.handle_request(
        head(HttpMethod::Post, "/main", &good_headers()),
        true,
        Some(greet_message(1, 2)),
        42,
    );
    match action {
        RequestAction::Dispatch(inv) => {
            assert_eq!(inv.cmd, "greet");
            assert_eq!(inv.callback, 1);
            assert_eq!(inv.error, 2);
            assert_eq!(inv.url, "http://tauri.localhost");
            match inv.body {
                InvokeBody::Json(p) => assert_eq!(p, json("{\"name\":\"a\"}")),
                InvokeBody::Raw(_) => panic!("a JSON envelope carries a JSON payload"),
            }
        }
        RequestAction::Respond(resp, _) => panic!("decode failed with status {}", resp.status),
    }
    let done = bridge.complete(1, InvokeResponse::Success(InvokeBody::Json(json("{\"msg\":\"hi a\"}"))));
    match done {
        Completion::Completed(resp, conn) => {
            assert_eq!(conn, 42);
            assert_eq!(resp.status, 200);
            match resp.body {
                ResponseBody::Text(t) => assert_eq!(t, "{\"msg\":\"hi a\"}"),
                _ => panic!("a JSON outcome is sent as JSON text"),
            }
            assert_eq!(
                header_pair(&resp.headers, "Access-Control-Allow-Origin"),
                Some("http://tauri.localhost")
            );
        }
        _ => panic!("the pending exchange was not completed"),
    }
}

#[test]
fn end_to_end_error() {
    let mut bridge: Invoke<u32> = Invoke::new(origins(&["http://tauri.localhost"]), 1234);
    bridge.handle_request(
        head(HttpMethod::Post, "/main", &good_headers()),
        true,
        Some(greet_message(1, 2)),
        42,
    );
    let done = bridge.complete(1, InvokeResponse::Error(json("{\"code\":1}")));
    match done {
        Completion::Completed(resp, conn) => {
            assert_eq!(conn, 42);
            assert_eq!(resp.status, 400);
            match resp.body {
                ResponseBody::Text(t) => assert_eq!(t, "{\"code\":1}"),
                _ => panic!("an error outcome is sent as JSON text"),
            }
        }
        _ => panic!("the pending exchange was not completed"),
    }
}

#[test]
fn raw_outcome_is_sent_as_bytes() {
    let mut bridge: Invoke<u32> = Invoke::new(origins(&["*"]), 1234);
    bridge.handle_request(
        head(HttpMethod::Post, "/main", &good_headers()),
        true,
        Some(greet_message(9, 10)),
        5,
    );
    let done = bridge.complete(9, InvokeResponse::Success(InvokeBody::Raw(vec![1, 2, 3])));
    match done {
        Completion::Completed(resp, conn) => {
            assert_eq!(conn, 5);
            assert_eq!(resp.status, 200);
            match resp.body {
                ResponseBody::Bytes(b) => assert_eq!(b, vec![1, 2, 3]),
                _ => panic!("a raw outcome is sent as-is"),
            }
        }
        _ => panic!("the pending exchange was not completed"),
    }
}

#[test]
fn completions_reach_their_own_connection_in_any_order() {
    let mut bridge: Invoke<u32> = Invoke::new(origins(&["*"]), 1234);
    for (id, conn) in [(1u32, 10u32), (2, 20), (3, 30)] {
        let action = bridge.handle_request(
            head(HttpMethod::Post, "/main", &good_headers()),
            true,
            Some(greet_message(id, id + 100)),
            conn,
        );
        assert!(matches!(action, RequestAction::Dispatch(_)));
    }
    // Delivered out of submission order.
    for (id, conn) in [(2u32, 20u32), (3, 30), (1, 10)] {
        match bridge.complete(id, InvokeResponse::Success(InvokeBody::Json(json("{}")))) {
            Completion::Completed(_, c) => assert_eq!(c, conn),
            _ => panic!("completion {} did not reach its connection", id),
        }
    }
    // No connection is completed twice.
    for id in [1u32, 2, 3] {
        assert!(matches!(
            bridge.complete(id, InvokeResponse::Success(InvokeBody::Json(json("{}")))),
            Completion::NotFound
        ));
    }
}

#[test]
fn unknown_completion_has_no_observable_effect() {
    let mut bridge: Invoke<u32> = Invoke::new(origins(&["*"]), 1234);
    bridge.handle_request(
        head(HttpMethod::Post, "/main", &good_headers()),
        true,
        Some(greet_message(1, 2)),
        42,
    );
    // A completion for an id never inserted is dropped silently...
    assert!(matches!(
        bridge.complete(99, InvokeResponse::Error(json("{}"))),
        Completion::NotFound
    ));
    // ...and the live exchange is untouched.
    match bridge.complete(1, InvokeResponse::Success(InvokeBody::Json(json("{}")))) {
        Completion::Completed(_, conn) => assert_eq!(conn, 42),
        _ => panic!("the live exchange was disturbed"),
    }
}

#[test]
fn colliding_callback_id_is_last_write_wins() {
    let mut bridge: Invoke<u32> = Invoke::new(origins(&["*"]), 1234);
    for conn in [10u32, 20] {
        bridge.handle_request(
            head(HttpMethod::Post, "/main", &good_headers()),
            true,
            Some(greet_message(1, 2)),
            conn,
        );
    }
    match bridge.complete(1, InvokeResponse::Success(InvokeBody::Json(json("{}")))) {
        Completion::Completed(_, conn) => assert_eq!(conn, 20),
        _ => panic!("the colliding exchange was lost entirely"),
    }
    assert!(matches!(
        bridge.complete(1, InvokeResponse::Success(InvokeBody::Json(json("{}")))),
        Completion::NotFound
    ));
}
