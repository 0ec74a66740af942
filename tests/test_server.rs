use simple_json_server::http::handle_http_request;
use simple_json_server::websocket::{handle_websocket_frame, handle_websocket_text, Frame, FrameAction};
use simple_json_server::demo::NamedServer as TestServer;
use simple_json_server::server::Service;

fn service(name: &str) -> Service<TestServer> {
    Service::new(TestServer::new(name.to_string())).expect("method names are distinct")
}

fn header<'a>(headers: &'a [(String, String)], name: &str) -> Option<&'a str> {
    headers.iter().find(|(n, _)| n.eq_ignore_ascii_case(name)).map(|(_, v)| v.as_str())
}

#[test]
fn test_http_method_not_allowed() {
    let server = service("HTTP-Method-Test");
    for verb in ["GET", "PUT", "DELETE", "PATCH"] {
        let body: &[u8] = if verb == "PUT" || verb == "PATCH" { br#"{"a":10,"b":5}"# } else { b"" };
        let response = handle_http_request(&server, verb, "/add", body);
        assert_eq!(response.status, 405);
        assert_eq!(header(&response.headers, "content-type"), Some("text/plain"));
        assert_eq!(response.body, "Method Not Allowed");
    }
    let response = handle_http_request(&server, "POST", "/add", br#"{"a":10,"b":5}"#);
    assert_eq!(response.status, 200);
    let result: i32 = serde_json::from_str(&response.body).expect("Failed to parse POST response");
    assert_eq!(result, 15);
}

#[test]
fn http_post_answers_with_json_and_cors_headers() {
    let server = service("HTTP-E2E-Test");
    let response = handle_http_request(&server, "POST", "/greet", br#"{"name":"World"}"#);
    assert_eq!(response.status, 200);
    assert_eq!(response.body, r#""Hello, World! I'm HTTP-E2E-Test""#);
    let expected = vec![
        ("Content-Type".to_string(), "application/json".to_string()),
        ("Access-Control-Allow-Origin".to_string(), "*".to_string()),
        ("Access-Control-Allow-Methods".to_string(), "POST, OPTIONS".to_string()),
        ("Access-Control-Allow-Headers".to_string(), "Content-Type".to_string()),
    ];
    assert_eq!(response.headers, expected);
}

#[test]
fn http_application_errors_still_answer_200() {
    let server = service("S");
    let response = handle_http_request(&server, "POST", "/nothing", b"{}");
    assert_eq!(response.status, 200);
    assert_eq!(response.body, r#""Unknown method: nothing""#);
    let response = handle_http_request(&server, "POST", "/add", b"{invalid");
    assert_eq!(response.status, 200);
    assert!(response.body.contains("Failed to parse JSON"));
}

#[test]
fn http_options_is_a_preflight() {
    let server = service("S");
    let response = handle_http_request(&server, "OPTIONS", "/anything/at/all", b"");
    assert_eq!(response.status, 200);
    assert_eq!(response.body, "");
    assert_eq!(header(&response.headers, "Access-Control-Allow-Origin"), Some("*"));
    assert_eq!(header(&response.headers, "Access-Control-Allow-Methods"), Some("POST, OPTIONS"));
    assert_eq!(header(&response.headers, "Content-Length"), Some("0"));
    assert_eq!(header(&response.headers, "Content-Type"), None);
}

#[test]
fn http_invalid_utf8_body_is_a_bad_request() {
    let server = service("S");
    let response = handle_http_request(&server, "POST", "/ping", &[0x7b, 0xff, 0x7d]);
    assert_eq!(response.status, 400);
    assert_eq!(response.body, "Invalid UTF-8 in request body");
    assert!(response.headers.is_empty());
}

#[test]
fn http_leading_slashes_are_stripped_from_the_method_name() {
    let server = service("S");
    let response = handle_http_request(&server, "POST", "//ping", b"{}");
    assert_eq!(response.body, r#""pong""#);
    assert_eq!(simple_json_server::http::method_name_of("///a/b"), "a/b");
    assert_eq!(simple_json_server::http::method_name_of(""), "");
}

#[test]
fn websocket_ping_envelope_gets_pong() {
    let server = service("WS");
    let reply = handle_websocket_text(&server, r#"{"method":"ping","params":{}}"#);
    assert_eq!(reply, r#""pong""#);
}

#[test]
fn websocket_malformed_json_reports_parse_error() {
    let server = service("WS-Invalid-Test");
    let text = handle_websocket_text(&server, "{invalid json}");
    let error_response: serde_json::Value = serde_json::from_str(&text).expect("Failed to parse error response");
    let error_msg = error_response["error"].as_str().unwrap();
    assert!(error_msg.starts_with("JSON parse error: "));
}

#[test]
fn websocket_envelope_without_method_or_params_is_invalid() {
    let server = service("WS-Invalid-Test");
    let expected = r#"{"error":"Invalid message format. Expected {\"method\": \"method_name\", \"params\": {...}}"}"#;
    assert_eq!(handle_websocket_text(&server, r#"{"params":{"a":10,"b":5}}"#), expected);
    assert_eq!(handle_websocket_text(&server, r#"{"method":"add"}"#), expected);
    assert_eq!(handle_websocket_text(&server, r#"{"method":7,"params":{}}"#), expected);
    assert_eq!(handle_websocket_text(&server, "[1,2]"), expected);
}

#[test]
fn websocket_params_are_dispatched() {
    let server = service("WS");
    let reply = handle_websocket_text(&server, r#"{"method":"add","params":{"a":10,"b":5}}"#);
    assert_eq!(reply, "15");
    let reply = handle_websocket_text(&server, r#"{"method":"echo","params":{"message":"Hello, Echo!"}}"#);
    assert_eq!(reply, r#""Hello, Echo!""#);
    let reply = handle_websocket_text(&server, r#"{"method":"add","params":{"a":10}}"#);
    assert_eq!(reply, r#""Failed to deserialize parameters for add: missing field `b`""#);
}

#[test]
fn websocket_frames_other_than_text_and_close_are_ignored() {
    let server = service("WS-MessageTypes-Test");
    assert!(matches!(handle_websocket_frame(&server, &Frame::Binary(vec![1, 2, 3])), FrameAction::Ignore));
    assert!(matches!(handle_websocket_frame(&server, &Frame::Ping(vec![])), FrameAction::Ignore));
    assert!(matches!(handle_websocket_frame(&server, &Frame::Pong(vec![9])), FrameAction::Ignore));
    assert!(matches!(handle_websocket_frame(&server, &Frame::Close), FrameAction::Stop));
    match handle_websocket_frame(&server, &Frame::Text(r#"{"method":"ping","params":{}}"#.to_string())) {
        FrameAction::Reply(text) => assert_eq!(text, "\"pong\""),
        other => panic!("expected a reply, got {:?}", other),
    }
}
