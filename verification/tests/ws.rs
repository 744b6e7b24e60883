use sensillum::config::ServerConfig;
use sensillum::info::{HeaderEntry, ObservedHeader};
use sensillum::response::Body;
use sensillum::ws::{build_session_info, complete_upgrade, find_header, find_text,
    handle_ws_upgrade, is_websocket_upgrade, origin_matches_host, read_handshake_key,
    switching_protocols, without_scheme};

fn config() -> ServerConfig {
    ServerConfig {
        port: 3030,
        node_name: None,
        hostname: "h".to_string(),
        url_prefix: None,
        redact_prefixes: vec!["x-origin-secret".to_string()],
        privacy_mode: false,
    }
}

fn header(name: &str, value: &str) -> ObservedHeader {
    ObservedHeader { name: name.to_string(), value: value.as_bytes().to_vec() }
}

fn upgrade_request(extra: Vec<ObservedHeader>) -> Vec<ObservedHeader> {
    let mut h = vec![
        header("Upgrade", "websocket"),
        header("Connection", "Upgrade"),
        header("Sec-WebSocket-Key", "dGhlIHNhbXBsZSBub25jZQ=="),
    ];
    h.extend(extra);
    h
}

fn matches(headers: Vec<ObservedHeader>) -> bool {
    origin_matches_host(&headers)
}

#[test]
fn evil_origin_is_marked_and_headers_are_withheld() {
    let headers = upgrade_request(vec![
        header("Origin", "https://evil.example"),
        header("Host", "good.example"),
    ]);
    let u = handle_ws_upgrade(
        "GET",
        &headers,
        "c:1".to_string(),
        "s:2".to_string(),
        &config(),
        "HTTP/1.1".to_string(),
    );
    assert_eq!(u.response.status, 101);
    let info = u.session.unwrap();
    assert!(info.origin_mismatch);
    assert!(info.headers.is_empty());
    assert_eq!(info.message_type, Some("headers".to_string()));
    assert_eq!(info.client_addr, "c:1");
}

#[test]
fn request_without_origin_keeps_its_headers() {
    let headers = upgrade_request(vec![header("Host", "good.example")]);
    let u = handle_ws_upgrade(
        "GET",
        &headers,
        "c:1".to_string(),
        "s:2".to_string(),
        &config(),
        "HTTP/1.1".to_string(),
    );
    assert_eq!(u.response.status, 101);
    let info = u.session.unwrap();
    assert!(!info.origin_mismatch);
    assert_eq!(info.headers.len(), 4);
    assert_eq!(info.headers[3].name, "host");
    assert_eq!(info.headers[3].entry, HeaderEntry::Text("good.example".to_string()));
    assert_eq!(info.message_type, Some("headers".to_string()));
}

#[test]
fn handshake_answers_with_the_accept_token() {
    let u = handle_ws_upgrade(
        "GET",
        &upgrade_request(vec![]),
        "c".to_string(),
        "s".to_string(),
        &config(),
        "HTTP/1.1".to_string(),
    );
    let r = u.response;
    assert_eq!(r.status, 101);
    assert_eq!(r.body, Body::Empty);
    assert_eq!(r.headers.len(), 3);
    assert_eq!(r.headers[0].name, "upgrade");
    assert_eq!(r.headers[0].value, b"websocket".to_vec());
    assert_eq!(r.headers[1].name, "connection");
    assert_eq!(r.headers[1].value, b"Upgrade".to_vec());
    assert_eq!(r.headers[2].name, "sec-websocket-accept");
    assert_eq!(r.headers[2].value, b"s3pPLMBiTxaQ9kYGzzhZRbK+xOo=".to_vec());
}

#[test]
fn missing_key_is_treated_as_empty() {
    let headers = vec![header("upgrade", "WebSocket")];
    let u = handle_ws_upgrade(
        "GET",
        &headers,
        "c".to_string(),
        "s".to_string(),
        &config(),
        "HTTP/1.1".to_string(),
    );
    assert_eq!(u.response.status, 101);
    assert_eq!(u.response.headers[2].value, b"Kfh9QIsMVZcl6xEPYxPHzW8SZ8w=".to_vec());
    assert_eq!(read_handshake_key(&headers), Vec::<u8>::new());
}

#[test]
fn response_does_not_depend_on_the_origin() {
    let same = handle_ws_upgrade(
        "GET",
        &upgrade_request(vec![header("Origin", "https://a.example"), header("Host", "a.example")]),
        "c".to_string(),
        "s".to_string(),
        &config(),
        "HTTP/1.1".to_string(),
    );
    let cross = handle_ws_upgrade(
        "GET",
        &upgrade_request(vec![header("Origin", "https://b.example"), header("Host", "a.example")]),
        "c".to_string(),
        "s".to_string(),
        &config(),
        "HTTP/1.1".to_string(),
    );
    assert_eq!(same.response, cross.response);
    assert!(!same.session.unwrap().origin_mismatch);
    assert!(cross.session.unwrap().origin_mismatch);
}

#[test]
fn other_method_is_not_allowed() {
    for method in ["POST", "get", "HEAD", ""] {
        let u = handle_ws_upgrade(
            method,
            &upgrade_request(vec![]),
            "c".to_string(),
            "s".to_string(),
            &config(),
            "HTTP/1.1".to_string(),
        );
        assert_eq!(u.response.status, 405);
        assert_eq!(u.response.headers.len(), 1);
        assert_eq!(u.response.headers[0].name, "Allow");
        assert_eq!(u.response.headers[0].value, b"GET".to_vec());
        assert_eq!(u.response.body, Body::Text("WebSocket upgrade requires GET".to_string()));
        assert_eq!(u.session, None);
    }
}

#[test]
fn request_without_upgrade_is_a_client_error() {
    for headers in [
        vec![],
        vec![header("Upgrade", "h2c")],
        vec![header("Connection", "Upgrade")],
        vec![ObservedHeader { name: "Upgrade".to_string(), value: vec![0xff] }],
    ] {
        let u = handle_ws_upgrade(
            "GET",
            &headers,
            "c".to_string(),
            "s".to_string(),
            &config(),
            "HTTP/1.1".to_string(),
        );
        assert_eq!(u.response.status, 400);
        assert!(u.response.headers.is_empty());
        assert_eq!(u.response.body, Body::Text("Expected WebSocket upgrade".to_string()));
        assert_eq!(u.session, None);
    }
}

#[test]
fn method_is_checked_before_the_upgrade_header() {
    let u = handle_ws_upgrade(
        "POST",
        &vec![],
        "c".to_string(),
        "s".to_string(),
        &config(),
        "HTTP/1.1".to_string(),
    );
    assert_eq!(u.response.status, 405);
}

#[test]
fn upgrade_header_is_compared_without_case() {
    assert!(is_websocket_upgrade(&vec![header("UPGRADE", "WebSocket")]));
    assert!(is_websocket_upgrade(&vec![header("upgrade", "WEBSOCKET")]));
    assert!(!is_websocket_upgrade(&vec![header("upgrade", "websocket ")]));
    assert!(!is_websocket_upgrade(&vec![header("upgrade", "web")]));
    assert!(!is_websocket_upgrade(&vec![]));
}

#[test]
fn origin_without_scheme_is_compared_with_host() {
    for scheme in ["https://", "http://", "wss://", "ws://", ""] {
        let origin = format!("{}good.example:8080", scheme);
        assert!(matches(vec![header("origin", &origin), header("host", "good.example:8080")]));
        assert!(!matches(vec![header("origin", &origin), header("host", "good.example")]));
    }
}

#[test]
fn absent_origin_matches() {
    assert!(matches(vec![]));
    assert!(matches(vec![header("host", "a")]));
}

#[test]
fn origin_without_host_does_not_match() {
    assert!(!matches(vec![header("origin", "https://a")]));
}

#[test]
fn origin_that_is_not_text_counts_as_absent() {
    let headers = vec![
        ObservedHeader { name: "origin".to_string(), value: vec![0xff, 0xfe] },
        header("host", "a"),
    ];
    assert!(origin_matches_host(&headers));
}

#[test]
fn unknown_scheme_stays() {
    assert!(!matches(vec![header("origin", "ftp://a"), header("host", "a")]));
    assert!(matches(vec![header("origin", "ftp://a"), header("host", "ftp://a")]));
    assert!(!matches(vec![header("origin", "HTTPS://a"), header("host", "a")]));
}

#[test]
fn only_one_scheme_is_removed() {
    let origin: Vec<char> = "https://http://a".chars().collect();
    let rest: String = without_scheme(&origin).iter().collect();
    assert_eq!(rest, "http://a");
    let bare: Vec<char> = "a.example".chars().collect();
    assert_eq!(without_scheme(&bare), bare.as_slice());
}

#[test]
fn first_header_of_a_name_is_found() {
    let headers = vec![header("Host", "one"), header("host", "two"), header("x", "y")];
    assert_eq!(find_header(&headers, "host"), Some(&b"one".to_vec()));
    assert_eq!(find_header(&headers, "x"), Some(&b"y".to_vec()));
    assert_eq!(find_header(&headers, "missing"), None);
    assert_eq!(find_text(&headers, "host"), Some("one".chars().collect()));
}

#[test]
fn switching_protocols_carries_the_token() {
    let r = switching_protocols("token==");
    assert_eq!(r.status, 101);
    assert_eq!(r.headers[2].value, b"token==".to_vec());
    assert_eq!(switching_protocols("bad\ntoken").status, 500);
}

#[test]
fn refused_token_opens_no_session() {
    let u = complete_upgrade(
        "GET",
        &upgrade_request(vec![]),
        "bad\ntoken",
        "c".to_string(),
        "s".to_string(),
        &config(),
        "HTTP/1.1".to_string(),
    );
    assert_eq!(u.response.status, 500);
    assert_eq!(u.session, None);
}

#[test]
fn session_snapshot_honours_redaction() {
    let headers = vec![header("X-Origin-Secret", "s3cret"), header("host", "a")];
    let info = build_session_info(
        &headers,
        "c".to_string(),
        "s".to_string(),
        &config(),
        "HTTP/2.0".to_string(),
    );
    assert_eq!(info.headers[0].entry, HeaderEntry::Redacted);
    assert_eq!(info.protocol, "HTTP/2.0");
    assert!(!info.origin_mismatch);
}
