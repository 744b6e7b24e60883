use sensillum::build_info::{build_time, full_version, version};
use sensillum::config::ServerConfig;
use sensillum::echo::handle_echo;
use sensillum::index::{handle_index, make_version_line};
use sensillum::info::{HeaderEntry, ObservedHeader};
use sensillum::response::{Body, Response};
use sensillum::sse::{handle_sse, headers_event, heartbeat_event};

fn config(privacy: bool) -> ServerConfig {
    ServerConfig {
        port: 3030,
        node_name: Some("node-a".to_string()),
        hostname: "h".to_string(),
        url_prefix: Some("/api".to_string()),
        redact_prefixes: vec!["x-origin-secret".to_string()],
        privacy_mode: privacy,
    }
}

fn headers() -> Vec<ObservedHeader> {
    vec![
        ObservedHeader { name: "Accept".to_string(), value: b"*/*".to_vec() },
        ObservedHeader { name: "X-Origin-Secret".to_string(), value: b"s".to_vec() },
    ]
}

fn header_list(r: &Response) -> Vec<(String, String)> {
    r.headers
        .iter()
        .map(|h| (h.name.clone(), String::from_utf8(h.value.clone()).unwrap()))
        .collect()
}

fn pair(a: &str, b: &str) -> (String, String) {
    (a.to_string(), b.to_string())
}

#[test]
fn echo_adds_path_and_query() {
    let r = handle_echo(
        &headers(),
        &config(false),
        "c:1".to_string(),
        "s:2".to_string(),
        "HTTP/1.1".to_string(),
        "/api/echo/x".to_string(),
        Some("a=1&b=%20".to_string()),
    );
    assert_eq!(r.status, 200);
    assert_eq!(
        header_list(&r),
        vec![
            pair("Content-Type", "application/json"),
            pair("Access-Control-Allow-Origin", "*"),
            pair("Access-Control-Allow-Headers", "*"),
            pair("Access-Control-Expose-Headers", "*"),
        ]
    );
    match r.body {
        Body::Snapshot(info) => {
            assert_eq!(info.path, Some("/api/echo/x".to_string()));
            assert_eq!(info.query, Some("a=1&b=%20".to_string()));
            assert_eq!(info.client_addr, "c:1");
            assert_eq!(info.server_addr, Some("s:2".to_string()));
            assert_eq!(info.headers[0].entry, HeaderEntry::Text("*/*".to_string()));
            assert_eq!(info.headers[1].entry, HeaderEntry::Redacted);
            assert_eq!(info.message_type, None);
        },
        other => panic!("no snapshot: {:?}", other),
    }
}

#[test]
fn echo_without_query() {
    let r = handle_echo(
        &vec![],
        &config(true),
        "c".to_string(),
        "s".to_string(),
        "HTTP/2.0".to_string(),
        "/echo".to_string(),
        None,
    );
    match r.body {
        Body::Snapshot(info) => {
            assert_eq!(info.path, Some("/echo".to_string()));
            assert_eq!(info.query, None);
            assert_eq!(info.server_addr, None);
            assert_eq!(info.node_name, Some("node-a".to_string()));
        },
        other => panic!("no snapshot: {:?}", other),
    }
}

#[test]
fn index_is_an_uncached_page() {
    let r = handle_index(
        &headers(),
        "c".to_string(),
        "s".to_string(),
        &config(false),
        "HTTP/1.1".to_string(),
    );
    assert_eq!(r.status, 200);
    assert_eq!(
        header_list(&r),
        vec![
            pair("Content-Type", "text/html; charset=utf-8"),
            pair("Cache-Control", "no-cache, no-store, must-revalidate"),
            pair("Pragma", "no-cache"),
            pair("Expires", "0"),
        ]
    );
    match r.body {
        Body::Page { info, version_line } => {
            assert_eq!(info.headers.len(), 2);
            assert_eq!(info.url_prefix, Some("/api".to_string()));
            assert_eq!(version_line, make_version_line(false));
        },
        other => panic!("no page: {:?}", other),
    }
}

#[test]
fn version_line_in_both_modes() {
    assert_eq!(
        make_version_line(true),
        format!("<span class=\"version\">Sensillum v{}</span>", version())
    );
    assert_eq!(
        make_version_line(false),
        format!(
            "<span class=\"version\">Sensillum v{} (built {})</span>",
            full_version(),
            build_time()
        )
    );
}

#[test]
fn index_in_privacy_mode_names_the_bare_version() {
    let r = handle_index(&vec![], "c".to_string(), "s".to_string(), &config(true),
        "HTTP/1.1".to_string());
    match r.body {
        Body::Page { info, version_line } => {
            assert_eq!(info.hostname, None);
            assert_eq!(version_line, make_version_line(true));
        },
        other => panic!("no page: {:?}", other),
    }
}

#[test]
fn event_stream_opens_with_the_snapshot() {
    let r = handle_sse(
        &headers(),
        "c".to_string(),
        "s".to_string(),
        &config(false),
        "HTTP/1.1".to_string(),
    );
    assert_eq!(r.status, 200);
    assert_eq!(
        header_list(&r),
        vec![
            pair("Content-Type", "text/event-stream"),
            pair("Cache-Control", "no-cache"),
            pair("Connection", "keep-alive"),
            pair("Access-Control-Allow-Origin", "*"),
        ]
    );
    match r.body {
        Body::EventStream(info) => {
            assert_eq!(info.protocol, "HTTP/1.1");
            assert_eq!(info.headers[1].entry, HeaderEntry::Redacted);
        },
        other => panic!("no stream: {:?}", other),
    }
}

#[test]
fn first_record_is_the_headers_event() {
    assert_eq!(headers_event("{\"a\":1}"), "event: headers\ndata: {\"a\":1}\n\n");
    assert_eq!(headers_event(""), "event: headers\ndata: \n\n");
}

#[test]
fn later_records_are_unnamed_heartbeats() {
    assert_eq!(heartbeat_event(0), "data: Heartbeat #0\n\n");
    assert_eq!(heartbeat_event(41), "data: Heartbeat #41\n\n");
    assert_eq!(
        heartbeat_event(u64::MAX),
        "data: Heartbeat #18446744073709551615\n\n"
    );
}
