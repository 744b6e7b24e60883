//! The WebSocket session: the handshake that opens it and the snapshot that
//! is its first message.
//!
//! The handshake always opens the socket for a well-formed upgrade request.
//! A request whose origin does not match its host is not refused: its
//! snapshot carries no headers and says that the origin did not match.

use vstd::prelude::*;
use vstd::string::StringExecFns;
use vstd::utf8::encode_utf8;
use tokio_tungstenite::tungstenite::handshake::derive_accept_key;
use crate::config::ServerConfig;
use crate::info::{build_server_info, is_text, observed_view, server_info, value_is_text,
    InfoView, ObservedHeader, ServerInfo};
use crate::response::{headers_view, lemma_printable_is_valid, respond, settle,
    text_header, Body, BodyView, Response, ResponseHeader, ResponseView};
use crate::text::{chars_of, is_prefix_of, latin1_seq, lower, same_chars, starts_with,
    string_of_bytes, to_lower};

verus! {

/// The accept token that the WebSocket protocol derives from a handshake key.
pub uninterp spec fn accept_key(key: Seq<u8>) -> Seq<char>;

/// Derives the accept token from the client's handshake key.
///
/// Trusted: `derive_accept_key` of `tungstenite`, as `tokio_tungstenite`
/// hands it on, returns a text that depends on the key's bytes alone.
#[verifier::external_body]
pub(crate) fn derive_accept(key: &[u8]) -> (token: String)
    ensures
        token@ == accept_key(key@),
{
    derive_accept_key(key)
}

/// The value of the first header with the given lower-case name.
pub open spec fn header_value(h: Seq<(Seq<char>, Seq<u8>)>, name: Seq<char>) -> Option<Seq<u8>>
    decreases h.len(),
{
    if h.len() == 0 {
        None
    } else if lower(h[0].0) == name {
        Some(h[0].1)
    } else {
        header_value(h.skip(1), name)
    }
}

/// The value of the first header with the given name, where it is text.
pub open spec fn header_text(h: Seq<(Seq<char>, Seq<u8>)>, name: Seq<char>) -> Option<Seq<char>> {
    match header_value(h, name) {
        Some(v) => if is_text(v) {
            Some(latin1_seq(v))
        } else {
            None
        },
        None => None,
    }
}

/// An origin without its scheme, where the scheme is one of `https`, `http`,
/// `wss` and `ws`.
pub open spec fn strip_scheme(origin: Seq<char>) -> Seq<char> {
    if is_prefix_of("https://"@, origin) {
        origin.skip("https://"@.len() as int)
    } else if is_prefix_of("http://"@, origin) {
        origin.skip("http://"@.len() as int)
    } else if is_prefix_of("wss://"@, origin) {
        origin.skip("wss://"@.len() as int)
    } else if is_prefix_of("ws://"@, origin) {
        origin.skip("ws://"@.len() as int)
    } else {
        origin
    }
}

/// Whether a request's origin matches its host. A request without an origin
/// matches; one with an origin and without a host does not; otherwise the
/// origin without its scheme must be the host.
pub open spec fn origin_matches(origin: Option<Seq<char>>, host: Option<Seq<char>>) -> bool {
    match origin {
        None => true,
        Some(o) => match host {
            None => false,
            Some(h) => strip_scheme(o) == h,
        },
    }
}

/// Whether the observed headers show an origin that matches the host.
pub open spec fn origin_matches_headers(h: Seq<(Seq<char>, Seq<u8>)>) -> bool {
    origin_matches(header_text(h, "origin"@), header_text(h, "host"@))
}

/// Whether the observed headers ask for an upgrade to WebSocket.
pub open spec fn asks_for_websocket(h: Seq<(Seq<char>, Seq<u8>)>) -> bool {
    match header_text(h, "upgrade"@) {
        Some(v) => lower(v) == "websocket"@,
        None => false,
    }
}

/// The handshake key among the observed headers; empty where there is none
/// or it is not text.
pub open spec fn handshake_key(h: Seq<(Seq<char>, Seq<u8>)>) -> Seq<u8> {
    match header_value(h, "sec-websocket-key"@) {
        Some(v) => if is_text(v) {
            v
        } else {
            Seq::empty()
        },
        None => Seq::empty(),
    }
}

/// Finds the first header with the given lower-case name.
pub fn find_header<'a>(headers: &'a Vec<ObservedHeader>, name: &str) -> (r: Option<&'a Vec<u8>>)
    ensures
        match r {
            Some(v) => header_value(observed_view(headers@), name@) == Some(v@),
            None => header_value(observed_view(headers@), name@) is None,
        },
{
    let ghost h = observed_view(headers@);
    let target = chars_of(name);
    let mut i: usize = 0;
    proof {
        assert(h.skip(0) == h);
    }
    while i < headers.len()
        invariant
            i <= headers.len(),
            h == observed_view(headers@),
            target@ == name@,
            header_value(h, name@) == header_value(h.skip(i as int), name@),
        decreases headers.len() - i,
    {
        let lowered = to_lower(headers[i].name.as_str());
        proof {
            assert(h.skip(i as int)[0] == h[i as int]);
            assert(h.skip(i as int).skip(1) == h.skip(i + 1));
        }
        if same_chars(lowered.as_slice(), target.as_slice()) {
            return Some(&headers[i].value);
        }
        i += 1;
    }
    None
}

/// Finds the first header with the given lower-case name and returns its
/// value where it is text.
pub fn find_text(headers: &Vec<ObservedHeader>, name: &str) -> (r: Option<Vec<char>>)
    ensures
        match r {
            Some(v) => header_text(observed_view(headers@), name@) == Some(v@),
            None => header_text(observed_view(headers@), name@) is None,
        },
{
    match find_header(headers, name) {
        Some(v) => if value_is_text(v.as_slice()) {
            let s = string_of_bytes(v.as_slice());
            Some(chars_of(s.as_str()))
        } else {
            None
        },
        None => None,
    }
}

/// Removes the scheme from an origin.
pub fn without_scheme(origin: &[char]) -> (r: &[char])
    ensures
        r@ == strip_scheme(origin@),
{
    let https = chars_of("https://");
    let http = chars_of("http://");
    let wss = chars_of("wss://");
    let ws = chars_of("ws://");
    let n: usize = if starts_with(origin, https.as_slice()) {
        https.len()
    } else if starts_with(origin, http.as_slice()) {
        http.len()
    } else if starts_with(origin, wss.as_slice()) {
        wss.len()
    } else if starts_with(origin, ws.as_slice()) {
        ws.len()
    } else {
        0
    };
    proof {
        assert(origin@.skip(0) == origin@);
        assert(origin@.subrange(n as int, origin@.len() as int) == origin@.skip(n as int));
    }
    vstd::slice::slice_subrange(origin, n, origin.len())
}

/// Tests whether the request's origin matches its host.
pub fn origin_matches_host(headers: &Vec<ObservedHeader>) -> (r: bool)
    ensures
        r == origin_matches_headers(observed_view(headers@)),
{
    let origin = match find_text(headers, "origin") {
        Some(o) => o,
        None => {
            return true;
        },
    };
    let host = match find_text(headers, "host") {
        Some(h) => h,
        None => {
            return false;
        },
    };
    same_chars(without_scheme(origin.as_slice()), host.as_slice())
}

/// The headers that switch the connection to the WebSocket protocol.
pub open spec fn upgrade_headers(accept: Seq<char>) -> Seq<(Seq<char>, Seq<u8>)> {
    seq![
        ("upgrade"@, encode_utf8("websocket"@)),
        ("connection"@, encode_utf8("Upgrade"@)),
        ("sec-websocket-accept"@, encode_utf8(accept)),
    ]
}

/// The response that completes the handshake with the given accept token,
/// or the stand-in with status 500 where the header format does not admit
/// the token.
pub open spec fn switching_protocols_response(accept: Seq<char>) -> ResponseView {
    settle(101, upgrade_headers(accept), BodyView::Empty)
}

/// The response to an upgrade request that came by another method than GET.
pub open spec fn method_not_allowed_response() -> ResponseView {
    ResponseView {
        status: 405,
        headers: seq![("Allow"@, encode_utf8("GET"@))],
        body: BodyView::Text("WebSocket upgrade requires GET"@),
    }
}

/// The response to a request that does not ask for WebSocket.
pub open spec fn bad_upgrade_response() -> ResponseView {
    ResponseView {
        status: 400,
        headers: Seq::empty(),
        body: BodyView::Text("Expected WebSocket upgrade"@),
    }
}

/// The snapshot that a session sends as its first message. It is marked as
/// the `headers` message. Where the request's origin does not match its
/// host, the snapshot says so and holds no headers.
pub open spec fn session_info(
    observed: Seq<(Seq<char>, Seq<u8>)>,
    client_addr: Seq<char>,
    server_addr: Seq<char>,
    config: ServerConfig,
    protocol: Seq<char>,
) -> InfoView {
    let mismatch = !origin_matches_headers(observed);
    let shown = if mismatch {
        Seq::empty()
    } else {
        observed
    };
    InfoView {
        message_type: Some("headers"@),
        origin_mismatch: mismatch,
        ..server_info(shown, client_addr, server_addr, config, protocol)
    }
}

/// The outcome of a handshake.
#[derive(Clone, Debug, PartialEq, Eq)]
pub struct WsUpgrade {
    /// The response to the upgrade request.
    pub response: Response,
    /// The snapshot to send as the first message once the socket is open;
    /// absent where the handshake was refused.
    pub session: Option<ServerInfo>,
}

/// The mathematical form of a `WsUpgrade`.
pub struct UpgradeView {
    pub response: ResponseView,
    pub session: Option<InfoView>,
}

impl View for WsUpgrade {
    type V = UpgradeView;

    open spec fn view(&self) -> UpgradeView {
        UpgradeView {
            response: self.response@,
            session: match self.session {
                Some(info) => Some(info@),
                None => None,
            },
        }
    }
}

/// The outcome of the handshake for a request, given the accept token for
/// its key: refused with status 405 where the method is not GET, refused
/// with status 400 where the request does not ask for WebSocket, and
/// otherwise completed, whether or not the origin matches the host.
pub open spec fn ws_upgrade(
    method: Seq<char>,
    observed: Seq<(Seq<char>, Seq<u8>)>,
    accept: Seq<char>,
    client_addr: Seq<char>,
    server_addr: Seq<char>,
    config: ServerConfig,
    protocol: Seq<char>,
) -> UpgradeView {
    if method != "GET"@ {
        UpgradeView { response: method_not_allowed_response(), session: None }
    } else if !asks_for_websocket(observed) {
        UpgradeView { response: bad_upgrade_response(), session: None }
    } else {
        let response = switching_protocols_response(accept);
        UpgradeView {
            response,
            session: if response.status == 101 {
                Some(session_info(observed, client_addr, server_addr, config, protocol))
            } else {
                None
            },
        }
    }
}

/// Builds the response that completes the handshake with the given accept
/// token.
pub fn switching_protocols(accept: &str) -> (r: Response)
    ensures
        r@ == switching_protocols_response(accept@),
{
    let mut out: Vec<ResponseHeader> = Vec::new();
    out.push(text_header("upgrade", "websocket"));
    out.push(text_header("connection", "Upgrade"));
    out.push(text_header("sec-websocket-accept", accept));
    proof {
        assert(headers_view(out@) =~= upgrade_headers(accept@));
    }
    respond(101, out, Body::Empty)
}

/// Tests whether the request asks for an upgrade to WebSocket.
pub fn is_websocket_upgrade(headers: &Vec<ObservedHeader>) -> (r: bool)
    ensures
        r == asks_for_websocket(observed_view(headers@)),
{
    match find_text(headers, "upgrade") {
        Some(v) => {
            let s = crate::text::string_of(&v);
            let lowered = to_lower(s.as_str());
            same_chars(lowered.as_slice(), chars_of("websocket").as_slice())
        },
        None => false,
    }
}

/// Builds the snapshot that a session sends as its first message.
pub fn build_session_info(
    headers: &Vec<ObservedHeader>,
    client_addr: String,
    server_addr: String,
    config: &ServerConfig,
    protocol: String,
) -> (info: ServerInfo)
    ensures
        info@ == session_info(
            observed_view(headers@),
            client_addr@,
            server_addr@,
            *config,
            protocol@,
        ),
{
    let mismatch = !origin_matches_host(headers);
    let mut info = if mismatch {
        let none: Vec<ObservedHeader> = Vec::new();
        proof {
            assert(observed_view(none@) =~= Seq::empty());
        }
        build_server_info(&none, client_addr, server_addr, config, protocol)
    } else {
        build_server_info(headers, client_addr, server_addr, config, protocol)
    };
    info.message_type = Some(String::from_str("headers"));
    info.origin_mismatch = mismatch;
    info
}

/// Decides the handshake for a request, given the accept token for its key.
pub fn complete_upgrade(
    method: &str,
    headers: &Vec<ObservedHeader>,
    accept: &str,
    client_addr: String,
    server_addr: String,
    config: &ServerConfig,
    protocol: String,
) -> (r: WsUpgrade)
    ensures
        r@ == ws_upgrade(
            method@,
            observed_view(headers@),
            accept@,
            client_addr@,
            server_addr@,
            *config,
            protocol@,
        ),
{
    if !same_chars(chars_of(method).as_slice(), chars_of("GET").as_slice()) {
        let mut out: Vec<ResponseHeader> = Vec::new();
        out.push(text_header("Allow", "GET"));
        proof {
            reveal_strlit("GET");
            lemma_printable_is_valid("GET"@);
            assert(headers_view(out@) =~= method_not_allowed_response().headers);
        }
        return WsUpgrade {
            response: respond(
                405,
                out,
                Body::Text(String::from_str("WebSocket upgrade requires GET")),
            ),
            session: None,
        };
    }
    if !is_websocket_upgrade(headers) {
        let out: Vec<ResponseHeader> = Vec::new();
        proof {
            assert(headers_view(out@) =~= Seq::empty());
        }
        return WsUpgrade {
            response: respond(400, out, Body::Text(String::from_str("Expected WebSocket upgrade"))),
            session: None,
        };
    }
    let response = switching_protocols(accept);
    let session = if response.status == 101 {
        Some(build_session_info(headers, client_addr, server_addr, config, protocol))
    } else {
        None
    };
    WsUpgrade { response, session }
}

/// Reads the handshake key of a request.
pub fn read_handshake_key(headers: &Vec<ObservedHeader>) -> (key: Vec<u8>)
    ensures
        key@ == handshake_key(observed_view(headers@)),
{
    match find_header(headers, "sec-websocket-key") {
        Some(v) => if value_is_text(v.as_slice()) {
            vstd::slice::slice_to_vec(v.as_slice())
        } else {
            Vec::new()
        },
        None => Vec::new(),
    }
}

/// Answers a request to open a WebSocket session.
pub fn handle_ws_upgrade(
    method: &str,
    headers: &Vec<ObservedHeader>,
    client_addr: String,
    server_addr: String,
    config: &ServerConfig,
    protocol: String,
) -> (r: WsUpgrade)
    ensures
        r@ == ws_upgrade(
            method@,
            observed_view(headers@),
            accept_key(handshake_key(observed_view(headers@))),
            client_addr@,
            server_addr@,
            *config,
            protocol@,
        ),
{
    let key = read_handshake_key(headers);
    let accept = derive_accept(key.as_slice());
    complete_upgrade(
        method,
        headers,
        accept.as_str(),
        client_addr,
        server_addr,
        config,
        protocol,
    )
}

/// A session's snapshot says that the origin did not match exactly when the
/// request has an origin that does not match its host. It then holds no
/// header at all. A request without an origin is never marked, and its
/// snapshot reports the observed headers.
pub proof fn law_origin_mismatch_withholds_headers(
    observed: Seq<(Seq<char>, Seq<u8>)>,
    client_addr: Seq<char>,
    server_addr: Seq<char>,
    config: ServerConfig,
    protocol: Seq<char>,
)
    ensures
        ({
            let info = session_info(observed, client_addr, server_addr, config, protocol);
            &&& info.origin_mismatch == !origin_matches_headers(observed)
            &&& info.origin_mismatch ==> info.headers.len() == 0 && info.header_map()
                == Map::<Seq<char>, crate::info::EntryView>::empty()
            &&& !info.origin_mismatch ==> info.headers == crate::info::snapshot_headers(
                observed,
                config.redactions(),
            )
            &&& header_text(observed, "origin"@) is None ==> !info.origin_mismatch
            &&& info.message_type == Some("headers"@)
            &&& config.privacy_mode ==> info.hides_server()
        }),
{
}

/// The handshake does not look at the origin: whether the socket opens
/// depends on the method, the upgrade header and the accept token alone.
pub proof fn law_handshake_ignores_origin(
    method: Seq<char>,
    observed: Seq<(Seq<char>, Seq<u8>)>,
    accept: Seq<char>,
    client_addr: Seq<char>,
    server_addr: Seq<char>,
    config: ServerConfig,
    protocol: Seq<char>,
)
    ensures
        ({
            let outcome = ws_upgrade(
                method,
                observed,
                accept,
                client_addr,
                server_addr,
                config,
                protocol,
            );
            &&& outcome.response == if method != "GET"@ {
                method_not_allowed_response()
            } else if !asks_for_websocket(observed) {
                bad_upgrade_response()
            } else {
                switching_protocols_response(accept)
            }
            &&& outcome.session is Some <==> outcome.response.status == 101
        }),
{
}

} // verus!
