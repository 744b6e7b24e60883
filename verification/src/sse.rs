//! The stream of server-sent events: one `headers` event that carries the
//! snapshot, then a heartbeat every few seconds for as long as the peer
//! stays connected.

use vstd::prelude::*;
use vstd::string::StringExecFns;
use vstd::utf8::encode_utf8;
use crate::config::ServerConfig;
use crate::info::{build_server_info, observed_view, server_info, InfoView, ObservedHeader};
use crate::response::{headers_view, lemma_printable_is_valid, respond, text_header, Body,
    BodyView, Response, ResponseHeader, ResponseView};
use crate::session::{heartbeat, heartbeat_text};

verus! {

/// The headers of the stream's response.
pub open spec fn stream_headers() -> Seq<(Seq<char>, Seq<u8>)> {
    seq![
        ("Content-Type"@, encode_utf8("text/event-stream"@)),
        ("Cache-Control"@, encode_utf8("no-cache"@)),
        ("Connection"@, encode_utf8("keep-alive"@)),
        ("Access-Control-Allow-Origin"@, encode_utf8("*"@)),
    ]
}

/// The response that opens the stream for a request with the given snapshot.
pub open spec fn sse_response(info: InfoView) -> ResponseView {
    ResponseView { status: 200, headers: stream_headers(), body: BodyView::EventStream(info) }
}

/// The first record of the stream: the event named `headers` whose data is
/// the snapshot as JSON.
pub open spec fn headers_event_text(json: Seq<char>) -> Seq<char> {
    "event: headers\ndata: "@ + json + "\n\n"@
}

/// A later record of the stream: an unnamed heartbeat.
pub open spec fn heartbeat_event_text(n: u64) -> Seq<char> {
    "data: "@ + heartbeat_text(n) + "\n\n"@
}

/// Writes the first record of the stream around the snapshot's JSON text.
pub fn headers_event(json: &str) -> (out: String)
    ensures
        out@ == headers_event_text(json@),
{
    let mut out = String::from_str("event: headers\ndata: ");
    out.append(json);
    out.append("\n\n");
    out
}

/// Writes the record of the heartbeat with the number `n`.
pub fn heartbeat_event(n: u64) -> (out: String)
    ensures
        out@ == heartbeat_event_text(n),
{
    let mut out = String::from_str("data: ");
    let beat = heartbeat(n);
    out.append(beat.as_str());
    out.append("\n\n");
    out
}

/// Answers the request for the stream of events.
pub fn handle_sse(
    headers: &Vec<ObservedHeader>,
    client_addr: String,
    server_addr: String,
    config: &ServerConfig,
    protocol: String,
) -> (r: Response)
    ensures
        r@ == sse_response(
            server_info(observed_view(headers@), client_addr@, server_addr@, *config, protocol@),
        ),
{
    let info = build_server_info(headers, client_addr, server_addr, config, protocol);
    let mut out: Vec<ResponseHeader> = Vec::new();
    out.push(text_header("Content-Type", "text/event-stream"));
    out.push(text_header("Cache-Control", "no-cache"));
    out.push(text_header("Connection", "keep-alive"));
    out.push(text_header("Access-Control-Allow-Origin", "*"));
    proof {
        reveal_strlit("text/event-stream");
        reveal_strlit("no-cache");
        reveal_strlit("keep-alive");
        reveal_strlit("*");
        lemma_printable_is_valid("text/event-stream"@);
        lemma_printable_is_valid("no-cache"@);
        lemma_printable_is_valid("keep-alive"@);
        lemma_printable_is_valid("*"@);
        assert(headers_view(out@) =~= stream_headers());
    }
    respond(200, out, Body::EventStream(info))
}

} // verus!
