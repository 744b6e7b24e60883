//! The echo probe: the snapshot of the request with its literal path and raw
//! query string, so that a client sees how an intermediary rewrote its URL.

use vstd::prelude::*;
use vstd::utf8::encode_utf8;
use crate::config::{opt_view, ServerConfig};
use crate::info::{build_server_info, observed_view, server_info, InfoView, ObservedHeader};
use crate::response::{headers_view, json_type, json_type_header, lemma_json_type_valid,
    lemma_printable_is_valid, respond, text_header, Body, BodyView, Response, ResponseHeader,
    ResponseView};

verus! {

/// The headers of the echo's answer: a JSON body that any origin may read.
pub open spec fn echo_headers() -> Seq<(Seq<char>, Seq<u8>)> {
    seq![
        json_type(),
        ("Access-Control-Allow-Origin"@, encode_utf8("*"@)),
        ("Access-Control-Allow-Headers"@, encode_utf8("*"@)),
        ("Access-Control-Expose-Headers"@, encode_utf8("*"@)),
    ]
}

/// The echo's answer: the snapshot of the request, with the request's path
/// and query added to it.
pub open spec fn echo_response(info: InfoView, path: Seq<char>, query: Option<Seq<char>>)
    -> ResponseView {
    ResponseView {
        status: 200,
        headers: echo_headers(),
        body: BodyView::Snapshot(InfoView { path: Some(path), query, ..info }),
    }
}

/// Answers the echo probe.
pub fn handle_echo(
    headers: &Vec<ObservedHeader>,
    config: &ServerConfig,
    client_addr: String,
    server_addr: String,
    protocol: String,
    path: String,
    query: Option<String>,
) -> (r: Response)
    ensures
        r@ == echo_response(
            server_info(observed_view(headers@), client_addr@, server_addr@, *config, protocol@),
            path@,
            opt_view(query),
        ),
{
    let mut info = build_server_info(headers, client_addr, server_addr, config, protocol);
    info.path = Some(path);
    info.query = query;
    let mut out: Vec<ResponseHeader> = Vec::new();
    out.push(json_type_header());
    out.push(text_header("Access-Control-Allow-Origin", "*"));
    out.push(text_header("Access-Control-Allow-Headers", "*"));
    out.push(text_header("Access-Control-Expose-Headers", "*"));
    proof {
        lemma_json_type_valid();
        reveal_strlit("*");
        lemma_printable_is_valid("*"@);
        assert(headers_view(out@) =~= echo_headers());
    }
    respond(200, out, Body::Snapshot(info))
}

/// What the echo adds to a snapshot leaves the rest of it as it was: the
/// headers with their redactions, and in privacy mode the absence of the
/// fields that identify the server.
pub proof fn law_echo_keeps_the_snapshot(info: InfoView, path: Seq<char>, query: Option<Seq<char>>)
    ensures
        echo_response(info, path, query).body matches BodyView::Snapshot(echoed) && {
            &&& echoed.headers == info.headers
            &&& echoed.hides_server() == info.hides_server()
            &&& echoed.node_name == info.node_name
            &&& echoed.path == Some(path)
            &&& echoed.query == query
        },
{
}

} // verus!
