//! The dispatcher: one request in, one reply out.

use vstd::prelude::*;
use vstd::string::StringExecFns;
use vstd::utf8::encode_utf8;
use crate::config::{clone_opt, opt_view, ServerConfig};
use crate::cookie::{cookie_name, delete_cookie_response, handle_delete_cookie};
use crate::dispatch::{resolve, route, Route};
use crate::echo::{echo_response, handle_echo};
use crate::hdr::{handle_response_headers_test, header_probe_response};
use crate::index::{handle_index, index_response};
use crate::info::{observed_view, server_info, ObservedHeader};
use crate::query::params_of;
use crate::response::{headers_view, lemma_printable_is_valid, respond, text_header, Body,
    BodyView, Response, ResponseHeader, ResponseView};
use crate::sse::{handle_sse, sse_response};
use crate::ws::{accept_key, handle_ws_upgrade, handshake_key, ws_upgrade, UpgradeView, WsUpgrade};

verus! {

/// What the dispatcher reads of a request.
#[derive(Clone, Debug, PartialEq, Eq)]
pub struct Request {
    /// The method, as it was sent.
    pub method: String,
    /// The path, as it was sent.
    pub path: String,
    /// The raw query string, where the request has one.
    pub query: Option<String>,
    /// The headers in the order in which they were seen.
    pub headers: Vec<ObservedHeader>,
    /// The label of the protocol the request came by.
    pub protocol: String,
}

/// What the dispatcher answers.
#[derive(Clone, Debug, PartialEq, Eq)]
pub enum Reply {
    /// A response to send.
    Respond(Response),
    /// The outcome of a WebSocket handshake.
    WebSocket(WsUpgrade),
    /// The request belongs to a collaborator outside this library: the node
    /// identity responder or the payload catalogue.
    External(Route),
}

/// The mathematical form of a `Reply`.
pub enum ReplyView {
    Respond(ResponseView),
    WebSocket(UpgradeView),
    External(Route),
}

impl View for Reply {
    type V = ReplyView;

    open spec fn view(&self) -> ReplyView {
        match self {
            Reply::Respond(r) => ReplyView::Respond(r@),
            Reply::WebSocket(u) => ReplyView::WebSocket(u@),
            Reply::External(route) => ReplyView::External(*route),
        }
    }
}

/// The answer of the health check.
pub open spec fn health_response() -> ResponseView {
    ResponseView {
        status: 200,
        headers: seq![("Content-Type"@, encode_utf8("text/plain"@))],
        body: BodyView::Text("OK"@),
    }
}

/// The answer to a request that has no route.
pub open spec fn not_found_response() -> ResponseView {
    ResponseView { status: 404, headers: Seq::empty(), body: BodyView::Text("Not Found"@) }
}

/// The reply to a request: the route of its path decides which handler
/// answers, and each handler sees the request as it was sent.
pub open spec fn reply(
    req: Request,
    client_addr: Seq<char>,
    server_addr: Seq<char>,
    config: ServerConfig,
) -> ReplyView {
    let observed = observed_view(req.headers@);
    let info = server_info(observed, client_addr, server_addr, config, req.protocol@);
    let params = params_of(opt_view(req.query));
    match resolve(req.path@, config.prefix()) {
        Route::Health => ReplyView::Respond(health_response()),
        Route::Index => ReplyView::Respond(index_response(info, config.privacy_mode)),
        Route::WebSocket => ReplyView::WebSocket(
            ws_upgrade(
                req.method@,
                observed,
                accept_key(handshake_key(observed)),
                client_addr,
                server_addr,
                config,
                req.protocol@,
            ),
        ),
        Route::Events => ReplyView::Respond(sse_response(info)),
        Route::NodeIdentity => ReplyView::External(Route::NodeIdentity),
        Route::Payloads => ReplyView::External(Route::Payloads),
        Route::DeleteCookie => ReplyView::Respond(
            delete_cookie_response(cookie_name(params)),
        ),
        Route::HeaderProbe => ReplyView::Respond(header_probe_response(params)),
        Route::Echo => ReplyView::Respond(echo_response(info, req.path@, opt_view(req.query))),
        Route::NotFound => ReplyView::Respond(not_found_response()),
    }
}

/// An optional string as an optional string slice.
pub fn as_opt_str(o: &Option<String>) -> (r: Option<&str>)
    ensures
        crate::text::opt_str_view(r) == opt_view(*o),
{
    match o {
        Some(s) => Some(s.as_str()),
        None => None,
    }
}

/// Answers one request.
pub fn handle_request(
    req: &Request,
    client_addr: String,
    server_addr: String,
    config: &ServerConfig,
) -> (r: Reply)
    ensures
        r@ == reply(*req, client_addr@, server_addr@, *config),
{
    match route(req.path.as_str(), config) {
        Route::Health => {
            let mut out: Vec<ResponseHeader> = Vec::new();
            out.push(text_header("Content-Type", "text/plain"));
            proof {
                reveal_strlit("text/plain");
                lemma_printable_is_valid("text/plain"@);
                assert(headers_view(out@) =~= health_response().headers);
            }
            Reply::Respond(respond(200, out, Body::Text(String::from_str("OK"))))
        },
        Route::Index => Reply::Respond(
            handle_index(&req.headers, client_addr, server_addr, config, req.protocol.clone()),
        ),
        Route::WebSocket => Reply::WebSocket(
            handle_ws_upgrade(
                req.method.as_str(),
                &req.headers,
                client_addr,
                server_addr,
                config,
                req.protocol.clone(),
            ),
        ),
        Route::Events => Reply::Respond(
            handle_sse(&req.headers, client_addr, server_addr, config, req.protocol.clone()),
        ),
        Route::NodeIdentity => Reply::External(Route::NodeIdentity),
        Route::Payloads => Reply::External(Route::Payloads),
        Route::DeleteCookie => Reply::Respond(handle_delete_cookie(as_opt_str(&req.query))),
        Route::HeaderProbe => Reply::Respond(handle_response_headers_test(as_opt_str(&req.query))),
        Route::Echo => Reply::Respond(
            handle_echo(
                &req.headers,
                config,
                client_addr,
                server_addr,
                req.protocol.clone(),
                req.path.clone(),
                clone_opt(&req.query),
            ),
        ),
        Route::NotFound => {
            let out: Vec<ResponseHeader> = Vec::new();
            proof {
                assert(headers_view(out@) =~= Seq::empty());
            }
            Reply::Respond(respond(404, out, Body::Text(String::from_str("Not Found"))))
        },
    }
}

} // verus!
