//! The diagnostic page: a static frame around the snapshot of the request
//! and a line that names the version.

use vstd::prelude::*;
use vstd::string::StringExecFns;
use vstd::utf8::encode_utf8;
use crate::build_info::{build_time, build_time_text, full_version, full_version_text, version,
    version_text};
use crate::config::ServerConfig;
use crate::info::{build_server_info, observed_view, server_info, InfoView, ObservedHeader};
use crate::response::{headers_view, lemma_printable_is_valid, respond, text_header, Body,
    BodyView, Response, ResponseHeader, ResponseView};

verus! {

/// The line that names the version: the bare version in privacy mode, the
/// full version and the build time otherwise.
pub open spec fn version_line(privacy_mode: bool) -> Seq<char> {
    if privacy_mode {
        "<span class=\"version\">Sensillum v"@ + version_text() + "</span>"@
    } else {
        "<span class=\"version\">Sensillum v"@ + full_version_text(
            version_text(),
            None,
            None,
            false,
            build_time_text(),
        ) + " (built "@ + build_time_text() + ")</span>"@
    }
}

/// The headers of the page: HTML that no cache may keep.
pub open spec fn page_headers() -> Seq<(Seq<char>, Seq<u8>)> {
    seq![
        ("Content-Type"@, encode_utf8("text/html; charset=utf-8"@)),
        ("Cache-Control"@, encode_utf8("no-cache, no-store, must-revalidate"@)),
        ("Pragma"@, encode_utf8("no-cache"@)),
        ("Expires"@, encode_utf8("0"@)),
    ]
}

/// The page for a request with the given snapshot.
pub open spec fn index_response(info: InfoView, privacy_mode: bool) -> ResponseView {
    ResponseView {
        status: 200,
        headers: page_headers(),
        body: BodyView::Page { info, version_line: version_line(privacy_mode) },
    }
}

/// Writes the line that names the version.
pub fn make_version_line(privacy_mode: bool) -> (line: String)
    ensures
        line@ == version_line(privacy_mode),
{
    let mut line = String::from_str("<span class=\"version\">Sensillum v");
    if privacy_mode {
        line.append(version());
        line.append("</span>");
    } else {
        let full = full_version();
        line.append(full.as_str());
        line.append(" (built ");
        line.append(build_time());
        line.append(")</span>");
    }
    line
}

/// Answers the request for the diagnostic page.
pub fn handle_index(
    headers: &Vec<ObservedHeader>,
    client_addr: String,
    server_addr: String,
    config: &ServerConfig,
    protocol: String,
) -> (r: Response)
    ensures
        r@ == index_response(
            server_info(observed_view(headers@), client_addr@, server_addr@, *config, protocol@),
            config.privacy_mode,
        ),
{
    let info = build_server_info(headers, client_addr, server_addr, config, protocol);
    let line = make_version_line(config.privacy_mode);
    let mut out: Vec<ResponseHeader> = Vec::new();
    out.push(text_header("Content-Type", "text/html; charset=utf-8"));
    out.push(text_header("Cache-Control", "no-cache, no-store, must-revalidate"));
    out.push(text_header("Pragma", "no-cache"));
    out.push(text_header("Expires", "0"));
    proof {
        reveal_strlit("text/html; charset=utf-8");
        reveal_strlit("no-cache, no-store, must-revalidate");
        reveal_strlit("no-cache");
        reveal_strlit("0");
        lemma_printable_is_valid("text/html; charset=utf-8"@);
        lemma_printable_is_valid("no-cache, no-store, must-revalidate"@);
        lemma_printable_is_valid("no-cache"@);
        lemma_printable_is_valid("0"@);
        assert(headers_view(out@) =~= page_headers());
    }
    respond(200, out, Body::Page { info, version_line: line })
}

} // verus!
