//! The probe that clears a cookie.

use vstd::prelude::*;
use vstd::string::StringExecFns;
use vstd::utf8::encode_utf8;
use crate::query::{param, params_of, parse_request_query};
use crate::text::opt_str_view;
use crate::response::{headers_view, internal_error_view, json_type, json_type_header,
    lemma_json_type_valid, respond, text_header, valid_header_value, Body, BodyView,
    Response, ResponseHeader, ResponseView};

verus! {

/// The instruction that expires the cookie `name` at the root path at once.
pub open spec fn expiry(name: Seq<char>) -> Seq<char> {
    name + "=; Max-Age=0; Path=/; Expires=Thu, 01 Jan 1970 00:00:00 GMT"@
}

/// The name of the cookie that a request asks to clear; empty where the
/// request names none.
pub open spec fn cookie_name(params: Map<Seq<char>, Seq<char>>) -> Seq<char> {
    match param(params, "name"@) {
        Some(n) => n,
        None => Seq::empty(),
    }
}

/// The probe's answer for the cookie `name`: a client error where the name
/// is empty; else the instruction to expire the cookie, or the stand-in with
/// status 500 where the header format does not admit the instruction.
pub open spec fn delete_cookie_response(name: Seq<char>) -> ResponseView {
    if name.len() == 0 {
        ResponseView {
            status: 400,
            headers: seq![json_type()],
            body: BodyView::Text("{\"error\":\"missing name parameter\"}"@),
        }
    } else if valid_header_value(encode_utf8(expiry(name))) {
        ResponseView {
            status: 200,
            headers: seq![json_type(), ("Set-Cookie"@, encode_utf8(expiry(name)))],
            body: BodyView::Text("{\"ok\":true}"@),
        }
    } else {
        internal_error_view()
    }
}

/// Answers the request to clear the cookie that the query parameter `name`
/// names.
pub fn handle_delete_cookie(query: Option<&str>) -> (r: Response)
    ensures
        r@ == delete_cookie_response(cookie_name(params_of(opt_str_view(query)))),
{
    let name = match parse_request_query(query).get("name") {
        Some(n) => n,
        None => String::new(),
    };
    proof {
        lemma_json_type_valid();
    }
    let mut headers: Vec<ResponseHeader> = Vec::new();
    headers.push(json_type_header());
    if name.as_str().is_empty() {
        proof {
            assert(headers_view(headers@) =~= seq![json_type()]);
        }
        return respond(
            400,
            headers,
            Body::Text(String::from_str("{\"error\":\"missing name parameter\"}")),
        );
    }
    let mut expire = name;
    expire.append("=; Max-Age=0; Path=/; Expires=Thu, 01 Jan 1970 00:00:00 GMT");
    headers.push(text_header("Set-Cookie", expire.as_str()));
    proof {
        let want = seq![json_type(), ("Set-Cookie"@, encode_utf8(expire@))];
        assert(headers_view(headers@) =~= want);
        assert(crate::response::valid_headers(want) == valid_header_value(encode_utf8(expire@)))
            by {
            if valid_header_value(encode_utf8(expire@)) {
                assert forall|i: int| 0 <= i < want.len() implies valid_header_value(
                    (#[trigger] want[i]).1,
                ) by {}
            } else {
                assert(want[1].1 == encode_utf8(expire@));
            }
        }
    }
    respond(200, headers, Body::Text(String::from_str("{\"ok\":true}")))
}

} // verus!
