//! The response-header probes.
//!
//! The byte probe sends back one header whose value is `probe`, one chosen
//! byte, and `probe` again; the client sees whether an intermediary passed,
//! removed or changed the byte. The size probe sends back headers that take
//! about as many bytes as were asked for, in one header or in ten; the client
//! uses it to find the largest header block that an intermediary lets pass.

use vstd::prelude::*;
use vstd::string::{StrSliceExecFns, StringExecFns};
use vstd::utf8::encode_utf8;
use crate::numeric::{decimal, decimal_text, parse_unsigned, unsigned};
use crate::query::{param, params_of, parse_request_query};
use crate::response::{bytes_header, header_value_accepts, headers_view, json_type,
    json_type_header, lemma_json_type_valid, lemma_printable_is_valid, respond, text_header,
    valid_header_byte, valid_header_value, Body, BodyView, Response,
    ResponseHeader, ResponseView};
use crate::text::{chars_of, opt_str_view, same_chars, string_of_slice, trim, trimmed};

verus! {

/// The most bytes of response headers that the size probe produces: 2 MiB.
pub const MAX_RESPONSE_HEADER_BYTES: usize = 2097152;

/// The number of headers that the size probe produces in `multi` mode.
pub const MULTI_HEADER_COUNT: usize = 10;

/// The value of the byte probe's header for the byte `b`.
pub open spec fn probe_value(b: u8) -> Seq<u8> {
    encode_utf8("probe"@).push(b) + encode_utf8("probe"@)
}

/// A header value of `n` bytes, each the letter `x`.
pub open spec fn filler(n: int) -> Seq<u8> {
    Seq::new(n as nat, |i: int| 0x78u8)
}

/// The byte probe's answer for the byte `b` that the text `text` denotes:
/// the header with the byte where the header format admits it, and a report
/// of the rejection where it does not.
pub open spec fn byte_probe_response(text: Seq<char>, b: u8) -> ResponseView {
    if valid_header_byte(b) {
        ResponseView {
            status: 200,
            headers: seq![
                json_type(),
                ("Access-Control-Expose-Headers"@, encode_utf8("x-charset-test"@)),
                ("x-charset-test"@, probe_value(b)),
            ],
            body: BodyView::Text("{\"ok\":true,\"byte\":\""@ + text + "\"}"@),
        }
    } else {
        ResponseView {
            status: 200,
            headers: seq![json_type()],
            body: BodyView::Text("{\"ok\":false,\"reason\":\"byte rejected by HTTP library\"}"@),
        }
    }
}

/// The size that a request asks for: the decimal number given, at most the
/// cap; zero where none is given or the text is no number that the machine
/// can hold.
pub open spec fn requested_size(size: Option<Seq<char>>) -> int {
    match size {
        Some(s) => match unsigned(s, 10, usize::MAX as int) {
            Some(n) => if n <= MAX_RESPONSE_HEADER_BYTES {
                n
            } else {
                MAX_RESPONSE_HEADER_BYTES as int
            },
            None => 0,
        },
        None => 0,
    }
}

/// The name of the `i`-th header of the size probe in `multi` mode.
pub open spec fn multi_name(i: int) -> Seq<char> {
    "x-response-test-"@ + decimal_text(i as nat)
}

/// The headers with which the size probe fills the response: in `multi`
/// mode ten headers of a tenth of the size each, none where that is zero; in
/// any other mode one header of the whole size; none where the size is zero.
pub open spec fn filler_headers(size: int, multi: bool) -> Seq<(Seq<char>, Seq<u8>)> {
    if size <= 0 {
        Seq::empty()
    } else if multi {
        if size / 10 > 0 {
            Seq::new(MULTI_HEADER_COUNT as nat, |i: int| (multi_name(i), filler(size / 10)))
        } else {
            Seq::empty()
        }
    } else {
        seq![("x-response-test"@, filler(size))]
    }
}

/// The size probe's answer.
pub open spec fn size_probe_response(size: int, multi: bool) -> ResponseView {
    ResponseView {
        status: 200,
        headers: seq![json_type(), ("Access-Control-Expose-Headers"@, encode_utf8("*"@))]
            + filler_headers(size, multi),
        body: BodyView::Text("{\"ok\":true}"@),
    }
}

/// The byte that the `byte` parameter denotes: two or fewer hexadecimal
/// digits, or more with leading zeros, between optional white space.
pub open spec fn requested_byte(params: Map<Seq<char>, Seq<char>>) -> Option<u8> {
    match param(params, "byte"@) {
        Some(hex) => match unsigned(trim(hex), 16, 255) {
            Some(b) => Some(b as u8),
            None => None,
        },
        None => None,
    }
}

/// The probes' answer to a request with the given parameters: the byte
/// probe's where `byte` denotes a byte, the size probe's otherwise.
pub open spec fn header_probe_response(params: Map<Seq<char>, Seq<char>>) -> ResponseView {
    match requested_byte(params) {
        Some(b) => byte_probe_response(trim(params["byte"@]), b),
        None => size_probe_response(
            requested_size(param(params, "size"@)),
            param(params, "mode"@) == Some("multi"@),
        ),
    }
}

/// The header format admits the byte probe's value exactly when it admits
/// the chosen byte.
pub proof fn lemma_probe_value(b: u8)
    ensures
        probe_value(b).len() == 11,
        probe_value(b)[5] == b,
        valid_header_value(probe_value(b)) == valid_header_byte(b),
{
    reveal_strlit("probe");
    lemma_printable_is_valid("probe"@);
    let p = encode_utf8("probe"@);
    let v = probe_value(b);
    assert(v[5] == b);
    if valid_header_byte(b) {
        assert forall|i: int| 0 <= i < v.len() implies valid_header_byte(#[trigger] v[i]) by {
            if i < 5 {
                assert(v[i] == p[i]);
            } else if i > 5 {
                assert(v[i] == p[i - 6]);
            }
        }
    }
}

/// Builds the byte probe's header value.
pub fn make_probe_value(b: u8) -> (v: Vec<u8>)
    ensures
        v@ == probe_value(b),
{
    let mut v = "probe".as_bytes_vec();
    v.push(b);
    let mut tail = "probe".as_bytes_vec();
    v.append(&mut tail);
    v
}

/// Builds a header value of `n` bytes, each the letter `x`.
pub fn make_filler(n: usize) -> (v: Vec<u8>)
    ensures
        v@ == filler(n as int),
{
    let mut v: Vec<u8> = Vec::new();
    let mut i: usize = 0;
    while i < n
        invariant
            i <= n,
            v@ == filler(i as int),
        decreases n - i,
    {
        v.push(0x78);
        i += 1;
        proof {
            assert(v@ =~= filler(i as int));
        }
    }
    v
}

/// Answers the byte probe for the byte `b`, which the text `text` denotes.
pub fn byte_probe(text: &[char], b: u8) -> (r: Response)
    ensures
        r@ == byte_probe_response(text@, b),
{
    let value = make_probe_value(b);
    proof {
        lemma_probe_value(b);
        lemma_json_type_valid();
        reveal_strlit("x-charset-test");
        lemma_printable_is_valid("x-charset-test"@);
    }
    if header_value_accepts(value.as_slice()) {
        let mut body = String::from_str("{\"ok\":true,\"byte\":\"");
        let text_string = string_of_slice(text);
        body.append(text_string.as_str());
        body.append("\"}");
        let mut headers: Vec<ResponseHeader> = Vec::new();
        headers.push(json_type_header());
        headers.push(text_header("Access-Control-Expose-Headers", "x-charset-test"));
        headers.push(bytes_header("x-charset-test", value));
        proof {
            assert(headers_view(headers@) =~= byte_probe_response(text@, b).headers);
        }
        respond(200, headers, Body::Text(body))
    } else {
        let mut headers: Vec<ResponseHeader> = Vec::new();
        headers.push(json_type_header());
        proof {
            assert(headers_view(headers@) =~= byte_probe_response(text@, b).headers);
        }
        respond(
            200,
            headers,
            Body::Text(String::from_str("{\"ok\":false,\"reason\":\"byte rejected by HTTP library\"}")),
        )
    }
}

/// The header format admits a value made of the letter `x` alone.
pub proof fn lemma_filler_valid(n: int)
    ensures
        valid_header_value(filler(n)),
{
}

/// Answers the size probe.
pub fn size_probe(size: usize, multi: bool) -> (r: Response)
    ensures
        r@ == size_probe_response(size as int, multi),
{
    let ghost want = size_probe_response(size as int, multi).headers;
    let mut headers: Vec<ResponseHeader> = Vec::new();
    headers.push(json_type_header());
    headers.push(text_header("Access-Control-Expose-Headers", "*"));
    proof {
        lemma_json_type_valid();
        reveal_strlit("*");
        lemma_printable_is_valid("*"@);
    }
    if size > 0 {
        if multi {
            let per = size / MULTI_HEADER_COUNT;
            if per > 0 {
                let mut i: usize = 0;
                while i < MULTI_HEADER_COUNT
                    invariant
                        i <= MULTI_HEADER_COUNT,
                        per == size / MULTI_HEADER_COUNT,
                        per > 0,
                        multi,
                        want == size_probe_response(size as int, multi).headers,
                        headers@.len() == 2 + i,
                        headers_view(headers@) == want.take(2 + i),
                    decreases MULTI_HEADER_COUNT - i,
                {
                    let mut name = String::from_str("x-response-test-");
                    let number = decimal(i as u64);
                    name.append(number.as_str());
                    let ghost before = headers_view(headers@);
                    headers.push(bytes_header(name.as_str(), make_filler(per)));
                    proof {
                        assert(want[2 + i] == (multi_name(i as int), filler(per as int)));
                        assert(headers_view(headers@) =~= before.push(want[2 + i]));
                        assert(want.take(2 + i + 1) =~= want.take(2 + i).push(want[2 + i]));
                    }
                    i += 1;
                }
            }
        } else {
            headers.push(bytes_header("x-response-test", make_filler(size)));
        }
    }
    proof {
        assert(headers_view(headers@) =~= want);
        assert forall|j: int| 0 <= j < want.len() implies valid_header_value(
            (#[trigger] want[j]).1,
        ) by {
            if j >= 2 {
                lemma_filler_valid(size as int);
                lemma_filler_valid(size as int / 10);
            }
        }
    }
    respond(200, headers, Body::Text(String::from_str("{\"ok\":true}")))
}

/// Reads the size that a request asks for.
pub fn read_size(size: Option<String>) -> (n: usize)
    ensures
        n == requested_size(crate::config::opt_view(size)),
        n <= MAX_RESPONSE_HEADER_BYTES,
{
    match size {
        None => 0,
        Some(s) => {
            let digits = chars_of(s.as_str());
            match parse_unsigned(digits.as_slice(), 10, usize::MAX as u64) {
                None => 0,
                Some(n) => if n <= MAX_RESPONSE_HEADER_BYTES as u64 {
                    n as usize
                } else {
                    MAX_RESPONSE_HEADER_BYTES
                },
            }
        },
    }
}

/// Answers the response-header probes for a request with the given query
/// string: the byte probe where the parameter `byte` denotes a byte in
/// hexadecimal, the size probe with the parameters `size` and `mode`
/// otherwise.
pub fn handle_response_headers_test(query: Option<&str>) -> (r: Response)
    ensures
        r@ == header_probe_response(params_of(opt_str_view(query))),
{
    let params = parse_request_query(query);
    match params.get("byte") {
        Some(hex) => {
            let chars = chars_of(hex.as_str());
            let text = trimmed(chars.as_slice());
            match parse_unsigned(text, 16, 255) {
                Some(b) => {
                    return byte_probe(text, b as u8);
                },
                None => {},
            }
        },
        None => {},
    }
    let size = read_size(params.get("size"));
    let multi = match params.get("mode") {
        Some(m) => same_chars(chars_of(m.as_str()).as_slice(), chars_of("multi").as_slice()),
        None => false,
    };
    size_probe(size, multi)
}

/// The size probe never produces more than the cap asks for: the size that
/// a request asks for is at most 2 MiB, whatever the text. In `multi` mode a
/// size of at least ten gives exactly ten headers of a tenth of the size
/// each, rounded down; in any other mode a positive size gives exactly one
/// header of that size.
pub proof fn law_size_probe_shape(text: Option<Seq<char>>, size: int)
    requires
        size > 0,
    ensures
        0 <= requested_size(text) <= MAX_RESPONSE_HEADER_BYTES,
        filler_headers(size, false).len() == 1,
        filler_headers(size, false)[0].1.len() == size,
        size >= 10 ==> filler_headers(size, true).len() == 10,
        size < 10 ==> filler_headers(size, true).len() == 0,
        forall|i: int|
            0 <= i < filler_headers(size, true).len() ==> (#[trigger] filler_headers(
                size,
                true,
            )[i]).1.len() == size / 10,
        10 * (size / 10) <= size,
{
    match text {
        Some(s) => {
            if unsigned(s, 10, usize::MAX as int) is Some {
                if crate::numeric::all_digits(crate::numeric::digits_of(s), 10) {
                    crate::numeric::lemma_digits_value_nonnegative(
                        crate::numeric::digits_of(s),
                        10,
                    );
                }
            }
        },
        None => {},
    }
}

/// The byte probe sends the chosen byte between two `probe` words exactly
/// where the header format admits the byte; where it does not, the response
/// has no probe header and its body reports the rejection.
pub proof fn law_byte_probe_reports_rejection(text: Seq<char>, b: u8)
    ensures
        ({
            let r = byte_probe_response(text, b);
            &&& r.status == 200
            &&& valid_header_byte(b) <==> b == 9 || (32 <= b && b != 127)
            &&& valid_header_byte(b) ==> r.headers.len() == 3 && r.headers[2] == (
                "x-charset-test"@,
                probe_value(b),
            ) && probe_value(b).len() == 11 && probe_value(b)[5] == b
            &&& !valid_header_byte(b) ==> r.headers.len() == 1 && r.body == BodyView::Text(
                "{\"ok\":false,\"reason\":\"byte rejected by HTTP library\"}"@,
            )
        }),
{
    lemma_probe_value(b);
}

} // verus!
