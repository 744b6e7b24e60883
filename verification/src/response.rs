//! Responses as plain data: a status, headers and a body that the transport
//! layer turns into bytes on the wire.

use vstd::prelude::*;
use vstd::string::{StrSliceExecFns, StringExecFns};
use vstd::utf8::encode_utf8;
use hyper::header::HeaderValue;
use crate::info::{InfoView, ServerInfo};

verus! {

/// Whether the transport's header format admits the byte in a value: no
/// control character but the horizontal tab, and not the byte `0x7f`.
pub open spec fn valid_header_byte(b: u8) -> bool {
    (b >= 32 && b != 127) || b == 9
}

/// Whether the transport's header format admits the bytes as a value.
pub open spec fn valid_header_value(value: Seq<u8>) -> bool {
    forall|i: int| 0 <= i < value.len() ==> valid_header_byte(#[trigger] value[i])
}

/// Asks the header-value encoder whether it takes the bytes.
///
/// Trusted: `HeaderValue::from_bytes` of the `http` crate, as `hyper` hands
/// it on, succeeds exactly when every byte is `0x09` or lies in `0x20..=0xff`
/// without being `0x7f`.
#[verifier::external_body]
pub(crate) fn header_value_accepts(bytes: &[u8]) -> (ok: bool)
    ensures
        ok == valid_header_value(bytes@),
{
    HeaderValue::from_bytes(bytes).is_ok()
}

/// One header of a response.
#[derive(Clone, Debug, PartialEq, Eq)]
pub struct ResponseHeader {
    /// The header's name.
    pub name: String,
    /// The header's value.
    pub value: Vec<u8>,
}

/// What a response carries.
#[derive(Clone, Debug, PartialEq, Eq)]
pub enum Body {
    /// Nothing.
    Empty,
    /// A text, sent as it is.
    Text(String),
    /// A snapshot, sent as one JSON object.
    Snapshot(ServerInfo),
    /// The diagnostic page: the static frame around a snapshot and a version
    /// line.
    Page { info: ServerInfo, version_line: String },
    /// The endless stream of events that begins with the snapshot.
    EventStream(ServerInfo),
}

/// The mathematical form of a `Body`.
pub enum BodyView {
    Empty,
    Text(Seq<char>),
    Snapshot(InfoView),
    Page { info: InfoView, version_line: Seq<char> },
    EventStream(InfoView),
}

impl View for Body {
    type V = BodyView;

    open spec fn view(&self) -> BodyView {
        match self {
            Body::Empty => BodyView::Empty,
            Body::Text(s) => BodyView::Text(s@),
            Body::Snapshot(info) => BodyView::Snapshot(info@),
            Body::Page { info, version_line } => BodyView::Page {
                info: info@,
                version_line: version_line@,
            },
            Body::EventStream(info) => BodyView::EventStream(info@),
        }
    }
}

/// A response.
#[derive(Clone, Debug, PartialEq, Eq)]
pub struct Response {
    /// The status code.
    pub status: u16,
    /// The headers in the order in which they are sent.
    pub headers: Vec<ResponseHeader>,
    /// The body.
    pub body: Body,
}

/// The mathematical form of a `Response`.
pub struct ResponseView {
    pub status: u16,
    pub headers: Seq<(Seq<char>, Seq<u8>)>,
    pub body: BodyView,
}

/// The headers as pairs of name and value.
pub open spec fn headers_view(h: Seq<ResponseHeader>) -> Seq<(Seq<char>, Seq<u8>)> {
    Seq::new(h.len(), |i: int| (h[i].name@, h[i].value@))
}

impl View for Response {
    type V = ResponseView;

    open spec fn view(&self) -> ResponseView {
        ResponseView {
            status: self.status,
            headers: headers_view(self.headers@),
            body: self.body@,
        }
    }
}

/// Why a response could not be built.
#[derive(Clone, Copy, Debug, PartialEq, Eq, Structural)]
pub enum ResponseError {
    /// A header value holds a byte that the header format does not admit.
    InvalidHeaderValue,
}

/// Whether every header has a value that the header format admits.
pub open spec fn valid_headers(h: Seq<(Seq<char>, Seq<u8>)>) -> bool {
    forall|i: int| 0 <= i < h.len() ==> valid_header_value((#[trigger] h[i]).1)
}

/// The response that stands in for one that could not be built.
pub open spec fn internal_error_view() -> ResponseView {
    ResponseView {
        status: 500,
        headers: Seq::empty(),
        body: BodyView::Text("Internal Server Error"@),
    }
}

/// The response with the given parts where its headers are valid, and the
/// stand-in with status 500 where they are not.
pub open spec fn settle(status: u16, headers: Seq<(Seq<char>, Seq<u8>)>, body: BodyView)
    -> ResponseView {
    if valid_headers(headers) {
        ResponseView { status, headers, body }
    } else {
        internal_error_view()
    }
}

/// A header with a text value, which is sent in its UTF-8 encoding.
pub fn text_header(name: &str, value: &str) -> (h: ResponseHeader)
    ensures
        h.name@ == name@,
        h.value@ == encode_utf8(value@),
{
    ResponseHeader { name: String::from_str(name), value: value.as_bytes_vec() }
}

/// A header with a value given as bytes.
pub fn bytes_header(name: &str, value: Vec<u8>) -> (h: ResponseHeader)
    ensures
        h.name@ == name@,
        h.value@ == value@,
{
    ResponseHeader { name: String::from_str(name), value }
}

/// Builds a response from its parts. It fails where a header value holds a
/// byte that the header format does not admit.
pub fn build_response(status: u16, headers: Vec<ResponseHeader>, body: Body) -> (r: Result<
    Response,
    ResponseError,
>)
    ensures
        match r {
            Ok(resp) => valid_headers(headers_view(headers@)) && resp@ == (ResponseView {
                status,
                headers: headers_view(headers@),
                body: body@,
            }),
            Err(e) => !valid_headers(headers_view(headers@)) && e
                == ResponseError::InvalidHeaderValue,
        },
{
    let mut i: usize = 0;
    while i < headers.len()
        invariant
            i <= headers.len(),
            forall|j: int|
                0 <= j < i ==> valid_header_value((#[trigger] headers_view(headers@)[j]).1),
        decreases headers.len() - i,
    {
        if !header_value_accepts(headers[i].value.as_slice()) {
            proof {
                assert(!valid_header_value(headers_view(headers@)[i as int].1));
            }
            return Err(ResponseError::InvalidHeaderValue);
        }
        i += 1;
    }
    Ok(Response { status, headers, body })
}

/// The stand-in response with status 500. It has no header, so building it
/// cannot fail.
pub fn internal_error() -> (r: Response)
    ensures
        r@ == internal_error_view(),
{
    let r = Response {
        status: 500,
        headers: Vec::new(),
        body: Body::Text(String::from_str("Internal Server Error")),
    };
    proof {
        assert(headers_view(r.headers@) =~= Seq::empty());
    }
    r
}

/// Turns the outcome of building a response into a response: a failure
/// becomes the stand-in with status 500.
pub trait OrInternalError: Sized {
    /// The response that `or_500` returns.
    spec fn settled(self) -> ResponseView;

    /// The response that was built, or the stand-in where building failed.
    fn or_500(self) -> (r: Response)
        ensures
            r@ == self.settled(),
    ;
}

impl OrInternalError for Result<Response, ResponseError> {
    open spec fn settled(self) -> ResponseView {
        match self {
            Ok(r) => r@,
            Err(_) => internal_error_view(),
        }
    }

    fn or_500(self) -> (r: Response) {
        match self {
            Ok(r) => r,
            Err(_) => internal_error(),
        }
    }
}

/// Builds a response from its parts, or the stand-in with status 500 where
/// a header value is not admitted.
pub fn respond(status: u16, headers: Vec<ResponseHeader>, body: Body) -> (r: Response)
    ensures
        r@ == settle(status, headers_view(headers@), body@),
{
    build_response(status, headers, body).or_500()
}

/// Whether every character is printable ASCII: a space, or visible.
pub open spec fn is_printable(t: Seq<char>) -> bool {
    forall|i: int| 0 <= i < t.len() ==> ' ' <= #[trigger] t[i] <= '~'
}

/// A printable text is encoded one byte per character, and the header
/// format admits it as a value.
pub proof fn lemma_printable_is_valid(t: Seq<char>)
    requires
        is_printable(t),
    ensures
        encode_utf8(t).len() == t.len(),
        forall|i: int| 0 <= i < t.len() ==> encode_utf8(t)[i] == t[i] as u8,
        valid_header_value(encode_utf8(t)),
{
    assert(vstd::utf8::is_ascii_chars(t));
    vstd::utf8::is_ascii_chars_encode_utf8(t);
    assert forall|i: int| 0 <= i < encode_utf8(t).len() implies valid_header_byte(
        #[trigger] encode_utf8(t)[i],
    ) by {
        assert(' ' <= t[i] <= '~');
    }
}

/// The header that declares a JSON body.
pub open spec fn json_type() -> (Seq<char>, Seq<u8>) {
    ("Content-Type"@, encode_utf8("application/json"@))
}

/// The header format admits the value of `json_type`.
pub proof fn lemma_json_type_valid()
    ensures
        valid_header_value(json_type().1),
{
    reveal_strlit("application/json");
    lemma_printable_is_valid("application/json"@);
}

/// The header that declares a JSON body.
pub fn json_type_header() -> (h: ResponseHeader)
    ensures
        (h.name@, h.value@) == json_type(),
{
    text_header("Content-Type", "application/json")
}

} // verus!
