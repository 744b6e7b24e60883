//! The server-info snapshot: what the server saw of one request, with the
//! redaction and privacy policy applied.

use vstd::prelude::*;
use vstd::slice::{slice_subrange, slice_to_vec};
use vstd::string::StringExecFns;
use vstd::utf8::encode_utf8;
use sha2::{Digest, Sha256};
use crate::build_info::{build_time, build_time_text, version, version_text};
use crate::config::{opt_view, ServerConfig};
use crate::text::{chars_of, is_lower, is_prefix_of, latin1_seq, lower, starts_with, string_of,
    string_of_bytes, to_lower};

verus! {

/// The SHA-256 digest of a byte string.
pub uninterp spec fn sha256(data: Seq<u8>) -> Seq<u8>;

/// The number of leading digest bytes that make a fingerprint.
pub const FINGERPRINT_BYTES: usize = 16;

/// The longest binary header value whose bytes are listed in the snapshot.
pub const BINARY_DATA_LIMIT: usize = 16;

/// Computes the SHA-256 digest of `data`.
///
/// Trusted: `sha2::Sha256`, fed `data` once and finalised, yields the SHA-256
/// digest of `data`, which is 32 bytes long and depends on `data` alone.
#[verifier::external_body]
pub(crate) fn sha256_of(data: &[u8]) -> (d: Vec<u8>)
    ensures
        d@ == sha256(data@),
        d@.len() == 32,
{
    let mut hasher = Sha256::new();
    hasher.update(data);
    hasher.finalize().to_vec()
}

/// The fingerprint of a text: the first 16 bytes of the SHA-256 digest of its
/// UTF-8 encoding.
pub open spec fn fingerprint(text: Seq<char>) -> Seq<u8> {
    sha256(encode_utf8(text)).take(FINGERPRINT_BYTES as int)
}

/// Computes the fingerprint of `input`.
pub fn compute_hash_bytes(input: &str) -> (out: Vec<u8>)
    ensures
        out@ == fingerprint(input@),
        out@.len() == FINGERPRINT_BYTES,
{
    let digest = sha256_of(input.as_bytes());
    slice_to_vec(slice_subrange(digest.as_slice(), 0, FINGERPRINT_BYTES))
}

/// Whether a byte may stand in a header value that is shown as text: visible
/// ASCII, a space or a horizontal tab.
pub open spec fn is_text_byte(b: u8) -> bool {
    (32 <= b < 127) || b == 9
}

/// Whether a header value is shown as text.
pub open spec fn is_text(value: Seq<u8>) -> bool {
    forall|i: int| 0 <= i < value.len() ==> is_text_byte(#[trigger] value[i])
}

/// Whether a lower-case header name begins with one of the prefixes.
pub open spec fn is_redacted(name: Seq<char>, prefixes: Seq<Seq<char>>) -> bool {
    exists|i: int| 0 <= i < prefixes.len() && is_prefix_of(#[trigger] prefixes[i], name)
}

/// What the snapshot holds for one observed header.
#[derive(Clone, Debug, PartialEq, Eq)]
pub enum HeaderEntry {
    /// The value, where it is text.
    Text(String),
    /// The marker that stands for a value that policy withholds.
    Redacted,
    /// The marker for a value that is not text, with its bytes where there
    /// are at most 16 of them.
    Binary(Option<Vec<u8>>),
}

/// The mathematical form of a `HeaderEntry`.
pub enum EntryView {
    Text(Seq<char>),
    Redacted,
    Binary(Option<Seq<u8>>),
}

impl View for HeaderEntry {
    type V = EntryView;

    open spec fn view(&self) -> EntryView {
        match self {
            HeaderEntry::Text(s) => EntryView::Text(s@),
            HeaderEntry::Redacted => EntryView::Redacted,
            HeaderEntry::Binary(Some(b)) => EntryView::Binary(Some(b@)),
            HeaderEntry::Binary(None) => EntryView::Binary(None),
        }
    }
}

/// The entry for a header with the lower-case name `name` and the value
/// `value` under the redaction prefixes `prefixes`.
pub open spec fn entry_of(name: Seq<char>, value: Seq<u8>, prefixes: Seq<Seq<char>>) -> EntryView {
    if is_redacted(name, prefixes) {
        EntryView::Redacted
    } else if is_text(value) {
        EntryView::Text(latin1_seq(value))
    } else if value.len() <= BINARY_DATA_LIMIT {
        EntryView::Binary(Some(value))
    } else {
        EntryView::Binary(None)
    }
}

/// A header as it was observed on a request.
#[derive(Clone, Debug, PartialEq, Eq)]
pub struct ObservedHeader {
    /// The header's name, in any case.
    pub name: String,
    /// The header's raw value.
    pub value: Vec<u8>,
}

/// A header as the snapshot reports it.
#[derive(Clone, Debug, PartialEq, Eq)]
pub struct InfoHeader {
    /// The header's name in lower case.
    pub name: String,
    /// What the snapshot holds for its value.
    pub entry: HeaderEntry,
}

/// The observed headers as pairs of name and value.
pub open spec fn observed_view(h: Seq<ObservedHeader>) -> Seq<(Seq<char>, Seq<u8>)> {
    Seq::new(h.len(), |i: int| (h[i].name@, h[i].value@))
}

/// The reported headers as pairs of name and entry.
pub open spec fn reported_view(h: Seq<InfoHeader>) -> Seq<(Seq<char>, EntryView)> {
    Seq::new(h.len(), |i: int| (h[i].name@, h[i].entry@))
}

/// The reported headers for the observed ones, in the same order: each name
/// in lower case with its entry.
pub open spec fn snapshot_headers(
    observed: Seq<(Seq<char>, Seq<u8>)>,
    prefixes: Seq<Seq<char>>,
) -> Seq<(Seq<char>, EntryView)> {
    Seq::new(
        observed.len(),
        |i: int| (lower(observed[i].0), entry_of(lower(observed[i].0), observed[i].1, prefixes)),
    )
}

/// The header map that a list of reported headers stands for: where a name
/// occurs more than once, its last entry counts.
pub open spec fn header_map(h: Seq<(Seq<char>, EntryView)>) -> Map<Seq<char>, EntryView>
    decreases h.len(),
{
    if h.len() == 0 {
        Map::empty()
    } else {
        header_map(h.drop_last()).insert(h.last().0, h.last().1)
    }
}

/// Tests whether the lower-case name begins with one of the prefixes.
pub fn matches_redaction(name: &[char], prefixes: &Vec<String>) -> (r: bool)
    ensures
        r == is_redacted(name@, crate::config::strings_view(prefixes@)),
{
    let ghost views = crate::config::strings_view(prefixes@);
    let mut i: usize = 0;
    while i < prefixes.len()
        invariant
            i <= prefixes.len(),
            views == crate::config::strings_view(prefixes@),
            forall|j: int| 0 <= j < i ==> !is_prefix_of(#[trigger] views[j], name@),
        decreases prefixes.len() - i,
    {
        let p = chars_of(prefixes[i].as_str());
        if starts_with(name, p.as_slice()) {
            proof {
                assert(is_prefix_of(views[i as int], name@));
            }
            return true;
        }
        i += 1;
    }
    false
}

/// Tests whether a header value is shown as text.
pub fn value_is_text(value: &[u8]) -> (r: bool)
    ensures
        r == is_text(value@),
{
    let mut i: usize = 0;
    while i < value.len()
        invariant
            i <= value.len(),
            forall|j: int| 0 <= j < i ==> is_text_byte(#[trigger] value@[j]),
        decreases value.len() - i,
    {
        let b = value[i];
        if !((32 <= b && b < 127) || b == 9) {
            return false;
        }
        i += 1;
    }
    true
}

/// Decides what the snapshot holds for one header.
pub fn header_entry(name: &[char], value: &[u8], prefixes: &Vec<String>) -> (e: HeaderEntry)
    ensures
        e@ == entry_of(name@, value@, crate::config::strings_view(prefixes@)),
{
    if matches_redaction(name, prefixes) {
        HeaderEntry::Redacted
    } else if value_is_text(value) {
        HeaderEntry::Text(string_of_bytes(value))
    } else if value.len() <= BINARY_DATA_LIMIT {
        HeaderEntry::Binary(Some(slice_to_vec(value)))
    } else {
        HeaderEntry::Binary(None)
    }
}

/// The snapshot of one observed request or session.
#[derive(Clone, Debug, PartialEq, Eq)]
pub struct ServerInfo {
    /// The address of the client.
    pub client_addr: String,
    /// The label of the protocol the request came by.
    pub protocol: String,
    /// The version of the software.
    pub version: String,
    /// The observed headers in the order in which they were seen. Where a
    /// name occurs more than once, its last entry counts.
    pub headers: Vec<InfoHeader>,
    /// The address of the server; withheld in privacy mode.
    pub server_addr: Option<String>,
    /// The name of the host; withheld in privacy mode.
    pub hostname: Option<String>,
    /// The fingerprint of the host's name; withheld in privacy mode.
    pub hostname_hash: Option<Vec<u8>>,
    /// The time of the build; withheld in privacy mode.
    pub build_time: Option<String>,
    /// The configured path prefix, empty where there is none; withheld in
    /// privacy mode.
    pub url_prefix: Option<String>,
    /// The name of the node, where one is configured.
    pub node_name: Option<String>,
    /// The fingerprint of the node's name, where one is configured.
    pub node_name_hash: Option<Vec<u8>>,
    /// The literal path of the request; set by the echo probe.
    pub path: Option<String>,
    /// The raw query string of the request; set by the echo probe.
    pub query: Option<String>,
    /// The kind of message the snapshot is sent as; set by a live session.
    pub message_type: Option<String>,
    /// Whether the request's origin did not match its host; set by the
    /// WebSocket session.
    pub origin_mismatch: bool,
}

/// The mathematical form of a `ServerInfo`.
pub struct InfoView {
    pub client_addr: Seq<char>,
    pub protocol: Seq<char>,
    pub version: Seq<char>,
    pub headers: Seq<(Seq<char>, EntryView)>,
    pub server_addr: Option<Seq<char>>,
    pub hostname: Option<Seq<char>>,
    pub hostname_hash: Option<Seq<u8>>,
    pub build_time: Option<Seq<char>>,
    pub url_prefix: Option<Seq<char>>,
    pub node_name: Option<Seq<char>>,
    pub node_name_hash: Option<Seq<u8>>,
    pub path: Option<Seq<char>>,
    pub query: Option<Seq<char>>,
    pub message_type: Option<Seq<char>>,
    pub origin_mismatch: bool,
}

/// The view of an optional byte vector.
pub open spec fn opt_bytes_view(o: Option<Vec<u8>>) -> Option<Seq<u8>> {
    match o {
        Some(b) => Some(b@),
        None => None,
    }
}

impl View for ServerInfo {
    type V = InfoView;

    open spec fn view(&self) -> InfoView {
        InfoView {
            client_addr: self.client_addr@,
            protocol: self.protocol@,
            version: self.version@,
            headers: reported_view(self.headers@),
            server_addr: opt_view(self.server_addr),
            hostname: opt_view(self.hostname),
            hostname_hash: opt_bytes_view(self.hostname_hash),
            build_time: opt_view(self.build_time),
            url_prefix: opt_view(self.url_prefix),
            node_name: opt_view(self.node_name),
            node_name_hash: opt_bytes_view(self.node_name_hash),
            path: opt_view(self.path),
            query: opt_view(self.query),
            message_type: opt_view(self.message_type),
            origin_mismatch: self.origin_mismatch,
        }
    }
}

impl InfoView {
    /// The snapshot's header map.
    pub open spec fn header_map(self) -> Map<Seq<char>, EntryView> {
        header_map(self.headers)
    }

    /// Whether none of the fields that identify the server is present.
    pub open spec fn hides_server(self) -> bool {
        &&& self.server_addr is None
        &&& self.hostname is None
        &&& self.hostname_hash is None
        &&& self.build_time is None
        &&& self.url_prefix is None
    }
}

/// The fingerprint of an optional text.
pub open spec fn opt_fingerprint(o: Option<String>) -> Option<Seq<u8>> {
    match o {
        Some(s) => Some(fingerprint(s@)),
        None => None,
    }
}

/// The snapshot for the given request under the given configuration.
///
/// The header names are reported in lower case; which entry a header gets
/// depends on its name and the redaction prefixes first, and on its value
/// only where the name is not redacted. The fields that identify the server
/// are present exactly outside privacy mode; the node's name and fingerprint
/// are present exactly where a node name is configured.
pub open spec fn server_info(
    observed: Seq<(Seq<char>, Seq<u8>)>,
    client_addr: Seq<char>,
    server_addr: Seq<char>,
    config: ServerConfig,
    protocol: Seq<char>,
) -> InfoView {
    InfoView {
        client_addr,
        protocol,
        version: version_text(),
        headers: snapshot_headers(observed, config.redactions()),
        server_addr: if config.privacy_mode {
            None
        } else {
            Some(server_addr)
        },
        hostname: if config.privacy_mode {
            None
        } else {
            Some(config.hostname@)
        },
        hostname_hash: if config.privacy_mode {
            None
        } else {
            Some(fingerprint(config.hostname@))
        },
        build_time: if config.privacy_mode {
            None
        } else {
            Some(build_time_text())
        },
        url_prefix: if config.privacy_mode {
            None
        } else {
            match config.url_prefix {
                Some(p) => Some(p@),
                None => Some(Seq::empty()),
            }
        },
        node_name: opt_view(config.node_name),
        node_name_hash: opt_fingerprint(config.node_name),
        path: None,
        query: None,
        message_type: None,
        origin_mismatch: false,
    }
}

/// Builds the snapshot of one request.
pub fn build_server_info(
    headers: &Vec<ObservedHeader>,
    client_addr: String,
    server_addr: String,
    config: &ServerConfig,
    protocol: String,
) -> (info: ServerInfo)
    ensures
        info@ == server_info(
            observed_view(headers@),
            client_addr@,
            server_addr@,
            *config,
            protocol@,
        ),
{
    let ghost observed = observed_view(headers@);
    let ghost prefixes = config.redactions();
    let mut reported: Vec<InfoHeader> = Vec::new();
    let mut i: usize = 0;
    while i < headers.len()
        invariant
            i <= headers.len(),
            observed == observed_view(headers@),
            prefixes == config.redactions(),
            reported@.len() == i,
            forall|j: int|
                0 <= j < i ==> #[trigger] reported_view(reported@)[j] == snapshot_headers(
                    observed,
                    prefixes,
                )[j],
        decreases headers.len() - i,
    {
        let name = to_lower(headers[i].name.as_str());
        let entry = header_entry(name.as_slice(), headers[i].value.as_slice(), &config.redact_prefixes);
        let ghost before = reported@;
        reported.push(InfoHeader { name: string_of(&name), entry });
        proof {
            assert forall|j: int| 0 <= j < i + 1 implies #[trigger] reported_view(reported@)[j]
                == snapshot_headers(observed, prefixes)[j] by {
                if j < i {
                    assert(reported@[j] == before[j]);
                    assert(reported_view(before)[j] == snapshot_headers(observed, prefixes)[j]);
                }
            }
        }
        i += 1;
    }
    proof {
        assert(reported_view(reported@) =~= snapshot_headers(observed, prefixes));
    }
    let shown = !config.privacy_mode;
    let node_name = match &config.node_name {
        Some(n) => Some(n.clone()),
        None => None,
    };
    let node_name_hash = match &config.node_name {
        Some(n) => Some(compute_hash_bytes(n.as_str())),
        None => None,
    };
    ServerInfo {
        client_addr,
        protocol,
        version: String::from_str(version()),
        headers: reported,
        server_addr: if shown {
            Some(server_addr)
        } else {
            None
        },
        hostname: if shown {
            Some(config.hostname.clone())
        } else {
            None
        },
        hostname_hash: if shown {
            Some(compute_hash_bytes(config.hostname.as_str()))
        } else {
            None
        },
        build_time: if shown {
            Some(String::from_str(build_time()))
        } else {
            None
        },
        url_prefix: if shown {
            match &config.url_prefix {
                Some(p) => Some(p.clone()),
                None => Some(String::new()),
            }
        } else {
            None
        },
        node_name,
        node_name_hash,
        path: None,
        query: None,
        message_type: None,
        origin_mismatch: false,
    }
}

/// Where every reported header named `k` has the entry `e`, and there is one,
/// the header map gives `k` the entry `e`.
pub proof fn lemma_header_map_uniform(h: Seq<(Seq<char>, EntryView)>, k: Seq<char>, e: EntryView)
    requires
        exists|j: int| 0 <= j < h.len() && (#[trigger] h[j]).0 == k,
        forall|j: int| 0 <= j < h.len() && (#[trigger] h[j]).0 == k ==> h[j].1 == e,
    ensures
        header_map(h).contains_key(k),
        header_map(h)[k] == e,
    decreases h.len(),
{
    let j = choose|j: int| 0 <= j < h.len() && (#[trigger] h[j]).0 == k;
    if h.last().0 != k {
        assert(h.drop_last()[j] == h[j]);
        assert forall|i: int| 0 <= i < h.drop_last().len() && (#[trigger] h.drop_last()[i]).0
            == k implies h.drop_last()[i].1 == e by {
            assert(h.drop_last()[i] == h[i]);
        }
        lemma_header_map_uniform(h.drop_last(), k, e);
    }
}

/// Redaction depends on the configuration and the header's name alone: a
/// header whose name begins, in whatever case, with one of the configured
/// prefixes is reported as redacted, whatever its value, in the list of
/// headers and in the header map.
pub proof fn law_redacted_headers_are_never_echoed(
    observed: Seq<(Seq<char>, Seq<u8>)>,
    client_addr: Seq<char>,
    server_addr: Seq<char>,
    config: ServerConfig,
    protocol: Seq<char>,
    i: int,
    p: int,
)
    requires
        config.well_formed(),
        0 <= i < observed.len(),
        0 <= p < config.redactions().len(),
        is_prefix_of(lower(config.redactions()[p]), lower(observed[i].0)),
    ensures
        ({
            let info = server_info(observed, client_addr, server_addr, config, protocol);
            &&& info.headers[i] == (lower(observed[i].0), EntryView::Redacted)
            &&& info.header_map().contains_key(lower(observed[i].0))
            &&& info.header_map()[lower(observed[i].0)] == EntryView::Redacted
        }),
{
    let info = server_info(observed, client_addr, server_addr, config, protocol);
    let prefixes = config.redactions();
    let name = lower(observed[i].0);
    crate::text::lemma_lower(prefixes[p]);
    assert(is_lower(config.redact_prefixes@[p]@));
    assert(is_prefix_of(prefixes[p], name));
    assert(is_redacted(name, prefixes));
    assert forall|j: int| 0 <= j < info.headers.len() && (#[trigger] info.headers[j]).0
        == name implies info.headers[j].1 == EntryView::Redacted by {
        assert(is_redacted(lower(observed[j].0), prefixes));
    }
    assert(info.headers[i].0 == name);
    lemma_header_map_uniform(info.headers, name, EntryView::Redacted);
}

/// In privacy mode the snapshot holds none of the server's address, the
/// host's name and fingerprint, the build time and the path prefix, whatever
/// else is configured; the node's name and fingerprint are present in both
/// modes where a node name is configured.
pub proof fn law_privacy_mode_hides_the_server(
    observed: Seq<(Seq<char>, Seq<u8>)>,
    client_addr: Seq<char>,
    server_addr: Seq<char>,
    config: ServerConfig,
    protocol: Seq<char>,
)
    ensures
        ({
            let info = server_info(observed, client_addr, server_addr, config, protocol);
            &&& config.privacy_mode ==> info.hides_server()
            &&& !config.privacy_mode ==> {
                &&& info.server_addr == Some(server_addr)
                &&& info.hostname == Some(config.hostname@)
                &&& info.hostname_hash == Some(fingerprint(config.hostname@))
                &&& info.build_time is Some
                &&& info.url_prefix is Some
            }
            &&& match config.node_name {
                Some(n) => info.node_name == Some(n@) && info.node_name_hash == Some(
                    fingerprint(n@),
                ),
                None => info.node_name is None && info.node_name_hash is None,
            }
        }),
{
}

} // verus!
