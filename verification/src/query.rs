//! Query-string decoding: `+` becomes a space, `%XX` becomes the byte `XX`,
//! pairs are separated by `&`, key and value by the first `=`, and the last
//! occurrence of a repeated key wins.

use vstd::prelude::*;
use vstd::slice::slice_subrange;
use vstd::string::StringSliceAdditionalSpecFns;
use crate::text::{latin1, push_char};

verus! {

/// Whether the byte is an ASCII hexadecimal digit, in either case.
pub open spec fn is_hex_digit(b: u8) -> bool {
    (0x30 <= b <= 0x39) || (0x41 <= b <= 0x46) || (0x61 <= b <= 0x66)
}

/// The value of an ASCII hexadecimal digit.
pub open spec fn hex_value(b: u8) -> int {
    if 0x30 <= b <= 0x39 {
        b - 0x30
    } else if 0x41 <= b <= 0x46 {
        b - 0x41 + 10
    } else {
        b - 0x61 + 10
    }
}

/// What an escape `%` followed by the bytes `h1`, `h2` contributes: one
/// character when both are hexadecimal digits, nothing otherwise.
pub open spec fn escape(h1: u8, h2: u8) -> Seq<char> {
    if is_hex_digit(h1) && is_hex_digit(h2) {
        seq![latin1((hex_value(h1) * 16 + hex_value(h2)) as u8)]
    } else {
        Seq::empty()
    }
}

/// The decoded form of a percent-encoded byte string.
///
/// A `%` always consumes the two bytes that follow it (or what is left of the
/// input); it yields a character only when they are two hexadecimal digits.
/// Every other byte stands for the character with its code point.
pub open spec fn decode_query(b: Seq<u8>) -> Seq<char>
    decreases b.len(),
{
    if b.len() == 0 {
        Seq::empty()
    } else if b[0] == 0x2b {
        seq![' '] + decode_query(b.skip(1))
    } else if b[0] == 0x25 {
        if b.len() >= 3 {
            escape(b[1], b[2]) + decode_query(b.skip(3))
        } else {
            Seq::empty()
        }
    } else {
        seq![latin1(b[0])] + decode_query(b.skip(1))
    }
}

/// The value of a hexadecimal digit, if the byte is one.
pub fn hex_digit(b: u8) -> (r: Option<u8>)
    ensures
        r == if is_hex_digit(b) {
            Some(hex_value(b) as u8)
        } else {
            None
        },
{
    if 0x30 <= b && b <= 0x39 {
        Some(b - 0x30)
    } else if 0x41 <= b && b <= 0x46 {
        Some(b - 0x41 + 10)
    } else if 0x61 <= b && b <= 0x66 {
        Some(b - 0x61 + 10)
    } else {
        None
    }
}

/// Decodes a percent-encoded byte string.
pub fn decode_query_bytes(b: &[u8]) -> (out: String)
    ensures
        out@ == decode_query(b@),
{
    let mut out = String::new();
    let mut i: usize = 0;
    proof {
        assert(b@.skip(0) == b@);
        assert(Seq::<char>::empty() + decode_query(b@) == decode_query(b@));
    }
    while i < b.len()
        invariant
            i <= b.len(),
            out@ + decode_query(b@.skip(i as int)) == decode_query(b@),
        decreases b.len() - i,
    {
        let ghost rest = b@.skip(i as int);
        let c = b[i];
        proof {
            assert(rest[0] == c);
        }
        if c == 0x2b {
            push_char(&mut out, ' ');
            proof {
                assert(rest.skip(1) == b@.skip(i + 1));
                assert(decode_query(rest) == seq![' '] + decode_query(rest.skip(1)));
            }
            i += 1;
        } else if c == 0x25 {
            if b.len() - i >= 3 {
                let h1 = hex_digit(b[i + 1]);
                let h2 = hex_digit(b[i + 2]);
                proof {
                    assert(rest[1] == b@[i + 1]);
                    assert(rest[2] == b@[i + 2]);
                    assert(rest.skip(3) == b@.skip(i + 3));
                    assert(decode_query(rest) == escape(rest[1], rest[2]) + decode_query(
                        rest.skip(3),
                    ));
                }
                match (h1, h2) {
                    (Some(h1), Some(h2)) => {
                        push_char(&mut out, (h1 * 16 + h2) as char);
                    },
                    _ => {},
                }
                i += 3;
            } else {
                proof {
                    assert(decode_query(rest) == Seq::<char>::empty());
                    assert(decode_query(b@.skip(b@.len() as int)) == Seq::<char>::empty());
                }
                i = b.len();
            }
        } else {
            push_char(&mut out, c as char);
            proof {
                assert(rest.skip(1) == b@.skip(i + 1));
                assert(decode_query(rest) == seq![latin1(rest[0])] + decode_query(rest.skip(1)));
            }
            i += 1;
        }
    }
    proof {
        assert(decode_query(b@.skip(i as int)) == Seq::<char>::empty());
    }
    out
}

/// Decodes a percent-encoded query key or value.
pub fn decode_query_value(s: &str) -> (out: String)
    ensures
        out@ == decode_query(s.spec_bytes()),
{
    decode_query_bytes(s.as_bytes())
}

/// The position of the first occurrence of `c` in `b`, or the length of `b`
/// where there is none.
pub open spec fn index_of(b: Seq<u8>, c: u8) -> int
    decreases b.len(),
{
    if b.len() == 0 || b[0] == c {
        0
    } else {
        1 + index_of(b.skip(1), c)
    }
}

/// `index_of` lies within the sequence, no earlier byte is `c`, and the byte
/// it points at, if any, is `c`.
pub proof fn lemma_index_of(b: Seq<u8>, c: u8)
    ensures
        0 <= index_of(b, c) <= b.len(),
        forall|j: int| 0 <= j < index_of(b, c) ==> b[j] != c,
        index_of(b, c) < b.len() ==> b[index_of(b, c)] == c,
    decreases b.len(),
{
    if b.len() == 0 || b[0] == c {
    } else {
        lemma_index_of(b.skip(1), c);
        assert forall|j: int| 0 <= j < index_of(b, c) implies b[j] != c by {
            if j > 0 {
                assert(b.skip(1)[j - 1] == b[j]);
            }
        }
    }
}

/// A position that satisfies the three properties of `index_of` is it.
pub proof fn lemma_index_of_unique(b: Seq<u8>, c: u8, n: int)
    requires
        0 <= n <= b.len(),
        forall|j: int| 0 <= j < n ==> b[j] != c,
        n < b.len() ==> b[n] == c,
    ensures
        index_of(b, c) == n,
    decreases b.len(),
{
    if b.len() == 0 || b[0] == c {
    } else {
        assert forall|j: int| 0 <= j < n - 1 implies b.skip(1)[j] != c by {
            assert(b.skip(1)[j] == b[j + 1]);
        }
        lemma_index_of_unique(b.skip(1), c, n - 1);
    }
}

/// The raw key of one `key=value` segment: what stands before the first `=`.
pub open spec fn raw_key(seg: Seq<u8>) -> Seq<u8> {
    seg.take(index_of(seg, 0x3d))
}

/// The raw value of one segment: what follows the first `=`, or nothing.
pub open spec fn raw_value(seg: Seq<u8>) -> Seq<u8> {
    if index_of(seg, 0x3d) < seg.len() {
        seg.skip(index_of(seg, 0x3d) + 1)
    } else {
        Seq::empty()
    }
}

/// The decoded pairs of a query string in the order in which they appear.
/// Segments whose raw key is empty are left out.
pub open spec fn query_pairs(q: Seq<u8>) -> Seq<(Seq<char>, Seq<char>)>
    decreases q.len(),
{
    let n = index_of(q, 0x26);
    let seg = q.take(n);
    let head = if raw_key(seg).len() == 0 {
        Seq::empty()
    } else {
        seq![(decode_query(raw_key(seg)), decode_query(raw_value(seg)))]
    };
    if 0 <= n < q.len() {
        head + query_pairs(q.skip(n + 1))
    } else {
        head
    }
}

/// The map that a list of pairs stands for: a later pair replaces an earlier
/// one with the same key.
pub open spec fn pairs_map(p: Seq<(Seq<char>, Seq<char>)>) -> Map<Seq<char>, Seq<char>>
    decreases p.len(),
{
    if p.len() == 0 {
        Map::empty()
    } else {
        pairs_map(p.drop_last()).insert(p.last().0, p.last().1)
    }
}

/// A key that no pair has is not in the map.
pub proof fn lemma_pairs_map_absent(p: Seq<(Seq<char>, Seq<char>)>, k: Seq<char>)
    requires
        forall|j: int| 0 <= j < p.len() ==> p[j].0 != k,
    ensures
        !pairs_map(p).contains_key(k),
    decreases p.len(),
{
    if p.len() > 0 {
        lemma_pairs_map_absent(p.drop_last(), k);
    }
}

/// The map gives a key the value of the last pair that has it.
pub proof fn lemma_pairs_map_last(p: Seq<(Seq<char>, Seq<char>)>, k: Seq<char>, j: int)
    requires
        0 <= j < p.len(),
        p[j].0 == k,
        forall|i: int| j < i < p.len() ==> p[i].0 != k,
    ensures
        pairs_map(p).contains_key(k),
        pairs_map(p)[k] == p[j].1,
    decreases p.len(),
{
    if j < p.len() - 1 {
        lemma_pairs_map_last(p.drop_last(), k, j);
    }
}

/// The parameters of a query string.
#[derive(Clone, Debug, PartialEq, Eq)]
pub struct QueryParams {
    /// The decoded pairs in the order in which they appeared.
    pub entries: Vec<(String, String)>,
}

impl QueryParams {
    /// The decoded pairs as sequences of characters.
    pub open spec fn pairs(&self) -> Seq<(Seq<char>, Seq<char>)> {
        Seq::new(self.entries@.len(), |i: int| (self.entries@[i].0@, self.entries@[i].1@))
    }

    /// The value of `key`: that of its last occurrence, if it occurs.
    pub fn get(&self, key: &str) -> (r: Option<String>)
        ensures
            match r {
                Some(v) => self@.contains_key(key@) && self@[key@] == v@,
                None => !self@.contains_key(key@),
            },
    {
        let k = key.to_owned();
        let mut i: usize = self.entries.len();
        while i > 0
            invariant
                i <= self.entries.len(),
                k@ == key@,
                forall|j: int| i <= j < self.entries.len() ==> self.pairs()[j].0 != key@,
            decreases i,
        {
            i -= 1;
            if self.entries[i].0 == k {
                proof {
                    lemma_pairs_map_last(self.pairs(), key@, i as int);
                }
                return Some(self.entries[i].1.clone());
            }
        }
        proof {
            lemma_pairs_map_absent(self.pairs(), key@);
        }
        None
    }
}

impl View for QueryParams {
    type V = Map<Seq<char>, Seq<char>>;

    open spec fn view(&self) -> Map<Seq<char>, Seq<char>> {
        pairs_map(self.pairs())
    }
}

/// The position of the first occurrence of `c` in `b`, or the length of `b`.
pub fn find_byte(b: &[u8], c: u8) -> (n: usize)
    ensures
        n == index_of(b@, c),
{
    let mut i: usize = 0;
    while i < b.len() && b[i] != c
        invariant
            i <= b.len(),
            forall|j: int| 0 <= j < i ==> b@[j] != c,
        decreases b.len() - i,
    {
        i += 1;
    }
    proof {
        lemma_index_of_unique(b@, c, i as int);
    }
    i
}

/// Parses the bytes of a query string.
pub fn parse_query_bytes(b: &[u8]) -> (out: QueryParams)
    ensures
        out.pairs() == query_pairs(b@),
        out@ == pairs_map(query_pairs(b@)),
{
    let mut out = QueryParams { entries: Vec::new() };
    let mut start: usize = 0;
    let mut done = false;
    proof {
        assert(b@.skip(0) == b@);
        assert(out.pairs() + query_pairs(b@) == query_pairs(b@));
    }
    while !done
        invariant
            start <= b.len(),
            !done ==> out.pairs() + query_pairs(b@.skip(start as int)) == query_pairs(b@),
            done ==> out.pairs() == query_pairs(b@),
        decreases b.len() - start + if done { 0int } else { 1int },
    {
        let rest = slice_subrange(b, start, b.len());
        let n = find_byte(rest, 0x26);
        proof {
            lemma_index_of(rest@, 0x26);
            assert(rest@ == b@.skip(start as int));
        }
        let seg = slice_subrange(rest, 0, n);
        let eq = find_byte(seg, 0x3d);
        proof {
            lemma_index_of(seg@, 0x3d);
            assert(seg@ == rest@.take(n as int));
        }
        let ghost before = out.pairs();
        if eq > 0 {
            let key = decode_query_bytes(slice_subrange(seg, 0, eq));
            let value = if eq < seg.len() {
                decode_query_bytes(slice_subrange(seg, eq + 1, seg.len()))
            } else {
                String::new()
            };
            proof {
                assert(seg@.subrange(0, eq as int) == raw_key(seg@));
                if eq < seg@.len() {
                    assert(seg@.subrange(eq + 1, seg@.len() as int) == raw_value(seg@));
                }
                assert(decode_query(Seq::<u8>::empty()) == Seq::<char>::empty());
                assert(value@ == decode_query(raw_value(seg@)));
            }
            out.entries.push((key, value));
            proof {
                assert(out.pairs() == before + seq![
                    (decode_query(raw_key(seg@)), decode_query(raw_value(seg@))),
                ]);
            }
        } else {
            proof {
                assert(raw_key(seg@).len() == 0);
                assert(out.pairs() == before + Seq::<(Seq<char>, Seq<char>)>::empty());
            }
        }
        if n < rest.len() {
            proof {
                assert(rest@.skip(n + 1) == b@.skip(start + n + 1));
            }
            start = start + n + 1;
        } else {
            done = true;
        }
    }
    out
}

/// Parses a query string into its parameters.
pub fn parse_query(query: &str) -> (out: QueryParams)
    ensures
        out.pairs() == query_pairs(query.spec_bytes()),
        out@ == pairs_map(query_pairs(query.spec_bytes())),
{
    parse_query_bytes(query.as_bytes())
}

/// The bytes of a request's query string; none where the request has no
/// query.
pub open spec fn query_bytes(query: Option<Seq<char>>) -> Seq<u8> {
    match query {
        Some(q) => vstd::utf8::encode_utf8(q),
        None => Seq::empty(),
    }
}

/// The parameters of a request with the given query string.
pub open spec fn params_of(query: Option<Seq<char>>) -> Map<Seq<char>, Seq<char>> {
    pairs_map(query_pairs(query_bytes(query)))
}

/// The value of a parameter, if it is present.
pub open spec fn param(params: Map<Seq<char>, Seq<char>>, name: Seq<char>) -> Option<Seq<char>> {
    if params.contains_key(name) {
        Some(params[name])
    } else {
        None
    }
}

/// Parses the query string of a request; a request without one has no
/// parameters.
pub fn parse_request_query(query: Option<&str>) -> (out: QueryParams)
    ensures
        out@ == params_of(crate::text::opt_str_view(query)),
{
    match query {
        Some(q) => parse_query(q),
        None => {
            proof {
                reveal_strlit("");
                assert(vstd::utf8::encode_utf8(""@) == Seq::<u8>::empty());
            }
            parse_query("")
        },
    }
}

} // verus!
