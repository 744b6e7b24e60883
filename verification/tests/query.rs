use sensillum::query::{decode_query_bytes, decode_query_value, find_byte, hex_digit, parse_query,
    parse_query_bytes, parse_request_query};

#[test]
fn plus_becomes_space() {
    assert_eq!(decode_query_value("a+b"), "a b");
}

#[test]
fn percent_escape_becomes_byte() {
    assert_eq!(decode_query_value("%41%62"), "Ab");
    assert_eq!(decode_query_value("x%2Fy"), "x/y");
    assert_eq!(decode_query_value("%2f"), "/");
}

#[test]
fn escaped_byte_is_one_character_per_byte() {
    assert_eq!(decode_query_value("%C3%A9"), "\u{c3}\u{a9}");
    assert_eq!(decode_query_value("%ff"), "\u{ff}");
}

#[test]
fn broken_escape_yields_nothing_and_consumes_two_bytes() {
    assert_eq!(decode_query_value("a%zzb"), "ab");
    assert_eq!(decode_query_value("a%4"), "a");
    assert_eq!(decode_query_value("a%"), "a");
    assert_eq!(decode_query_value("%4gZ"), "Z");
}

#[test]
fn plain_text_stays() {
    assert_eq!(decode_query_value(""), "");
    assert_eq!(decode_query_value("hello-world_1.2~"), "hello-world_1.2~");
}

#[test]
fn bytes_of_a_wide_character_become_characters() {
    assert_eq!(decode_query_value("\u{e9}"), "\u{c3}\u{a9}");
    assert_eq!(decode_query_bytes(&[0xe9]), "\u{e9}");
}

#[test]
fn hex_digits_have_their_values() {
    assert_eq!(hex_digit(b'0'), Some(0));
    assert_eq!(hex_digit(b'9'), Some(9));
    assert_eq!(hex_digit(b'a'), Some(10));
    assert_eq!(hex_digit(b'F'), Some(15));
    assert_eq!(hex_digit(b'g'), None);
    assert_eq!(hex_digit(b' '), None);
}

#[test]
fn find_byte_gives_first_position_or_length() {
    assert_eq!(find_byte(b"a=b=c", b'='), 1);
    assert_eq!(find_byte(b"abc", b'='), 3);
    assert_eq!(find_byte(b"", b'='), 0);
}

#[test]
fn pairs_are_split_and_decoded() {
    let q = parse_query("a=1&b=two+words&c=%41");
    assert_eq!(q.entries.len(), 3);
    assert_eq!(q.get("a"), Some("1".to_string()));
    assert_eq!(q.get("b"), Some("two words".to_string()));
    assert_eq!(q.get("c"), Some("A".to_string()));
    assert_eq!(q.get("d"), None);
}

#[test]
fn last_occurrence_of_a_key_wins() {
    let q = parse_query("k=first&x=1&k=second");
    assert_eq!(q.get("k"), Some("second".to_string()));
    assert_eq!(q.entries[0], ("k".to_string(), "first".to_string()));
}

#[test]
fn key_without_value_has_empty_value() {
    let q = parse_query("flag&k=v");
    assert_eq!(q.get("flag"), Some(String::new()));
    assert_eq!(q.get("k"), Some("v".to_string()));
}

#[test]
fn value_keeps_later_equal_signs() {
    let q = parse_query("k=a=b");
    assert_eq!(q.get("k"), Some("a=b".to_string()));
}

#[test]
fn empty_keys_are_left_out() {
    let q = parse_query("=v&&k=1&");
    assert_eq!(q.entries.len(), 1);
    assert_eq!(q.get("k"), Some("1".to_string()));
    assert_eq!(q.get(""), None);
    assert_eq!(parse_query("").entries.len(), 0);
}

#[test]
fn key_that_decodes_to_nothing_is_kept() {
    let q = parse_query("%zz=v");
    assert_eq!(q.get(""), Some("v".to_string()));
}

#[test]
fn keys_are_decoded_too() {
    let q = parse_query("a+b=1&%6e=2");
    assert_eq!(q.get("a b"), Some("1".to_string()));
    assert_eq!(q.get("n"), Some("2".to_string()));
}

#[test]
fn bytes_and_text_parse_alike() {
    assert_eq!(parse_query_bytes(b"a=1&a=2").entries, parse_query("a=1&a=2").entries);
}

#[test]
fn request_without_query_has_no_parameters() {
    assert_eq!(parse_request_query(None).entries.len(), 0);
    assert_eq!(parse_request_query(Some("a=b")).get("a"), Some("b".to_string()));
}
