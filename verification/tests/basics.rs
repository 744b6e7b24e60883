use sensillum::build_info::{build_time, compose_full_version, full_version, git_commit,
    git_dirty, git_tag, repository, version};
use sensillum::numeric::{decimal, digit, parse_unsigned, push_decimal};
use sensillum::response::{build_response, bytes_header, internal_error, json_type_header,
    respond, text_header, Body, OrInternalError, ResponseError};
use sensillum::text::{char_is_whitespace, chars_of, same_chars, starts_with, string_of,
    string_of_bytes, string_of_slice, to_lower, to_lower_char, trimmed};

fn chars(s: &str) -> Vec<char> {
    s.chars().collect()
}

#[test]
fn full_version_with_a_tag() {
    assert_eq!(
        compose_full_version("0.1.0", Some("v0.1.0"), Some("a1b2c3d"), false,
            "2026-02-18T12:00:00Z"),
        "0.1.0 @ v0.1.0 (built 2026-02-18T12:00:00Z)"
    );
}

#[test]
fn full_version_with_a_dirty_commit() {
    assert_eq!(
        compose_full_version("0.1.0", None, Some("a1b2c3d"), true, "2026-02-18T12:00:00Z"),
        "0.1.0 @ a1b2c3d-dirty (built 2026-02-18T12:00:00Z)"
    );
    assert_eq!(
        compose_full_version("0.1.0", Some("v1"), None, true, "t"),
        "0.1.0 @ v1-dirty (built t)"
    );
}

#[test]
fn full_version_without_git_info() {
    assert_eq!(
        compose_full_version("0.1.0", None, None, true, "2026-02-18T12:00:00Z"),
        "0.1.0 (built 2026-02-18T12:00:00Z)"
    );
}

#[test]
fn build_metadata_of_this_library() {
    assert_eq!(version(), "0.1.0");
    assert_eq!(build_time(), "unknown");
    assert_eq!(repository(), "");
    assert_eq!(git_commit(), None);
    assert_eq!(git_tag(), None);
    assert!(!git_dirty());
    assert_eq!(full_version(), "0.1.0 (built unknown)");
}

#[test]
fn decimal_text() {
    assert_eq!(decimal(0), "0");
    assert_eq!(decimal(9), "9");
    assert_eq!(decimal(10), "10");
    assert_eq!(decimal(1005), "1005");
    assert_eq!(decimal(u64::MAX), "18446744073709551615");
    let mut s = "n=".to_string();
    push_decimal(&mut s, 42);
    assert_eq!(s, "n=42");
}

#[test]
fn unsigned_numbers() {
    assert_eq!(parse_unsigned(&chars("0"), 10, 255), Some(0));
    assert_eq!(parse_unsigned(&chars("255"), 10, 255), Some(255));
    assert_eq!(parse_unsigned(&chars("256"), 10, 255), None);
    assert_eq!(parse_unsigned(&chars("ff"), 16, 255), Some(255));
    assert_eq!(parse_unsigned(&chars("FF"), 16, 255), Some(255));
    assert_eq!(parse_unsigned(&chars("+7f"), 16, 255), Some(127));
    assert_eq!(parse_unsigned(&chars("000000000000000000000000001"), 16, 255), Some(1));
    assert_eq!(parse_unsigned(&chars("100"), 16, 255), None);
    assert_eq!(parse_unsigned(&chars(""), 16, 255), None);
    assert_eq!(parse_unsigned(&chars("+"), 16, 255), None);
    assert_eq!(parse_unsigned(&chars("++1"), 16, 255), None);
    assert_eq!(parse_unsigned(&chars("-1"), 16, 255), None);
    assert_eq!(parse_unsigned(&chars("1g"), 16, 255), None);
    assert_eq!(parse_unsigned(&chars("a"), 10, 255), None);
    assert_eq!(
        parse_unsigned(&chars("18446744073709551615"), 10, u64::MAX),
        Some(u64::MAX)
    );
    assert_eq!(parse_unsigned(&chars("18446744073709551616"), 10, u64::MAX), None);
    assert_eq!(parse_unsigned(&chars("ffffffffffffffff"), 16, u64::MAX), Some(u64::MAX));
    assert_eq!(parse_unsigned(&chars("10000000000000000"), 16, u64::MAX), None);
}

#[test]
fn digits() {
    assert_eq!(digit('7', 10), Some(7));
    assert_eq!(digit('a', 10), None);
    assert_eq!(digit('a', 16), Some(10));
    assert_eq!(digit('F', 16), Some(15));
    assert_eq!(digit('g', 16), None);
    assert_eq!(digit('/', 16), None);
    assert_eq!(digit('\u{663}', 10), None);
}

#[test]
fn characters_and_strings() {
    assert_eq!(chars_of("héllo"), chars("héllo"));
    assert_eq!(string_of(&chars("héllo")), "héllo");
    assert_eq!(string_of_slice(&chars("abc")[1..]), "bc");
    assert_eq!(string_of_bytes(&[0x41, 0xe9, 0x00]), "A\u{e9}\u{0}");
    assert_eq!(chars_of(""), Vec::<char>::new());
}

#[test]
fn lower_case() {
    assert_eq!(to_lower("Content-TYPE"), chars("content-type"));
    assert_eq!(to_lower("ÀB"), chars("Àb"));
    assert_eq!(to_lower_char('Z'), 'z');
    assert_eq!(to_lower_char('A'), 'a');
    assert_eq!(to_lower_char('@'), '@');
    assert_eq!(to_lower_char('['), '[');
    assert_eq!(to_lower_char('z'), 'z');
}

#[test]
fn prefixes() {
    assert!(starts_with(&chars("abc"), &chars("ab")));
    assert!(starts_with(&chars("abc"), &chars("")));
    assert!(starts_with(&chars("abc"), &chars("abc")));
    assert!(!starts_with(&chars("abc"), &chars("abcd")));
    assert!(!starts_with(&chars("abc"), &chars("b")));
    assert!(same_chars(&chars("abc"), &chars("abc")));
    assert!(!same_chars(&chars("abc"), &chars("ab")));
    assert!(!same_chars(&chars("abc"), &chars("abd")));
}

#[test]
fn trimming() {
    assert_eq!(trimmed(&chars("  a b \t\n")), chars("a b").as_slice());
    assert_eq!(trimmed(&chars("\u{a0}x\u{85}")), chars("x").as_slice());
    assert_eq!(trimmed(&chars("   ")), chars("").as_slice());
    assert_eq!(trimmed(&chars("")), chars("").as_slice());
    assert_eq!(trimmed(&chars("x")), chars("x").as_slice());
    assert_eq!(trimmed(&chars("\u{200b}x")), chars("\u{200b}x").as_slice());
}

#[test]
fn white_space_is_what_the_standard_library_says() {
    for code in 0..0x3100u32 {
        if let Some(c) = char::from_u32(code) {
            assert_eq!(char_is_whitespace(c), c.is_whitespace(), "U+{:04X}", code);
        }
    }
}

#[test]
fn lower_case_is_what_the_standard_library_says_for_ascii() {
    for code in 0..0x80u32 {
        let c = char::from_u32(code).unwrap();
        assert_eq!(to_lower_char(c), c.to_ascii_lowercase());
    }
}

#[test]
fn response_with_valid_headers_is_built() {
    let headers = vec![json_type_header(), bytes_header("x-bin", vec![0x80, 0xff, 0x09])];
    let r = build_response(201, headers.clone(), Body::Empty).unwrap();
    assert_eq!(r.status, 201);
    assert_eq!(r.headers, headers);
    assert_eq!(r.body, Body::Empty);
}

#[test]
fn response_with_an_invalid_header_value_fails() {
    for bad in [vec![0x00], vec![b'a', 0x7f], vec![b'\n'], vec![0x1f]] {
        let headers = vec![json_type_header(), bytes_header("x-bad", bad)];
        assert_eq!(
            build_response(200, headers, Body::Empty),
            Err(ResponseError::InvalidHeaderValue)
        );
    }
}

#[test]
fn failure_becomes_the_stand_in() {
    let failed = build_response(200, vec![text_header("x", "a\rb")], Body::Empty);
    let r = failed.or_500();
    assert_eq!(r, internal_error());
    assert_eq!(r.status, 500);
    assert!(r.headers.is_empty());
    assert_eq!(r.body, Body::Text("Internal Server Error".to_string()));
    assert_eq!(respond(200, vec![text_header("x", "a\rb")], Body::Empty), internal_error());
}

#[test]
fn success_stays() {
    let r = build_response(204, vec![], Body::Empty).or_500();
    assert_eq!(r.status, 204);
    assert_eq!(respond(204, vec![], Body::Empty).status, 204);
}

#[test]
fn text_header_is_sent_in_utf8() {
    let h = text_header("x-name", "é");
    assert_eq!(h.name, "x-name");
    assert_eq!(h.value, vec![0xc3, 0xa9]);
}

#[test]
fn other_radixes() {
    assert_eq!(digit('z', 36), Some(35));
    assert_eq!(digit('Z', 36), Some(35));
    assert_eq!(digit('1', 2), Some(1));
    assert_eq!(digit('2', 2), None);
    assert_eq!(parse_unsigned(&chars("101"), 2, 255), Some(5));
    assert_eq!(parse_unsigned(&chars("zz"), 36, u64::MAX), Some(1295));
    assert_eq!(parse_unsigned(&chars("777"), 8, 511), Some(511));
    assert_eq!(parse_unsigned(&chars("1000"), 8, 511), None);
}

#[test]
fn unsigned_numbers_are_what_the_standard_library_reads() {
    let words = ["", "+", "-", "0", "+0", "-0", "7", "42", "0042", "255", "256", "ff", "FF", "fF",
        "+ff", "++1", "1+", " 1", "1 ", "zz", "Zz", "18446744073709551615",
        "18446744073709551616", "ffffffffffffffff", "10000000000000000", "1_000", "0x10", "١"];
    for radix in [2u8, 8, 10, 16, 36] {
        for word in words {
            assert_eq!(
                parse_unsigned(&chars(word), radix, u64::MAX),
                u64::from_str_radix(word, radix as u32).ok(),
                "{:?} in radix {}",
                word,
                radix
            );
            assert_eq!(
                parse_unsigned(&chars(word), radix, 255),
                u8::from_str_radix(word, radix as u32).ok().map(|v| v as u64),
                "{:?} in radix {}",
                word,
                radix
            );
        }
    }
}
