use sensillum::hdr::{byte_probe, handle_response_headers_test, make_filler, make_probe_value,
    read_size, size_probe, MAX_RESPONSE_HEADER_BYTES, MULTI_HEADER_COUNT};
use sensillum::response::{Body, Response};

fn probe_headers(r: &Response) -> Vec<(&str, usize)> {
    r.headers
        .iter()
        .filter(|h| h.name.starts_with("x-response-test"))
        .map(|h| (h.name.as_str(), h.value.len()))
        .collect()
}

fn value<'a>(r: &'a Response, name: &str) -> Option<&'a [u8]> {
    r.headers.iter().find(|h| h.name == name).map(|h| h.value.as_slice())
}

#[test]
fn multi_mode_gives_ten_headers_of_a_tenth_each() {
    let r = handle_response_headers_test(Some("size=1000&mode=multi"));
    assert_eq!(r.status, 200);
    let probes = probe_headers(&r);
    assert_eq!(probes.len(), 10);
    for (i, (name, len)) in probes.iter().enumerate() {
        assert_eq!(*name, format!("x-response-test-{}", i));
        assert_eq!(*len, 100);
    }
    assert_eq!(r.body, Body::Text("{\"ok\":true}".to_string()));
    assert_eq!(MULTI_HEADER_COUNT, 10);
}

#[test]
fn single_mode_gives_one_header_of_the_whole_size() {
    let r = handle_response_headers_test(Some("size=1000&mode=single"));
    assert_eq!(probe_headers(&r), vec![("x-response-test", 1000)]);
    assert!(value(&r, "x-response-test").unwrap().iter().all(|b| *b == b'x'));
}

#[test]
fn any_other_mode_is_single() {
    assert_eq!(
        probe_headers(&handle_response_headers_test(Some("size=30"))),
        vec![("x-response-test", 30)]
    );
    assert_eq!(
        probe_headers(&handle_response_headers_test(Some("size=30&mode=MULTI"))),
        vec![("x-response-test", 30)]
    );
}

#[test]
fn size_is_clamped_to_two_mebibytes() {
    assert_eq!(MAX_RESPONSE_HEADER_BYTES, 2 * 1024 * 1024);
    let r = handle_response_headers_test(Some("size=3000000&mode=single"));
    assert_eq!(probe_headers(&r), vec![("x-response-test", 2097152)]);
    let m = handle_response_headers_test(Some("size=3000000&mode=multi"));
    let probes = probe_headers(&m);
    assert_eq!(probes.len(), 10);
    assert!(probes.iter().all(|(_, len)| *len == 209715));
}

#[test]
fn size_reading() {
    assert_eq!(read_size(None), 0);
    assert_eq!(read_size(Some("1000".to_string())), 1000);
    assert_eq!(read_size(Some("+12".to_string())), 12);
    assert_eq!(read_size(Some("007".to_string())), 7);
    assert_eq!(read_size(Some("2097152".to_string())), 2097152);
    assert_eq!(read_size(Some("2097153".to_string())), 2097152);
    assert_eq!(read_size(Some("".to_string())), 0);
    assert_eq!(read_size(Some("-1".to_string())), 0);
    assert_eq!(read_size(Some(" 5".to_string())), 0);
    assert_eq!(read_size(Some("12a".to_string())), 0);
    assert_eq!(read_size(Some("99999999999999999999999999".to_string())), 0);
}

#[test]
fn no_size_gives_no_probe_header() {
    for q in [None, Some(""), Some("size=0"), Some("size=abc"), Some("mode=multi")] {
        let r = handle_response_headers_test(q);
        assert_eq!(r.status, 200);
        assert!(probe_headers(&r).is_empty());
        assert_eq!(r.headers.len(), 2);
        assert_eq!(value(&r, "Content-Type"), Some(&b"application/json"[..]));
        assert_eq!(value(&r, "Access-Control-Expose-Headers"), Some(&b"*"[..]));
    }
}

#[test]
fn multi_mode_below_ten_bytes_gives_no_probe_header() {
    let r = handle_response_headers_test(Some("size=9&mode=multi"));
    assert!(probe_headers(&r).is_empty());
    let s = handle_response_headers_test(Some("size=10&mode=multi"));
    assert_eq!(probe_headers(&s).len(), 10);
    assert!(probe_headers(&s).iter().all(|(_, len)| *len == 1));
}

#[test]
fn rejected_byte_is_reported_in_the_body() {
    let r = handle_response_headers_test(Some("byte=7f"));
    assert_eq!(r.status, 200);
    assert_eq!(
        r.body,
        Body::Text("{\"ok\":false,\"reason\":\"byte rejected by HTTP library\"}".to_string())
    );
    assert_eq!(value(&r, "x-charset-test"), None);
    assert_eq!(r.headers.len(), 1);
    assert_eq!(value(&r, "Content-Type"), Some(&b"application/json"[..]));
}

#[test]
fn accepted_byte_stands_between_two_probes() {
    let r = handle_response_headers_test(Some("byte=41"));
    assert_eq!(r.status, 200);
    assert_eq!(value(&r, "x-charset-test"), Some(&b"probeAprobe"[..]));
    assert_eq!(value(&r, "Access-Control-Expose-Headers"), Some(&b"x-charset-test"[..]));
    assert_eq!(r.body, Body::Text("{\"ok\":true,\"byte\":\"41\"}".to_string()));
}

#[test]
fn every_byte_is_accepted_exactly_where_the_header_format_admits_it() {
    for b in 0..=255u8 {
        let text: Vec<char> = format!("{:02x}", b).chars().collect();
        let r = byte_probe(&text, b);
        let admitted = (b >= 32 && b != 127) || b == 9;
        assert_eq!(value(&r, "x-charset-test").is_some(), admitted, "byte {:#x}", b);
        if admitted {
            let v = value(&r, "x-charset-test").unwrap();
            assert_eq!(v.len(), 11);
            assert_eq!(v[5], b);
        }
    }
}

#[test]
fn byte_text_is_trimmed_and_echoed() {
    let r = handle_response_headers_test(Some("byte=+4A+"));
    assert_eq!(value(&r, "x-charset-test"), Some(&b"probeJprobe"[..]));
    assert_eq!(r.body, Body::Text("{\"ok\":true,\"byte\":\"4A\"}".to_string()));
    let p = handle_response_headers_test(Some("byte=%2B41"));
    assert_eq!(p.body, Body::Text("{\"ok\":true,\"byte\":\"+41\"}".to_string()));
    let z = handle_response_headers_test(Some("byte=0041"));
    assert_eq!(value(&z, "x-charset-test"), Some(&b"probeAprobe"[..]));
}

#[test]
fn byte_that_is_no_number_falls_through_to_the_size_probe() {
    for q in ["byte=zz&size=20", "byte=100&size=20", "byte=&size=20", "byte=-1&size=20"] {
        let r = handle_response_headers_test(Some(q));
        assert_eq!(probe_headers(&r), vec![("x-response-test", 20)], "{}", q);
        assert_eq!(r.body, Body::Text("{\"ok\":true}".to_string()));
    }
}

#[test]
fn byte_probe_wins_over_size() {
    let r = handle_response_headers_test(Some("size=50&byte=20"));
    assert!(probe_headers(&r).is_empty());
    assert_eq!(value(&r, "x-charset-test"), Some(&b"probe probe"[..]));
}

#[test]
fn high_bytes_pass() {
    let r = handle_response_headers_test(Some("byte=ff"));
    assert_eq!(value(&r, "x-charset-test"), Some(&b"probe\xffprobe"[..]));
    let t = handle_response_headers_test(Some("byte=09"));
    assert_eq!(value(&t, "x-charset-test"), Some(&b"probe\tprobe"[..]));
    let n = handle_response_headers_test(Some("byte=00"));
    assert_eq!(value(&n, "x-charset-test"), None);
}

#[test]
fn probe_parts() {
    assert_eq!(make_probe_value(b'!'), b"probe!probe".to_vec());
    assert_eq!(make_filler(0), Vec::<u8>::new());
    assert_eq!(make_filler(3), b"xxx".to_vec());
    assert_eq!(probe_headers(&size_probe(0, true)), vec![]);
    assert_eq!(probe_headers(&size_probe(25, true)).len(), 10);
    assert_eq!(probe_headers(&size_probe(25, false)), vec![("x-response-test", 25)]);
}
