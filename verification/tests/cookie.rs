use sensillum::cookie::handle_delete_cookie;
use sensillum::response::Body;

#[test]
fn missing_name_is_a_client_error() {
    for q in [None, Some(""), Some("other=1"), Some("name="), Some("name")] {
        let r = handle_delete_cookie(q);
        assert_eq!(r.status, 400);
        assert_eq!(r.body, Body::Text("{\"error\":\"missing name parameter\"}".to_string()));
        assert_eq!(r.headers.len(), 1);
        assert_eq!(r.headers[0].name, "Content-Type");
        assert_eq!(r.headers[0].value, b"application/json".to_vec());
    }
}

#[test]
fn named_cookie_is_expired_at_the_root_path() {
    let r = handle_delete_cookie(Some("name=session"));
    assert_eq!(r.status, 200);
    assert_eq!(r.body, Body::Text("{\"ok\":true}".to_string()));
    assert_eq!(r.headers.len(), 2);
    assert_eq!(r.headers[0].name, "Content-Type");
    assert_eq!(r.headers[1].name, "Set-Cookie");
    assert_eq!(
        r.headers[1].value,
        b"session=; Max-Age=0; Path=/; Expires=Thu, 01 Jan 1970 00:00:00 GMT".to_vec()
    );
}

#[test]
fn last_name_wins() {
    let r = handle_delete_cookie(Some("name=a&name=b"));
    assert!(r.headers[1].value.starts_with(b"b=;"));
}

#[test]
fn name_is_decoded() {
    let r = handle_delete_cookie(Some("name=my%20cookie"));
    assert_eq!(r.status, 200);
    assert!(r.headers[1].value.starts_with(b"my cookie=;"));
}

#[test]
fn name_with_a_control_character_gives_the_stand_in() {
    let r = handle_delete_cookie(Some("name=a%0Ab"));
    assert_eq!(r.status, 500);
    assert!(r.headers.is_empty());
    assert_eq!(r.body, Body::Text("Internal Server Error".to_string()));
    assert_eq!(handle_delete_cookie(Some("name=%7f")).status, 500);
}

#[test]
fn name_with_a_high_character_is_sent_in_utf8() {
    let r = handle_delete_cookie(Some("name=%e9"));
    assert_eq!(r.status, 200);
    assert!(r.headers[1].value.starts_with(&[0xc3, 0xa9, b'=']));
}
