use bytes::Bytes;
use check_http::body::{charset_of, process_body, Body};
use reqwest::header::{HeaderMap, HeaderValue, CONTENT_LENGTH, CONTENT_TYPE};

fn headers_with_content_type(value: &'static str) -> HeaderMap {
    let mut headers = HeaderMap::new();
    headers.insert(CONTENT_TYPE, HeaderValue::from_static(value));
    headers
}

fn decoded(bytes: &'static [u8], headers: &HeaderMap) -> Body {
    match process_body(Ok(Bytes::from_static(bytes)), headers) {
        Ok(body) => body,
        Err(_) => panic!("bytes that were read must give a body"),
    }
}

fn transport_error() -> reqwest::Error {
    reqwest::Client::new().get("no address").build().unwrap_err()
}

#[test]
fn utf8_body_with_declared_charset() {
    let headers = headers_with_content_type("text/plain; charset=utf-8");
    let body = decoded(b"caf\xC3\xA9", &headers);
    assert_eq!(body, Body { text: String::from("café"), length: 5 });
}

#[test]
fn body_without_content_type_is_utf8() {
    let body = decoded(b"caf\xC3\xA9", &HeaderMap::new());
    assert_eq!(body.text, "café");
    assert_eq!(body.length, 5);
}

#[test]
fn latin1_body_is_decoded_as_declared() {
    let headers = headers_with_content_type("text/html; charset=iso-8859-1");
    let body = decoded(b"caf\xE9", &headers);
    assert_eq!(body.text, "café");
    assert_eq!(body.length, 4);
    assert_eq!(body.text.len(), 5);
}

#[test]
fn utf16_body_length_counts_bytes() {
    let headers = headers_with_content_type("text/plain; charset=utf-16le");
    let body = decoded(b"h\x00i\x00", &headers);
    assert_eq!(body.text, "hi");
    assert_eq!(body.length, 4);
}

#[test]
fn unknown_charset_falls_back_to_utf8() {
    let headers = headers_with_content_type("text/plain; charset=no-such-charset");
    let body = decoded(b"caf\xC3\xA9", &headers);
    assert_eq!(body.text, "café");
    assert_eq!(body.length, 5);
}

#[test]
fn unparseable_content_type_falls_back_to_utf8() {
    let headers = headers_with_content_type("not a media type");
    let body = decoded(b"caf\xC3\xA9", &headers);
    assert_eq!(body.text, "café");
}

#[test]
fn content_type_without_charset_falls_back_to_utf8() {
    let headers = headers_with_content_type("text/plain");
    let body = decoded(b"caf\xC3\xA9", &headers);
    assert_eq!(body.text, "café");
}

#[test]
fn content_type_that_is_not_text_falls_back_to_utf8() {
    let mut headers = HeaderMap::new();
    headers.insert(CONTENT_TYPE, HeaderValue::from_bytes(b"text/plain; charset=iso-8859-1; x=\xFF").unwrap());
    let body = decoded(b"caf\xC3\xA9", &headers);
    assert_eq!(body.text, "café");
}

#[test]
fn byte_order_mark_does_not_override_the_declared_charset() {
    let headers = headers_with_content_type("text/plain; charset=iso-8859-1");
    let body = decoded(b"\xEF\xBB\xBFa", &headers);
    assert_eq!(body.text, "\u{EF}\u{BB}\u{BF}a");
    assert_eq!(body.text, "ï»¿a");
    assert_eq!(body.length, 4);
}

#[test]
fn utf16_byte_order_mark_does_not_override_utf8() {
    let headers = headers_with_content_type("text/plain; charset=utf-8");
    let body = decoded(b"\xFF\xFEa\x00", &headers);
    assert_eq!(body.text, "\u{FFFD}\u{FFFD}a\u{0}");
    assert_eq!(body.length, 4);
}

#[test]
fn byte_order_mark_is_decoded_like_any_other_bytes() {
    let body = decoded(b"\xEF\xBB\xBFhi", &HeaderMap::new());
    assert_eq!(body.text, "\u{FEFF}hi");
    assert_eq!(body.length, 5);

    let headers = headers_with_content_type("text/plain; charset=utf-16le");
    let body = decoded(b"\xFF\xFEh\x00i\x00", &headers);
    assert_eq!(body.text, "\u{FEFF}hi");
    assert_eq!(body.length, 6);
}

#[test]
fn malformed_utf8_is_replaced_and_length_kept() {
    let body = decoded(b"a\xFFb", &HeaderMap::new());
    assert_eq!(body.text, "a\u{FFFD}b");
    assert_eq!(body.length, 3);
}

#[test]
fn empty_body_has_length_zero() {
    let body = decoded(b"", &HeaderMap::new());
    assert_eq!(body, Body { text: String::new(), length: 0 });
}

#[test]
fn length_ignores_the_content_length_header() {
    let mut headers = headers_with_content_type("text/plain; charset=utf-8");
    headers.insert(CONTENT_LENGTH, HeaderValue::from_static("1000"));
    let body = decoded(b"hello", &headers);
    assert_eq!(body.length, 5);
}

#[test]
fn first_content_type_value_decides() {
    let mut headers = HeaderMap::new();
    headers.append(CONTENT_TYPE, HeaderValue::from_static("text/plain; charset=iso-8859-1"));
    headers.append(CONTENT_TYPE, HeaderValue::from_static("text/plain; charset=utf-8"));
    let body = decoded(b"caf\xE9", &headers);
    assert_eq!(body.text, "café");
}

#[test]
fn charset_label_is_case_insensitive() {
    let headers = headers_with_content_type("Text/Plain; Charset=ISO-8859-1");
    assert_eq!(charset_of(&headers), Some(String::from("iso-8859-1")));
    let body = decoded(b"caf\xE9", &headers);
    assert_eq!(body.text, "café");
}

#[test]
fn charset_of_finds_the_declared_label() {
    assert_eq!(
        charset_of(&headers_with_content_type("text/plain; charset=utf-8")),
        Some(String::from("utf-8"))
    );
    assert_eq!(
        charset_of(&headers_with_content_type("text/html; boundary=x; charset=\"koi8-r\"")),
        Some(String::from("koi8-r"))
    );
    assert_eq!(charset_of(&headers_with_content_type("text/plain")), None);
    assert_eq!(charset_of(&headers_with_content_type("nonsense")), None);
    assert_eq!(charset_of(&HeaderMap::new()), None);
}

#[test]
fn unread_body_is_an_error() {
    let headers = headers_with_content_type("text/plain; charset=utf-8");
    match process_body(Err(transport_error()), &headers) {
        Ok(_) => panic!("a body that was not read cannot be decoded"),
        Err(failure) => assert!(failure.source.is_builder()),
    }
}
