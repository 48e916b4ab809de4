use bytes::Bytes;
use check_http::body::Body;
use check_http::headers::MAX_HEADERS;
use check_http::request::{can_prepare, prepare_request, RequestConfig};
use check_http::response::{on_body, on_response, on_sent, NextStep, ResponseHead};
use reqwest::header::{HeaderMap, HeaderName, HeaderValue, AUTHORIZATION, CONTENT_TYPE};
use reqwest::{Method, StatusCode, Url, Version};

fn config() -> RequestConfig {
    RequestConfig {
        url: Url::parse("http://example.com/path").unwrap(),
        method: Method::GET,
        version: None,
        headers: Vec::new(),
        body: None,
        content_type: None,
        auth_user: None,
        auth_pw: None,
        without_body: false,
        token_auth: None,
    }
}

fn header(name: &'static str, value: &'static str) -> (HeaderName, HeaderValue) {
    (HeaderName::from_static(name), HeaderValue::from_static(value))
}

fn values(headers: &HeaderMap, name: &str) -> Vec<String> {
    headers.get_all(name).iter().map(|value| value.to_str().unwrap().to_string()).collect()
}

fn head(content_type: &'static str) -> ResponseHead {
    let mut headers = HeaderMap::new();
    headers.insert(CONTENT_TYPE, HeaderValue::from_static(content_type));
    ResponseHead {
        version: Version::HTTP_11,
        status: StatusCode::OK,
        headers,
        final_url: Url::parse("http://example.com/final").unwrap(),
        tls_info: None,
    }
}

#[test]
fn request_carries_method_url_version_and_body() {
    let mut cfg = config();
    cfg.method = Method::POST;
    cfg.version = Some(Version::HTTP_2);
    cfg.body = Some(String::from("payload"));
    let request = prepare_request(cfg);
    assert_eq!(request.method, Method::POST);
    assert_eq!(request.url.as_str(), "http://example.com/path");
    assert_eq!(request.version, Some(Version::HTTP_2));
    assert_eq!(request.body, Some(String::from("payload")));
    assert!(request.basic_auth.is_none());
    assert!(request.headers.is_empty());
}

#[test]
fn request_without_options_has_none() {
    let request = prepare_request(config());
    assert_eq!(request.method, Method::GET);
    assert_eq!(request.version, None);
    assert_eq!(request.body, None);
}

#[test]
fn user_headers_keep_order_and_duplicates() {
    let mut cfg = config();
    cfg.headers = vec![header("x-a", "1"), header("x-b", "2"), header("x-a", "3")];
    let request = prepare_request(cfg);
    assert_eq!(values(&request.headers, "x-a"), vec!["1", "3"]);
    assert_eq!(values(&request.headers, "x-b"), vec!["2"]);
    assert_eq!(request.headers.len(), 3);
}

#[test]
fn token_header_replaces_user_header_of_its_name() {
    let mut cfg = config();
    cfg.headers = vec![header("authorization", "old"), header("authorization", "older"), header("x-a", "1")];
    cfg.token_auth = Some((AUTHORIZATION, HeaderValue::from_static("Bearer token")));
    let request = prepare_request(cfg);
    assert_eq!(values(&request.headers, "authorization"), vec!["Bearer token"]);
    assert_eq!(values(&request.headers, "x-a"), vec!["1"]);
}

#[test]
fn content_type_replaces_user_header() {
    let mut cfg = config();
    cfg.headers = vec![header("content-type", "text/plain"), header("x-a", "1")];
    cfg.content_type = Some(HeaderValue::from_static("application/json"));
    let request = prepare_request(cfg);
    assert_eq!(values(&request.headers, "content-type"), vec!["application/json"]);
    assert_eq!(values(&request.headers, "x-a"), vec!["1"]);
}

#[test]
fn content_type_wins_over_token_header_of_that_name() {
    let mut cfg = config();
    cfg.token_auth = Some(header("content-type", "from-token"));
    cfg.content_type = Some(HeaderValue::from_static("application/json"));
    let request = prepare_request(cfg);
    assert_eq!(values(&request.headers, "content-type"), vec!["application/json"]);
}

#[test]
fn token_and_content_type_are_added_where_absent() {
    let mut cfg = config();
    cfg.headers = vec![header("x-a", "1")];
    cfg.token_auth = Some(header("x-token", "secret"));
    cfg.content_type = Some(HeaderValue::from_static("text/xml"));
    let request = prepare_request(cfg);
    assert_eq!(values(&request.headers, "x-a"), vec!["1"]);
    assert_eq!(values(&request.headers, "x-token"), vec!["secret"]);
    assert_eq!(values(&request.headers, "content-type"), vec!["text/xml"]);
    assert_eq!(request.headers.len(), 3);
}

fn with_headers(count: usize) -> RequestConfig {
    let mut cfg = config();
    for i in 0..count {
        let name = HeaderName::from_bytes(format!("x-header-{}", i).as_bytes()).unwrap();
        cfg.headers.push((name, HeaderValue::from_static("v")));
    }
    cfg
}

#[test]
fn request_takes_as_many_headers_as_the_limit_allows() {
    let count = MAX_HEADERS - 2;
    let mut cfg = with_headers(count);
    cfg.token_auth = Some(header("x-token", "secret"));
    cfg.content_type = Some(HeaderValue::from_static("text/xml"));
    assert!(can_prepare(&cfg));
    let request = prepare_request(cfg);
    assert_eq!(request.headers.len(), MAX_HEADERS);
    assert_eq!(request.headers.keys_len(), MAX_HEADERS);
    assert_eq!(values(&request.headers, "x-header-0"), vec!["v"]);
    assert_eq!(values(&request.headers, &format!("x-header-{}", count - 1)), vec!["v"]);
    assert_eq!(values(&request.headers, "content-type"), vec!["text/xml"]);
}

#[test]
fn request_without_overrides_takes_two_headers_more() {
    let cfg = with_headers(MAX_HEADERS);
    assert!(can_prepare(&cfg));
    let request = prepare_request(cfg);
    assert_eq!(request.headers.len(), MAX_HEADERS);
    assert_eq!(request.headers.keys_len(), MAX_HEADERS);
}

#[test]
fn can_prepare_counts_headers_and_overrides() {
    assert_eq!(MAX_HEADERS, 6554);
    assert!(can_prepare(&config()));
    assert!(can_prepare(&with_headers(MAX_HEADERS)));
    assert!(!can_prepare(&with_headers(MAX_HEADERS + 1)));

    let mut cfg = with_headers(MAX_HEADERS);
    cfg.token_auth = Some(header("x-token", "secret"));
    assert!(!can_prepare(&cfg));
    let mut cfg = with_headers(MAX_HEADERS - 1);
    cfg.token_auth = Some(header("x-token", "secret"));
    assert!(can_prepare(&cfg));

    let mut cfg = with_headers(MAX_HEADERS);
    cfg.content_type = Some(HeaderValue::from_static("text/xml"));
    assert!(!can_prepare(&cfg));
    let mut cfg = with_headers(MAX_HEADERS - 1);
    cfg.content_type = Some(HeaderValue::from_static("text/xml"));
    assert!(can_prepare(&cfg));

    let mut cfg = with_headers(MAX_HEADERS - 1);
    cfg.token_auth = Some(header("x-token", "secret"));
    cfg.content_type = Some(HeaderValue::from_static("text/xml"));
    assert!(!can_prepare(&cfg));
}

#[test]
fn header_names_are_held_in_lower_case() {
    let mut cfg = config();
    cfg.headers = vec![
        (HeaderName::from_bytes(b"X-Mixed").unwrap(), HeaderValue::from_static("1")),
        (HeaderName::from_bytes(b"x-mixed").unwrap(), HeaderValue::from_static("2")),
    ];
    cfg.token_auth = Some((HeaderName::from_bytes(b"X-MIXED").unwrap(), HeaderValue::from_static("3")));
    let request = prepare_request(cfg);
    assert_eq!(values(&request.headers, "x-mixed"), vec!["3"]);
    assert_eq!(request.headers.len(), 1);
}

#[test]
fn basic_auth_needs_a_user() {
    let mut cfg = config();
    cfg.auth_pw = Some(String::from("password"));
    assert!(prepare_request(cfg).basic_auth.is_none());

    let mut cfg = config();
    cfg.auth_user = Some(String::from("user"));
    cfg.auth_pw = Some(String::from("password"));
    let auth = prepare_request(cfg).basic_auth.unwrap();
    assert_eq!(auth.user, "user");
    assert_eq!(auth.password, Some(String::from("password")));

    let mut cfg = config();
    cfg.auth_user = Some(String::from("user"));
    let auth = prepare_request(cfg).basic_auth.unwrap();
    assert_eq!(auth.user, "user");
    assert_eq!(auth.password, None);
}

#[test]
fn response_without_body_is_complete() {
    match on_response(head("text/plain"), true) {
        NextStep::Finish(response) => {
            assert!(response.body.is_none());
            assert_eq!(response.status, StatusCode::OK);
            assert_eq!(response.version, Version::HTTP_11);
            assert_eq!(response.final_url.as_str(), "http://example.com/final");
            assert_eq!(response.headers.len(), 1);
            assert!(response.tls_info.is_none());
        }
        NextStep::ReadBody(_) => panic!("the body was not asked for"),
    }
}

#[test]
fn response_with_body_asks_for_it() {
    match on_response(head("text/plain"), false) {
        NextStep::ReadBody(head) => {
            assert_eq!(head.status, StatusCode::OK);
            assert_eq!(head.headers.len(), 1);
        }
        NextStep::Finish(_) => panic!("the body was asked for"),
    }
}

#[test]
fn failure_to_send_fails_the_exchange() {
    let failure = reqwest::Client::new().get("no address").build().unwrap_err();
    let text = failure.to_string();
    match on_sent(Err(failure), false) {
        Err(error) => {
            assert!(error.is_builder());
            assert_eq!(error.to_string(), text);
        }
        Ok(_) => panic!("nothing arrived"),
    }
    let failure = reqwest::Client::new().get("no address").build().unwrap_err();
    assert!(on_sent(Err(failure), true).is_err());
}

#[test]
fn response_that_arrived_goes_on() {
    match on_sent(Ok(head("text/plain")), true) {
        Ok(NextStep::Finish(response)) => {
            assert!(response.body.is_none());
            assert_eq!(response.status, StatusCode::OK);
            assert_eq!(response.final_url.as_str(), "http://example.com/final");
        }
        _ => panic!("the body was not asked for"),
    }
    match on_sent(Ok(head("text/plain")), false) {
        Ok(NextStep::ReadBody(head)) => assert_eq!(head.headers.len(), 1),
        _ => panic!("the body was asked for"),
    }
}

#[test]
fn body_that_was_read_is_decoded() {
    let response = on_body(head("text/plain; charset=iso-8859-1"), Ok(Bytes::from_static(b"caf\xE9")));
    assert_eq!(response.status, StatusCode::OK);
    assert_eq!(response.final_url.as_str(), "http://example.com/final");
    match response.body {
        Some(Ok(body)) => assert_eq!(body, Body { text: String::from("café"), length: 4 }),
        _ => panic!("the body was read"),
    }
}

#[test]
fn body_that_was_not_read_does_not_fail_the_exchange() {
    let failure = reqwest::Client::new().get("no address").build().unwrap_err();
    let response = on_body(head("text/plain"), Err(failure));
    assert_eq!(response.status, StatusCode::OK);
    match response.body {
        Some(Err(error)) => assert!(error.source.is_builder()),
        _ => panic!("the failure must stand in place of the body"),
    }
}
