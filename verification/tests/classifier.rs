use podbean::classify::{api_error, rate_limit_error, unreadable_body_error};
use podbean::request::Unreadable;
use podbean::{handle_error_response, HttpResponse, PodbeanError};

fn response(status: u16, retry_after: Option<&str>, body: &str) -> HttpResponse {
    HttpResponse {
        status,
        retry_after: retry_after.map(|s| s.to_string()),
        body: Ok(body.as_bytes().to_vec()),
    }
}

fn transport_error() -> reqwest::Error {
    reqwest::Client::new()
        .get("not a url")
        .build()
        .expect_err("a request without a valid URL cannot be built")
}

fn unreadable() -> Unreadable {
    let cause = transport_error();
    Unreadable { detail: cause.to_string(), cause }
}

fn api(error: PodbeanError) -> (u16, String) {
    match error {
        PodbeanError::ApiError { code, message } => (code, message),
        other => panic!("expected an API error, got {:?}", other),
    }
}

#[test]
fn too_many_requests_with_retry_after() {
    let body = "{\"error\":\"slow_down\",\"error_description\":\"too fast\"}";
    match handle_error_response(response(429, Some("17"), body)) {
        PodbeanError::RateLimitError { retry_after } => assert_eq!(retry_after, Some(17)),
        other => panic!("expected a rate limit, got {:?}", other),
    }
    match handle_error_response(response(429, Some("17"), "oops")) {
        PodbeanError::RateLimitError { retry_after } => assert_eq!(retry_after, Some(17)),
        other => panic!("expected a rate limit, got {:?}", other),
    }
}

#[test]
fn too_many_requests_without_retry_after() {
    match handle_error_response(response(429, None, "")) {
        PodbeanError::RateLimitError { retry_after } => assert_eq!(retry_after, None),
        other => panic!("expected a rate limit, got {:?}", other),
    }
}

#[test]
fn too_many_requests_with_a_date_in_retry_after() {
    match handle_error_response(response(429, Some("Wed, 21 Oct 2015 07:28:00 GMT"), "")) {
        PodbeanError::RateLimitError { retry_after } => assert_eq!(retry_after, None),
        other => panic!("expected a rate limit, got {:?}", other),
    }
}

#[test]
fn too_many_requests_with_unreadable_body() {
    let failed = HttpResponse {
        status: 429,
        retry_after: Some("3".to_string()),
        body: Err(unreadable()),
    };
    match handle_error_response(failed) {
        PodbeanError::RateLimitError { retry_after } => assert_eq!(retry_after, Some(3)),
        other => panic!("expected a rate limit, got {:?}", other),
    }
}

#[test]
fn api_error_from_json_body() {
    let body = "{\"error\":\"invalid_request\",\"error_description\":\"bad redirect\"}";
    let (code, message) = api(handle_error_response(response(400, None, body)));
    assert_eq!(code, 400);
    assert_eq!(message, "invalid_request: bad redirect");
}

#[test]
fn api_error_from_plain_body() {
    let (code, message) = api(handle_error_response(response(500, None, "oops")));
    assert_eq!(code, 500);
    assert_eq!(message, "oops");
}

#[test]
fn api_error_from_json_body_with_one_field_only() {
    let body = "{\"error\":\"invalid_request\"}";
    let (code, message) = api(handle_error_response(response(401, None, body)));
    assert_eq!(code, 401);
    assert_eq!(message, body);
}

#[test]
fn api_error_from_json_body_whose_fields_are_no_strings() {
    let body = "{\"error\":7,\"error_description\":\"seven\"}";
    let (code, message) = api(handle_error_response(response(403, None, body)));
    assert_eq!(code, 403);
    assert_eq!(message, body);
}

#[test]
fn api_error_from_json_body_that_is_no_object() {
    let body = "[\"error\",\"error_description\"]";
    let (_, message) = api(handle_error_response(response(502, None, body)));
    assert_eq!(message, body);
}

#[test]
fn api_error_with_escapes_in_the_fields() {
    let body = "{\"error_description\":\"line\\nbreak \\u00e9\",\"extra\":null,\"error\":\"e\\\"q\"}";
    let (_, message) = api(handle_error_response(response(400, None, body)));
    assert_eq!(message, "e\"q: line\nbreak \u{e9}");
}

#[test]
fn retry_after_is_ignored_on_other_statuses() {
    let (code, message) = api(handle_error_response(response(503, Some("17"), "busy")));
    assert_eq!(code, 503);
    assert_eq!(message, "busy");
}

#[test]
fn unreadable_body_is_unclassified() {
    let cause = transport_error().to_string();
    let failed = HttpResponse { status: 500, retry_after: None, body: Err(unreadable()) };
    match handle_error_response(failed) {
        PodbeanError::OtherError(detail) => {
            assert_eq!(detail, format!("Failed to read error response: {}", cause))
        }
        other => panic!("expected an unclassified error, got {:?}", other),
    }
}

#[test]
fn unreadable_body_says_what_the_transport_said() {
    let failed = HttpResponse {
        status: 502,
        retry_after: None,
        body: Err(Unreadable { cause: transport_error(), detail: "connection reset".to_string() }),
    };
    match handle_error_response(failed) {
        PodbeanError::OtherError(detail) => {
            assert_eq!(detail, "Failed to read error response: connection reset")
        }
        other => panic!("expected an unclassified error, got {:?}", other),
    }
}

#[test]
fn body_that_is_not_utf8_is_read_with_replacements() {
    let failed =
        HttpResponse { status: 500, retry_after: None, body: Ok(vec![b'o', 0xff, b'p', b's']) };
    let (code, message) = api(handle_error_response(failed));
    assert_eq!(code, 500);
    assert_eq!(message, "o\u{fffd}ps");
}

#[test]
fn body_in_utf8_is_read_as_it_is() {
    let body = "{\"error\":\"d\u{e9}j\u{e0}\",\"error_description\":\"\u{4e16}\u{754c}\"}";
    let (_, message) = api(handle_error_response(response(400, None, body)));
    assert_eq!(message, "d\u{e9}j\u{e0}: \u{4e16}\u{754c}");
    let (_, message) = api(handle_error_response(response(400, None, "gr\u{fc}\u{df}e")));
    assert_eq!(message, "gr\u{fc}\u{df}e");
}

#[test]
fn classification_is_deterministic() {
    let body = "{\"error\":\"invalid_request\",\"error_description\":\"bad redirect\"}";
    let first = api(handle_error_response(response(400, None, body)));
    let second = api(handle_error_response(response(400, None, body)));
    assert_eq!(first, second);
}

#[test]
fn api_error_from_parts() {
    let both = api_error(400, "raw".to_string(), Some("a".to_string()), Some("b".to_string()));
    assert_eq!(api(both), (400, "a: b".to_string()));
    let one = api_error(400, "raw".to_string(), Some("a".to_string()), None);
    assert_eq!(api(one), (400, "raw".to_string()));
    let other = api_error(400, "raw".to_string(), None, Some("b".to_string()));
    assert_eq!(api(other), (400, "raw".to_string()));
    let none = api_error(599, "raw".to_string(), None, None);
    assert_eq!(api(none), (599, "raw".to_string()));
}

#[test]
fn rate_limit_from_header() {
    assert!(matches!(
        rate_limit_error(Some("120")),
        PodbeanError::RateLimitError { retry_after: Some(120) }
    ));
    assert!(matches!(
        rate_limit_error(Some("-1")),
        PodbeanError::RateLimitError { retry_after: None }
    ));
    assert!(matches!(rate_limit_error(None), PodbeanError::RateLimitError { retry_after: None }));
}

#[test]
fn unreadable_body_from_cause() {
    match unreadable_body_error("connection reset") {
        PodbeanError::OtherError(detail) => {
            assert_eq!(detail, "Failed to read error response: connection reset")
        }
        other => panic!("expected an unclassified error, got {:?}", other),
    }
}
