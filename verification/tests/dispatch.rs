use podbean::client::DEFAULT_RATE_LIMIT;
use podbean::request::Unreadable;
use podbean::{
    ApiCall, ApiRequest, Dispatch, HttpMethod, HttpResponse, Payload, Planned, PodbeanClient,
    PodbeanError, Readiness, TokenResponse,
};

fn pair(name: &str, value: &str) -> (String, String) {
    (name.to_string(), value.to_string())
}

fn client() -> PodbeanClient {
    PodbeanClient::new("my-id", "my-secret").expect("a client can always be made")
}

fn token(expires_in: u64, refresh_token: Option<&str>) -> TokenResponse {
    TokenResponse {
        access_token: "access-1".to_string(),
        token_type: "Bearer".to_string(),
        expires_in,
        scope: None,
        refresh_token: refresh_token.map(|s| s.to_string()),
    }
}

fn authenticated(expires_in: u64, refresh_token: Option<&str>, now: u64) -> PodbeanClient {
    let mut client = client();
    client
        .handle_token_response(Ok(token(expires_in, refresh_token)), now)
        .expect("a decoded token response is accepted");
    client
}

fn call(method: HttpMethod) -> ApiCall {
    ApiCall {
        method,
        endpoint: "/episodes".to_string(),
        params: Some(vec![pair("id", "e 1"), pair("title", "a&b")]),
    }
}

fn transport_error() -> reqwest::Error {
    reqwest::Client::new()
        .get("not a url")
        .build()
        .expect_err("a request without a valid URL cannot be built")
}

fn unreadable() -> Unreadable {
    let cause = transport_error();
    Unreadable { detail: cause.to_string(), cause }
}

fn json_error() -> serde_json::Error {
    serde_json::from_str::<serde_json::Value>("nonsense").expect_err("no JSON")
}

fn auth_reason(error: PodbeanError) -> String {
    match error {
        PodbeanError::AuthError(reason) => reason,
        other => panic!("expected an authentication failure, got {:?}", other),
    }
}

#[test]
fn new_client_is_not_authenticated() {
    let client = client();
    assert!(!client.is_authenticated());
    assert!(client.token().is_none());
    assert_eq!(client.limiter().capacity(), DEFAULT_RATE_LIMIT);
    assert_eq!(client.limiter().retained(), 0);
}

#[test]
fn client_with_a_rate_limit_of_zero_is_refused() {
    match PodbeanClient::with_rate_limit("id", "secret", 0) {
        Err(PodbeanError::OtherError(detail)) => {
            assert_eq!(detail, "Rate limit must allow at least one request")
        }
        other => panic!("expected a configuration error, got {:?}", other),
    }
    let client = PodbeanClient::with_rate_limit("id", "secret", 1).expect("one is enough");
    assert_eq!(client.limiter().capacity(), 1);
}

#[test]
fn call_without_credential_fails_at_once() {
    let mut client = client();
    let error = client.make_request(call(HttpMethod::Get), 0).expect_err("not authenticated");
    assert_eq!(auth_reason(error), "not authenticated");
    assert_eq!(client.limiter().retained(), 0);
    let error = client.resume_request(call(HttpMethod::Get), 0).expect_err("not authenticated");
    assert_eq!(auth_reason(error), "not authenticated");
    assert_eq!(auth_reason(client.ensure_token(0).expect_err("no token")), "not authenticated");
}

#[test]
fn authorize_builds_the_exchange_request() {
    let request = client().authorize("the-code", "https://app.example/cb");
    assert_eq!(
        request,
        ApiRequest {
            method: HttpMethod::Post,
            url: "https://api.podbean.com/v1/oauth/token".to_string(),
            headers: vec![],
            payload: Payload::Form(vec![
                pair("grant_type", "client_credentials"),
                pair("code", "the-code"),
                pair("redirect_uri", "https://app.example/cb"),
                pair("client_id", "my-id"),
                pair("client_secret", "my-secret"),
            ]),
        }
    );
}

#[test]
fn token_response_authenticates_the_client() {
    let client = authenticated(3600, Some("refresh-1"), 1_000);
    assert!(client.is_authenticated());
    let held = client.token().expect("the client holds the token");
    assert_eq!(held.access_token(), "access-1");
    assert_eq!(held.created_at(), 1_000);
    assert_eq!(client.ensure_token(1_000).expect("fresh"), Readiness::Fresh);
}

#[test]
fn undecodable_token_response_leaves_the_client_as_it_was() {
    let cause = json_error().to_string();
    let mut client = client();
    let error = client.handle_token_response(Err(json_error()), 0).expect_err("undecodable");
    assert_eq!(auth_reason(error), format!("invalid token response: {}", cause));
    assert!(!client.is_authenticated());

    let mut client = authenticated(3600, None, 0);
    assert!(client.handle_token_response(Err(json_error()), 50).is_err());
    assert_eq!(client.token().expect("still held").created_at(), 0);
}

#[test]
fn new_token_replaces_the_old_one() {
    let mut client = authenticated(3600, None, 0);
    let renewed = TokenResponse {
        access_token: "access-2".to_string(),
        token_type: "Bearer".to_string(),
        expires_in: 7200,
        scope: None,
        refresh_token: Some("refresh-2".to_string()),
    };
    client.handle_token_response(Ok(renewed), 9_000).expect("accepted");
    let held = client.token().expect("held");
    assert_eq!(held.access_token(), "access-2");
    assert_eq!(held.expires_in(), 7200);
    assert_eq!(held.refresh_token(), Some("refresh-2"));
    assert_eq!(held.created_at(), 9_000);
}

#[test]
fn get_sends_its_parameters_in_the_query() {
    let mut client = authenticated(3600, None, 0);
    let next = client.make_request(call(HttpMethod::Get), 10).expect("ready");
    assert_eq!(
        next,
        Dispatch::Send(Planned {
            wait_ms: 0,
            request: ApiRequest {
                method: HttpMethod::Get,
                url: "https://api.podbean.com/v1/episodes".to_string(),
                headers: vec![pair("Authorization", "Bearer access-1")],
                payload: Payload::Query(vec![pair("id", "e 1"), pair("title", "a&b")]),
            },
        })
    );
    assert_eq!(client.limiter().retained(), 1);
}

#[test]
fn other_methods_send_their_parameters_as_a_form() {
    for method in [HttpMethod::Post, HttpMethod::Put, HttpMethod::Delete] {
        let mut client = authenticated(3600, None, 0);
        match client.make_request(call(method), 10).expect("ready") {
            Dispatch::Send(plan) => {
                assert_eq!(plan.request.method, method);
                assert_eq!(
                    plan.request.payload,
                    Payload::Form(vec![pair("id", "e 1"), pair("title", "a&b")])
                );
            }
            other => panic!("expected a request to send, got {:?}", other),
        }
    }
}

#[test]
fn call_without_parameters_has_an_empty_payload() {
    let mut client = authenticated(3600, None, 0);
    let bare = ApiCall { method: HttpMethod::Get, endpoint: "/podcasts".to_string(), params: None };
    match client.make_request(bare, 10).expect("ready") {
        Dispatch::Send(plan) => {
            assert_eq!(plan.request.url, "https://api.podbean.com/v1/podcasts");
            assert_eq!(plan.request.payload, Payload::Empty);
        }
        other => panic!("expected a request to send, got {:?}", other),
    }
}

#[test]
fn expired_credential_is_renewed_first() {
    let mut client = authenticated(3600, Some("refresh-1"), 0);
    assert_eq!(client.ensure_token(3_301_000).expect("stale"), Readiness::Stale);
    let next = client.make_request(call(HttpMethod::Get), 3_301_000).expect("renewal");
    assert_eq!(
        next,
        Dispatch::Refresh {
            request: ApiRequest {
                method: HttpMethod::Post,
                url: "https://api.podbean.com/v1/oauth/token".to_string(),
                headers: vec![],
                payload: Payload::Form(vec![
                    pair("grant_type", "refresh_token"),
                    pair("refresh_token", "refresh-1"),
                    pair("client_id", "my-id"),
                    pair("client_secret", "my-secret"),
                ]),
            },
            call: call(HttpMethod::Get),
        }
    );
    // nothing was admitted, and the credential is still the stale one
    assert_eq!(client.limiter().retained(), 0);
    assert_eq!(client.token().expect("held").created_at(), 0);
}

#[test]
fn renewed_credential_resumes_the_call() {
    let mut client = authenticated(3600, Some("refresh-1"), 0);
    let now = 3_301_000;
    let kept = match client.make_request(call(HttpMethod::Post), now).expect("renewal") {
        Dispatch::Refresh { call, .. } => call,
        other => panic!("expected a renewal, got {:?}", other),
    };
    let renewed = TokenResponse {
        access_token: "access-2".to_string(),
        token_type: "Bearer".to_string(),
        expires_in: 3600,
        scope: None,
        refresh_token: Some("refresh-2".to_string()),
    };
    client.handle_token_response(Ok(renewed), now + 20).expect("accepted");
    let plan = client.resume_request(kept, now + 20).expect("authenticated");
    assert_eq!(plan.wait_ms, 0);
    assert_eq!(plan.request.headers, vec![pair("Authorization", "Bearer access-2")]);
    assert_eq!(client.limiter().retained(), 1);
}

#[test]
fn resumed_call_does_not_examine_the_credential_again() {
    // a renewed credential that is expired from the start is used all the same
    let mut client = authenticated(10, Some("refresh-1"), 0);
    assert!(client.token().expect("held").is_expired(0));
    let plan = client.resume_request(call(HttpMethod::Get), 0).expect("authenticated");
    assert_eq!(plan.request.headers, vec![pair("Authorization", "Bearer access-1")]);
}

#[test]
fn expired_credential_without_refresh_secret_fails_and_stays() {
    let mut client = authenticated(3600, None, 0);
    let now = 3_301_000;
    let error = client.make_request(call(HttpMethod::Get), now).expect_err("cannot renew");
    assert_eq!(auth_reason(error), "no refresh token");
    // the credential is not cleared: it is still held and still expired
    let held = client.token().expect("still held");
    assert_eq!(held.access_token(), "access-1");
    assert!(held.is_expired(now));
    assert!(client.is_authenticated());
    assert_eq!(client.limiter().retained(), 0);
    let again = client.make_request(call(HttpMethod::Get), now + 1).expect_err("cannot renew");
    assert_eq!(auth_reason(again), "no refresh token");
    assert_eq!(auth_reason(client.ensure_token(now).expect_err("expired")), "no refresh token");
    assert_eq!(auth_reason(client.refresh_token().expect_err("no secret")), "no refresh token");
}

#[test]
fn refresh_without_credential_fails() {
    assert_eq!(auth_reason(client().refresh_token().expect_err("no token")), "no refresh token");
}

#[test]
fn reset_forgets_the_credential() {
    let mut client = authenticated(3600, Some("refresh-1"), 0);
    client.reset();
    assert!(!client.is_authenticated());
    assert_eq!(
        auth_reason(client.make_request(call(HttpMethod::Get), 0).expect_err("reset")),
        "not authenticated"
    );
}

#[test]
fn third_call_waits_for_the_rate_window() {
    let mut client = PodbeanClient::with_rate_limit("id", "secret", 2).expect("valid");
    client.handle_token_response(Ok(token(3600, None)), 0).expect("accepted");
    let mut waits = Vec::new();
    for now in [100u64, 101, 107] {
        match client.make_request(call(HttpMethod::Get), now).expect("ready") {
            Dispatch::Send(plan) => waits.push(plan.wait_ms),
            other => panic!("expected a request to send, got {:?}", other),
        }
    }
    // the third call comes 7 ms after the first
    assert_eq!(waits, vec![0, 0, 60_000 - 7]);
    assert_eq!(client.limiter().retained(), 2);
}

#[test]
fn success_gives_the_body() {
    let response = HttpResponse { status: 200, retry_after: None, body: Ok("{}".as_bytes().to_vec()) };
    assert_eq!(PodbeanClient::handle_response(Ok(response)).expect("success"), b"{}");
    let response = HttpResponse { status: 299, retry_after: None, body: Ok("x".as_bytes().to_vec()) };
    assert_eq!(PodbeanClient::handle_response(Ok(response)).expect("success"), b"x");
}

#[test]
fn success_body_is_handed_on_byte_for_byte() {
    let bytes = vec![0xffu8, 0x00, b'{', 0xc3];
    let response = HttpResponse { status: 200, retry_after: None, body: Ok(bytes.clone()) };
    assert_eq!(PodbeanClient::handle_response(Ok(response)).expect("success"), bytes);
}

#[test]
fn statuses_outside_the_two_hundreds_are_failures() {
    for status in [199u16, 300, 404, 500] {
        let response = HttpResponse { status, retry_after: None, body: Ok("no".as_bytes().to_vec()) };
        match PodbeanClient::handle_response(Ok(response)) {
            Err(PodbeanError::ApiError { code, message }) => {
                assert_eq!(code, status);
                assert_eq!(message, "no");
            }
            other => panic!("expected an API error, got {:?}", other),
        }
    }
}

#[test]
fn rate_limited_response_is_surfaced() {
    let response =
        HttpResponse { status: 429, retry_after: Some("17".to_string()), body: Ok("".as_bytes().to_vec()) };
    assert!(matches!(
        PodbeanClient::handle_response(Ok(response)),
        Err(PodbeanError::RateLimitError { retry_after: Some(17) })
    ));
}

#[test]
fn transport_failure_is_a_network_error() {
    assert!(matches!(
        PodbeanClient::handle_response(Err(transport_error())),
        Err(PodbeanError::NetworkError(_))
    ));
    let response = HttpResponse { status: 200, retry_after: None, body: Err(unreadable()) };
    assert!(matches!(
        PodbeanClient::handle_response(Ok(response)),
        Err(PodbeanError::NetworkError(_))
    ));
}

#[test]
fn token_answer_with_success_gives_the_body() {
    let response = HttpResponse { status: 200, retry_after: None, body: Ok("{..}".as_bytes().to_vec()) };
    assert_eq!(PodbeanClient::token_response_body(Ok(response)).expect("success"), b"{..}");
}

#[test]
fn token_answer_with_failure_status_is_an_authentication_failure() {
    let body = "{\"error\":\"invalid_grant\",\"error_description\":\"bad code\"}";
    let response = HttpResponse { status: 400, retry_after: None, body: Ok(body.as_bytes().to_vec()) };
    let error = PodbeanClient::token_response_body(Ok(response)).expect_err("rejected");
    assert_eq!(auth_reason(error), "API error 400: invalid_grant: bad code");

    let response =
        HttpResponse { status: 429, retry_after: Some("5".to_string()), body: Ok("".as_bytes().to_vec()) };
    let error = PodbeanClient::token_response_body(Ok(response)).expect_err("rejected");
    assert_eq!(auth_reason(error), "Rate limit exceeded. Retry after 5 seconds");
}

#[test]
fn token_answer_that_did_not_arrive_is_a_network_error() {
    assert!(matches!(
        PodbeanClient::token_response_body(Err(transport_error())),
        Err(PodbeanError::NetworkError(_))
    ));
    let response = HttpResponse { status: 200, retry_after: None, body: Err(unreadable()) };
    assert!(matches!(
        PodbeanClient::token_response_body(Ok(response)),
        Err(PodbeanError::NetworkError(_))
    ));
}

#[test]
fn auth_failure_carries_the_message_of_its_cause() {
    let cause = PodbeanError::ApiError { code: 401, message: "denied".to_string() };
    assert_eq!(auth_reason(PodbeanClient::auth_failure(&cause)), "API error 401: denied");
}
