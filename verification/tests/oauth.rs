use podbean::oauth::{
    authorization_params, build_authorization_url, input_fits, MAX_URL_INPUT_BYTES,
};
use podbean::{PodbeanClient, PodbeanError};

fn pair(name: &str, value: &str) -> (String, String) {
    (name.to_string(), value.to_string())
}

#[test]
fn authorization_url_without_state() {
    let client = PodbeanClient::new("my-id", "my-secret").expect("a client can always be made");
    let url = client.get_authorization_url("https://app.example/cb", None).expect("valid");
    assert_eq!(
        url,
        "https://api.podbean.com/v1/dialog/oauth?response_type=code&client_id=my-id\
         &redirect_uri=https%3A%2F%2Fapp.example%2Fcb"
    );
}

#[test]
fn authorization_url_with_state() {
    let client = PodbeanClient::new("id 1", "my-secret").expect("a client can always be made");
    let url = client
        .get_authorization_url("https://app.example/cb?x=1&y=2", Some("a b+c/\u{e9}"))
        .expect("valid");
    assert_eq!(
        url,
        "https://api.podbean.com/v1/dialog/oauth?response_type=code&client_id=id+1\
         &redirect_uri=https%3A%2F%2Fapp.example%2Fcb%3Fx%3D1%26y%3D2&state=a+b%2Bc%2F%C3%A9"
    );
}

#[test]
fn authorization_url_is_the_same_for_the_same_inputs() {
    let client = PodbeanClient::new("my-id", "my-secret").expect("a client can always be made");
    let first = client.get_authorization_url("https://app.example/cb", Some("s1")).expect("valid");
    let second = client.get_authorization_url("https://app.example/cb", Some("s1")).expect("valid");
    assert_eq!(first.as_bytes(), second.as_bytes());
    let other = PodbeanClient::new("my-id", "other-secret").expect("a client can always be made");
    let third = other.get_authorization_url("https://app.example/cb", Some("s1")).expect("valid");
    assert_eq!(first, third);
}

#[test]
fn authorization_url_does_not_hold_the_secret() {
    let client = PodbeanClient::new("my-id", "my-secret").expect("a client can always be made");
    let url = client.get_authorization_url("https://app.example/cb", Some("s")).expect("valid");
    assert!(!url.contains("my-secret"));
}

#[test]
fn malformed_base_url_is_refused() {
    match build_authorization_url("api.podbean.com/v1", "id", "https://app.example/cb", None) {
        Err(PodbeanError::UrlParseError(cause)) => {
            assert_eq!(cause, url::ParseError::RelativeUrlWithoutBase)
        }
        other => panic!("expected a URL parse error, got {:?}", other),
    }
    assert!(matches!(
        build_authorization_url("https://:443", "id", "cb", None),
        Err(PodbeanError::UrlParseError(url::ParseError::EmptyHost))
    ));
}

#[test]
fn authorization_url_below_another_base() {
    let url = build_authorization_url("http://localhost:8080/api", "id", "cb", Some("s"))
        .expect("valid");
    assert_eq!(
        url,
        "http://localhost:8080/api/dialog/oauth?response_type=code&client_id=id&redirect_uri=cb&state=s"
    );
}

#[test]
fn authorization_parameters_in_order() {
    assert_eq!(
        authorization_params("id", "cb", None),
        vec![pair("response_type", "code"), pair("client_id", "id"), pair("redirect_uri", "cb")]
    );
    assert_eq!(
        authorization_params("id", "cb", Some("")),
        vec![
            pair("response_type", "code"),
            pair("client_id", "id"),
            pair("redirect_uri", "cb"),
            pair("state", ""),
        ]
    );
}

#[test]
fn input_within_the_limit_fits() {
    assert!(input_fits("https://api.podbean.com/v1/dialog/oauth", &vec![pair("a", "b")]));
    assert!(input_fits("", &vec![]));
    let long = "a".repeat(MAX_URL_INPUT_BYTES - 4);
    assert!(input_fits(&long, &vec![pair("ab", "cd")]));
    assert!(!input_fits(&long, &vec![pair("ab", "cd"), pair("", "e")]));
    assert!(!input_fits(&long, &vec![pair("ab", "c\u{e9}")]));
}

#[test]
fn input_beyond_the_limit_is_refused() {
    let long = "a".repeat(MAX_URL_INPUT_BYTES);
    match build_authorization_url("https://api.podbean.com/v1", "id", &long, None) {
        Err(PodbeanError::UrlParseError(cause)) => assert_eq!(cause, url::ParseError::Overflow),
        other => panic!("expected a URL parse error, got {:?}", other.map(|url| url.len())),
    }
}
