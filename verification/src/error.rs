//! The one failure type that every operation of the client reports.

use crate::text::{decimal, push_decimal};
use vstd::prelude::*;
use vstd::std_specs::convert::FromSpecImpl;
use vstd::string::*;

verus! {

/// `reqwest::Error`, the transport's own account of a failure. The client
/// carries it through and never looks inside.
#[verifier::external_type_specification]
#[verifier::external_body]
pub struct ExTransportError(reqwest::Error);

/// `serde_json::Error`, the JSON parser's own account of a failure. The
/// client carries it through and never looks inside.
#[verifier::external_type_specification]
#[verifier::external_body]
pub struct ExJsonError(serde_json::Error);

/// `url::ParseError`, the URL parser's own account of a failure. The
/// client carries it through and never looks inside.
#[verifier::external_type_specification]
#[verifier::external_body]
pub struct ExUrlParseError(url::ParseError);

/// Possible errors that can occur when using the Podbean API client.
#[derive(Debug)]
pub enum PodbeanError {
    /// The API answered with a failure status and this message.
    ApiError {
        /// HTTP status code
        code: u16,
        /// Error message
        message: String,
    },
    /// The API answered 429: too many requests.
    RateLimitError {
        /// Seconds to wait before retrying, where the server named them
        retry_after: Option<u64>,
    },
    /// The request did not get through, or its answer could not be read.
    NetworkError(reqwest::Error),
    /// A success body was not the JSON that was expected.
    SerializationError(serde_json::Error),
    /// A URL could not be parsed.
    UrlParseError(url::ParseError),
    /// No credential, an expired one that cannot renew itself, or a failed
    /// token exchange.
    AuthError(String),
    /// Any other failure.
    OtherError(String),
}

/// An error, as plain values. A cause that the transport, the JSON parser
/// or the URL parser made is kept as it came.
pub ghost enum ErrorView {
    Api { code: u16, message: Seq<char> },
    RateLimit { retry_after: Option<u64> },
    Network(reqwest::Error),
    Serialization(serde_json::Error),
    UrlParse(url::ParseError),
    Auth(Seq<char>),
    Other(Seq<char>),
}

impl View for PodbeanError {
    type V = ErrorView;

    open spec fn view(&self) -> ErrorView {
        match self {
            PodbeanError::ApiError { code, message } => ErrorView::Api {
                code: *code,
                message: message@,
            },
            PodbeanError::RateLimitError { retry_after } => ErrorView::RateLimit {
                retry_after: *retry_after,
            },
            PodbeanError::NetworkError(err) => ErrorView::Network(*err),
            PodbeanError::SerializationError(err) => ErrorView::Serialization(*err),
            PodbeanError::UrlParseError(err) => ErrorView::UrlParse(*err),
            PodbeanError::AuthError(reason) => ErrorView::Auth(reason@),
            PodbeanError::OtherError(detail) => ErrorView::Other(detail@),
        }
    }
}

/// A text or the failure to get one, as plain values.
pub open spec fn result_view(result: Result<String, PodbeanError>) -> Result<
    Seq<char>,
    ErrorView,
> {
    match result {
        Ok(text) => Ok(text@),
        Err(error) => Err(error@),
    }
}

/// A body or the failure to get one, as plain values.
pub open spec fn body_view(result: Result<Vec<u8>, PodbeanError>) -> Result<Seq<u8>, ErrorView> {
    match result {
        Ok(bytes) => Ok(bytes@),
        Err(error) => Err(error@),
    }
}

impl From<reqwest::Error> for PodbeanError {
    fn from(err: reqwest::Error) -> (r: Self) {
        PodbeanError::NetworkError(err)
    }
}

impl FromSpecImpl<reqwest::Error> for PodbeanError {
    open spec fn obeys_from_spec() -> bool {
        true
    }

    open spec fn from_spec(err: reqwest::Error) -> Self {
        PodbeanError::NetworkError(err)
    }
}

impl From<serde_json::Error> for PodbeanError {
    fn from(err: serde_json::Error) -> (r: Self) {
        PodbeanError::SerializationError(err)
    }
}

impl FromSpecImpl<serde_json::Error> for PodbeanError {
    open spec fn obeys_from_spec() -> bool {
        true
    }

    open spec fn from_spec(err: serde_json::Error) -> Self {
        PodbeanError::SerializationError(err)
    }
}

impl From<url::ParseError> for PodbeanError {
    fn from(err: url::ParseError) -> (r: Self) {
        PodbeanError::UrlParseError(err)
    }
}

impl FromSpecImpl<url::ParseError> for PodbeanError {
    open spec fn obeys_from_spec() -> bool {
        true
    }

    open spec fn from_spec(err: url::ParseError) -> Self {
        PodbeanError::UrlParseError(err)
    }
}

/// What `reqwest::Error` prints of itself through `Display`. Nothing is
/// claimed of the text.
#[verifier::external_body]
fn describe_transport_error(err: &reqwest::Error) -> (text: String) {
    err.to_string()
}

/// What `serde_json::Error` prints of itself through `Display`. Nothing is
/// claimed of the text.
#[verifier::external_body]
pub(crate) fn describe_json_error(err: &serde_json::Error) -> (text: String) {
    err.to_string()
}

/// What `url::ParseError` prints of itself through `Display`. Nothing is
/// claimed of the text.
#[verifier::external_body]
fn describe_url_error(err: &url::ParseError) -> (text: String) {
    err.to_string()
}

/// Whether `text` is a message of `error`: see [`PodbeanError::has_message`].
pub open spec fn error_message(error: ErrorView, text: Seq<char>) -> bool {
    match error {
        ErrorView::Api { code, message } => text == "API error "@ + decimal(code as nat) + ": "@
            + message,
        ErrorView::RateLimit { retry_after: Some(seconds) } => text
            == "Rate limit exceeded. Retry after "@ + decimal(seconds as nat) + " seconds"@,
        ErrorView::RateLimit { retry_after: None } => text == "Rate limit exceeded"@,
        ErrorView::Network(_) => exists|cause: Seq<char>| text == "Network error: "@ + cause,
        ErrorView::Serialization(_) => exists|cause: Seq<char>|
            text == "Serialization error: "@ + cause,
        ErrorView::UrlParse(_) => exists|cause: Seq<char>| text == "URL parse error: "@ + cause,
        ErrorView::Auth(reason) => text == "Authentication error: "@ + reason,
        ErrorView::Other(detail) => text == "Error: "@ + detail,
    }
}

impl PodbeanError {
    /// Whether `text` is a message of this error. Where the error holds
    /// plain values there is exactly one; where it holds the cause as the
    /// transport, the JSON parser or the URL parser made it, the cause's own
    /// words follow a fixed prefix.
    pub open spec fn has_message(&self, text: Seq<char>) -> bool {
        error_message(self@, text)
    }

    /// The message of this error, for people to read.
    pub fn to_string(&self) -> (text: String)
        ensures
            self.has_message(text@),
    {
        match self {
            PodbeanError::ApiError { code, message } => {
                let mut text = String::from_str("API error ");
                push_decimal(&mut text, *code as u64);
                text.append(": ");
                text.append(message.as_str());
                text
            },
            PodbeanError::RateLimitError { retry_after } => {
                match retry_after {
                    Some(seconds) => {
                        let mut text = String::from_str("Rate limit exceeded. Retry after ");
                        push_decimal(&mut text, *seconds);
                        text.append(" seconds");
                        text
                    },
                    None => String::from_str("Rate limit exceeded"),
                }
            },
            PodbeanError::NetworkError(err) => {
                let cause = describe_transport_error(err);
                let mut text = String::from_str("Network error: ");
                text.append(cause.as_str());
                assert(text@ == "Network error: "@ + cause@);
                text
            },
            PodbeanError::SerializationError(err) => {
                let cause = describe_json_error(err);
                let mut text = String::from_str("Serialization error: ");
                text.append(cause.as_str());
                assert(text@ == "Serialization error: "@ + cause@);
                text
            },
            PodbeanError::UrlParseError(err) => {
                let cause = describe_url_error(err);
                let mut text = String::from_str("URL parse error: ");
                text.append(cause.as_str());
                assert(text@ == "URL parse error: "@ + cause@);
                text
            },
            PodbeanError::AuthError(reason) => {
                let mut text = String::from_str("Authentication error: ");
                text.append(reason.as_str());
                text
            },
            PodbeanError::OtherError(detail) => {
                let mut text = String::from_str("Error: ");
                text.append(detail.as_str());
                text
            },
        }
    }
}

} // verus!
