//! The error classifier: every response that is not a success becomes
//! exactly one [`PodbeanError`].

use crate::error::{ErrorView, PodbeanError};
use crate::json::{json_string_at, json_text_at};
use crate::request::{HttpResponse, ResponseView};
use crate::text::{lossy_text, parse_decimal, parse_u64, utf8_lossy};
use crate::types::{opt_str, opt_text};
use vstd::prelude::*;
use vstd::string::*;
use vstd::utf8::encode_utf8;

verus! {

/// The status with which the server says that it has been asked too often.
pub const TOO_MANY_REQUESTS: u16 = 429;

/// The seconds that a `Retry-After` header names: those that its value
/// writes in decimal, none without the header or where the value is no
/// number.
pub open spec fn retry_after_seconds(header: Option<Seq<char>>) -> Option<u64> {
    match header {
        Some(value) => parse_decimal(value),
        None => None,
    }
}

/// The message of an API error with the body `body`, in which the strings
/// `error` and `description` were found or not: the two joined by a colon
/// where both are there, else the body as it came.
pub open spec fn api_message(
    body: Seq<char>,
    error: Option<Seq<char>>,
    description: Option<Seq<char>>,
) -> Seq<char> {
    match (error, description) {
        (Some(e), Some(d)) => e + ": "@ + d,
        _ => body,
    }
}

/// The error that a response with a failure status stands for: one for
/// every response, and the same for the same response.
///
/// A 429 is a rate limit, whatever the body says. Otherwise the body is read
/// as text. A body that is a JSON document with the string members `error`
/// and `error_description` gives an API error with the two as its message,
/// any other body that could be read gives an API error with the body as its
/// message, and a body that could not be read gives an error that says so.
pub open spec fn classification(response: ResponseView) -> ErrorView {
    if response.status == TOO_MANY_REQUESTS {
        ErrorView::RateLimit { retry_after: retry_after_seconds(response.retry_after) }
    } else {
        match response.body {
            Ok(bytes) => {
                let text = utf8_lossy(bytes);
                ErrorView::Api {
                    code: response.status,
                    message: api_message(
                        text,
                        json_text_at(encode_utf8(text), "/error"@),
                        json_text_at(encode_utf8(text), "/error_description"@),
                    ),
                }
            },
            Err(detail) => ErrorView::Other("Failed to read error response: "@ + detail),
        }
    }
}

/// A 429 is a rate limit whatever else the response holds: the body plays
/// no part in it.
pub proof fn lemma_rate_limit_takes_precedence(response: ResponseView, other: ResponseView)
    requires
        response.status == TOO_MANY_REQUESTS,
        other.status == TOO_MANY_REQUESTS,
        other.retry_after == response.retry_after,
    ensures
        classification(response) == classification(other),
        classification(response) is RateLimit,
{
}

/// The rate-limit error for a response with the `Retry-After` header
/// `header`.
pub fn rate_limit_error(header: Option<&str>) -> (error: PodbeanError)
    ensures
        error@ == (ErrorView::RateLimit {
            retry_after: retry_after_seconds(opt_str(header)),
        }),
{
    let retry_after = match header {
        Some(value) => parse_u64(value),
        None => None,
    };
    PodbeanError::RateLimitError { retry_after }
}

/// The API error for the status `status` and the body `body`, in which the
/// string members `error` and `error_description` were found or not.
pub fn api_error(
    status: u16,
    body: String,
    error: Option<String>,
    description: Option<String>,
) -> (failure: PodbeanError)
    ensures
        failure@ == (ErrorView::Api {
            code: status,
            message: api_message(body@, opt_text(error), opt_text(description)),
        }),
{
    match (error, description) {
        (Some(e), Some(d)) => {
            let mut message = e;
            message.append(": ");
            message.append(d.as_str());
            PodbeanError::ApiError { code: status, message }
        },
        _ => PodbeanError::ApiError { code: status, message: body },
    }
}

/// The error for a failure response whose body could not be read, for the
/// reason `cause`.
pub fn unreadable_body_error(cause: &str) -> (error: PodbeanError)
    ensures
        error@ == ErrorView::Other("Failed to read error response: "@ + cause@),
{
    let mut detail = String::from_str("Failed to read error response: ");
    detail.append(cause);
    PodbeanError::OtherError(detail)
}

/// Processes error responses from the API: the one error that `response`
/// stands for.
pub fn handle_error_response(response: HttpResponse) -> (error: PodbeanError)
    ensures
        error@ == classification(response@),
{
    if response.status == TOO_MANY_REQUESTS {
        let header = match &response.retry_after {
            Some(value) => Some(value.as_str()),
            None => None,
        };
        return rate_limit_error(header);
    }
    match response.body {
        Ok(bytes) => {
            let text = lossy_text(bytes.as_slice());
            let error = json_string_at(text.as_str().as_bytes(), "/error");
            let description = json_string_at(text.as_str().as_bytes(), "/error_description");
            api_error(response.status, text, error, description)
        },
        Err(failure) => unreadable_body_error(failure.detail.as_str()),
    }
}

} // verus!
