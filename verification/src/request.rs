//! Requests and responses as plain values: what the client asks the
//! transport to send, and what the transport hands back.

use vstd::prelude::*;
use vstd::string::*;

verus! {

/// HTTP methods that the API is called with.
#[derive(Debug, Clone, Copy, PartialEq, Eq)]
pub enum HttpMethod {
    /// Read a resource; parameters travel in the query string.
    Get,
    /// Create a resource.
    Post,
    /// Update a resource, or store a file.
    Put,
    /// Delete a resource.
    Delete,
}

/// Name/value pairs, as plain text.
pub type PairsView = Seq<(Seq<char>, Seq<char>)>;

/// The name/value pairs that `pairs` holds, as plain text.
pub open spec fn pairs_view(pairs: Seq<(String, String)>) -> PairsView {
    Seq::new(pairs.len(), |i: int| (pairs[i].0@, pairs[i].1@))
}

/// Appends the pair of `name` and `value` to `pairs`.
pub fn push_pair(pairs: &mut Vec<(String, String)>, name: &str, value: String)
    ensures
        pairs_view(final(pairs)@) == pairs_view(old(pairs)@).push((name@, value@)),
{
    pairs.push((String::from_str(name), value));
    assert(pairs_view(pairs@) =~= pairs_view(old(pairs)@).push((name@, value@)));
}

/// What a request carries besides its URL and headers.
#[derive(Debug, PartialEq, Eq)]
pub enum Payload {
    /// Nothing.
    Empty,
    /// Parameters to encode into the query string of the URL.
    Query(Vec<(String, String)>),
    /// Parameters to encode into the body as a form.
    Form(Vec<(String, String)>),
    /// Bytes to send as the body, as they are.
    Bytes(Vec<u8>),
}

/// What a request carries, as plain values.
pub ghost enum PayloadView {
    Empty,
    Query(PairsView),
    Form(PairsView),
    Bytes(Seq<u8>),
}

impl View for Payload {
    type V = PayloadView;

    open spec fn view(&self) -> PayloadView {
        match self {
            Payload::Empty => PayloadView::Empty,
            Payload::Query(pairs) => PayloadView::Query(pairs_view(pairs@)),
            Payload::Form(pairs) => PayloadView::Form(pairs_view(pairs@)),
            Payload::Bytes(bytes) => PayloadView::Bytes(bytes@),
        }
    }
}

/// A request that is ready to be sent.
#[derive(Debug, PartialEq, Eq)]
pub struct ApiRequest {
    /// HTTP method
    pub method: HttpMethod,
    /// Absolute URL, without the parameters of a `Payload::Query`
    pub url: String,
    /// Headers to set, by name and value
    pub headers: Vec<(String, String)>,
    /// Parameters or body
    pub payload: Payload,
}

/// A request, as plain values.
pub ghost struct RequestView {
    pub method: HttpMethod,
    pub url: Seq<char>,
    pub headers: PairsView,
    pub payload: PayloadView,
}

impl View for ApiRequest {
    type V = RequestView;

    open spec fn view(&self) -> RequestView {
        RequestView {
            method: self.method,
            url: self.url@,
            headers: pairs_view(self.headers@),
            payload: self.payload@,
        }
    }
}

/// A call of one endpoint of the API: what is asked, before the client has
/// decided whether and when it may be sent.
#[derive(Debug, PartialEq, Eq)]
pub struct ApiCall {
    /// HTTP method
    pub method: HttpMethod,
    /// Path of the endpoint below the base URL
    pub endpoint: String,
    /// Parameters of the call, in the order in which they are sent
    pub params: Option<Vec<(String, String)>>,
}

/// A call, as plain values.
pub ghost struct CallView {
    pub method: HttpMethod,
    pub endpoint: Seq<char>,
    pub params: Option<PairsView>,
}

impl View for ApiCall {
    type V = CallView;

    open spec fn view(&self) -> CallView {
        CallView {
            method: self.method,
            endpoint: self.endpoint@,
            params: match self.params {
                Some(pairs) => Some(pairs_view(pairs@)),
                None => None,
            },
        }
    }
}

/// A body that could not be read.
#[derive(Debug)]
pub struct Unreadable {
    /// The transport's failure
    pub cause: reqwest::Error,
    /// What the transport says of it, in words
    pub detail: String,
}

/// A response as the transport received it.
#[derive(Debug)]
pub struct HttpResponse {
    /// HTTP status code
    pub status: u16,
    /// Value of the `Retry-After` header, where the response has one that
    /// is text
    pub retry_after: Option<String>,
    /// The bytes of the body, or what went wrong while they were read
    pub body: Result<Vec<u8>, Unreadable>,
}

/// A response, as plain values: of a body that could not be read, what the
/// transport says of the failure.
pub ghost struct ResponseView {
    pub status: u16,
    pub retry_after: Option<Seq<char>>,
    pub body: Result<Seq<u8>, Seq<char>>,
}

impl View for HttpResponse {
    type V = ResponseView;

    open spec fn view(&self) -> ResponseView {
        ResponseView {
            status: self.status,
            retry_after: match self.retry_after {
                Some(value) => Some(value@),
                None => None,
            },
            body: match self.body {
                Ok(bytes) => Ok(bytes@),
                Err(failure) => Err(failure.detail@),
            },
        }
    }
}

/// Whether `status` is a success status: 200 to 299.
pub open spec fn is_success(status: u16) -> bool {
    200 <= status < 300
}

impl HttpResponse {
    /// Whether the status is a success status: 200 to 299.
    pub fn succeeded(&self) -> (yes: bool)
        ensures
            yes == is_success(self.status),
    {
        200 <= self.status && self.status < 300
    }
}

} // verus!
