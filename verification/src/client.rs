//! The request dispatcher: the state of one client and the decisions that
//! every call passes through.
//!
//! The client holds the credential and the rate window and nothing that
//! does I/O. For each call it says what has to be sent and how long to wait
//! first; for each response it says what the caller gets. The transport in
//! between does what it is told.

use crate::classify::{classification, handle_error_response};
use crate::error::{
    body_view, describe_json_error, error_message, ErrorView, PodbeanError,
};
use crate::limiter::{after_admission, wait_for, RateLimiter};
use crate::oauth::{authorization_url, build_authorization_url};
use crate::request::{
    is_success, pairs_view, push_pair, ApiCall, ApiRequest, CallView, HttpMethod, HttpResponse,
    PairsView, Payload, PayloadView, RequestView,
};
use crate::types::{
    expired_at, lemma_expiry_is_final, opt_str, opt_text, AuthToken, TokenResponse, TokenView,
};
use vstd::prelude::*;
use vstd::string::*;

verus! {

/// Requests per 60 seconds that a client allows itself unless it is told
/// otherwise.
pub const DEFAULT_RATE_LIMIT: usize = 60;

/// The state of a client, as plain values.
pub ghost struct ClientView {
    pub client_id: Seq<char>,
    pub client_secret: Seq<char>,
    pub base_url: Seq<char>,
    /// The credential, where the client is authenticated
    pub token: Option<TokenView>,
    /// The retained admissions of the rate window, oldest first
    pub admissions: Seq<u64>,
    /// The capacity of the rate window
    pub rate_limit: nat,
}

/// Where a client stands before a call.
#[derive(Debug, Clone, Copy, PartialEq, Eq)]
pub enum Readiness {
    /// The credential is good for the call.
    Fresh,
    /// The credential is expired and holds the secret to renew it.
    Stale,
}

/// A request together with the time to let pass before it is sent.
#[derive(Debug, PartialEq, Eq)]
pub struct Planned {
    /// Milliseconds to wait before sending, by the rate window
    pub wait_ms: u64,
    /// What to send
    pub request: ApiRequest,
}

/// What the transport has to do next for a call.
#[derive(Debug, PartialEq, Eq)]
pub enum Dispatch {
    /// The credential is expired: send `request` to renew it, hand the
    /// answer to the client, and resume `call`.
    Refresh { request: ApiRequest, call: ApiCall },
    /// Wait, then send the request of the call.
    Send(Planned),
}

/// Whether a client with the credential `token` may call at `now`, and if
/// not, why not.
pub open spec fn readiness(token: Option<TokenView>, now: u64) -> Result<Readiness, Seq<char>> {
    match token {
        None => Err("not authenticated"@),
        Some(held) => if !expired_at(held.created_at, held.expires_in, now) {
            Ok(Readiness::Fresh)
        } else if held.refresh_token is Some {
            Ok(Readiness::Stale)
        } else {
            Err("no refresh token"@)
        },
    }
}

/// An expired credential without a refresh secret stops every call, now
/// and at any later time, for as long as the client holds it: no call is
/// ready, and none leads to a renewal.
pub proof fn lemma_expired_without_refresh_stays(token: TokenView, now: u64, later: u64)
    requires
        expired_at(token.created_at, token.expires_in, now),
        token.refresh_token is None,
        now <= later,
    ensures
        readiness(Some(token), now) == Err::<Readiness, Seq<char>>("no refresh token"@),
        readiness(Some(token), later) == Err::<Readiness, Seq<char>>("no refresh token"@),
{
    lemma_expiry_is_final(token.created_at, token.expires_in, now, later);
}

/// The request that exchanges `params` for a token.
pub open spec fn token_request(base_url: Seq<char>, params: PairsView) -> RequestView {
    RequestView {
        method: HttpMethod::Post,
        url: base_url + "/oauth/token"@,
        headers: Seq::empty(),
        payload: PayloadView::Form(params),
    }
}

/// The request that exchanges an authorization code for a token.
pub open spec fn authorize_request(
    client: ClientView,
    code: Seq<char>,
    redirect_uri: Seq<char>,
) -> RequestView {
    token_request(
        client.base_url,
        seq![
            ("grant_type"@, "client_credentials"@),
            ("code"@, code),
            ("redirect_uri"@, redirect_uri),
            ("client_id"@, client.client_id),
            ("client_secret"@, client.client_secret),
        ],
    )
}

/// The request that exchanges the refresh secret `secret` for a token.
pub open spec fn refresh_request(client: ClientView, secret: Seq<char>) -> RequestView {
    token_request(
        client.base_url,
        seq![
            ("grant_type"@, "refresh_token"@),
            ("refresh_token"@, secret),
            ("client_id"@, client.client_id),
            ("client_secret"@, client.client_secret),
        ],
    )
}

/// The value of the `Authorization` header for the credential `token`.
pub open spec fn authorization_header(token: TokenView) -> Seq<char> {
    token.token_type + " "@ + token.access_token
}

/// The request of `call` for a client at `base_url` with the credential
/// `token`: the parameters of a `GET` go into the query string, those of
/// any other method into the body as a form.
pub open spec fn request_for(base_url: Seq<char>, token: TokenView, call: CallView) -> RequestView {
    RequestView {
        method: call.method,
        url: base_url + call.endpoint,
        headers: seq![("Authorization"@, authorization_header(token))],
        payload: match call.params {
            None => PayloadView::Empty,
            Some(params) => if call.method == HttpMethod::Get {
                PayloadView::Query(params)
            } else {
                PayloadView::Form(params)
            },
        },
    }
}

/// What a response, or the failure to get one, gives the caller of an API
/// call: the body of a success, the transport's failure as it is, and for
/// every other status the error that the response stands for.
pub open spec fn response_gives(
    outcome: Result<HttpResponse, reqwest::Error>,
    given: Result<Seq<u8>, ErrorView>,
) -> bool {
    match outcome {
        Err(cause) => given == Err::<Seq<u8>, ErrorView>(ErrorView::Network(cause)),
        Ok(response) => if is_success(response.status) {
            match response.body {
                Ok(bytes) => given == Ok::<Seq<u8>, ErrorView>(bytes@),
                Err(failure) => given == Err::<Seq<u8>, ErrorView>(
                    ErrorView::Network(failure.cause),
                ),
            }
        } else {
            given == Err::<Seq<u8>, ErrorView>(classification(response@))
        },
    }
}

/// What the answer to a token request gives: as [`response_gives`], but a
/// failure status is an authentication failure, whose reason is the message
/// of the error that the response stands for.
pub open spec fn token_response_gives(
    outcome: Result<HttpResponse, reqwest::Error>,
    given: Result<Seq<u8>, ErrorView>,
) -> bool {
    match outcome {
        Ok(response) if !is_success(response.status) => given matches Err(
            ErrorView::Auth(reason),
        ) && error_message(classification(response@), reason),
        _ => response_gives(outcome, given),
    }
}

/// The credential that a token response received at `now` makes.
pub open spec fn token_from(response: TokenResponse, now: u64) -> TokenView {
    TokenView {
        access_token: response.access_token@,
        token_type: response.token_type@,
        expires_in: response.expires_in,
        scope: opt_text(response.scope),
        refresh_token: opt_text(response.refresh_token),
        created_at: now,
    }
}

/// The state of `client` after a request was admitted at `now`.
pub open spec fn after_request(client: ClientView, now: u64) -> ClientView {
    ClientView {
        admissions: after_admission(client.admissions, client.rate_limit, now),
        ..client
    }
}

/// A client for interacting with the Podbean API.
///
/// This client handles authentication, token management and rate limiting,
/// and shapes the requests to Podbean's API endpoints.
#[derive(Debug)]
pub struct PodbeanClient {
    client_id: String,
    client_secret: String,
    base_url: String,
    token: Option<AuthToken>,
    limiter: RateLimiter,
}

impl View for PodbeanClient {
    type V = ClientView;

    closed spec fn view(&self) -> ClientView {
        ClientView {
            client_id: self.client_id@,
            client_secret: self.client_secret@,
            base_url: self.base_url@,
            token: match self.token {
                Some(held) => Some(held@),
                None => None,
            },
            admissions: self.limiter@,
            rate_limit: self.limiter.limit(),
        }
    }
}

impl PodbeanClient {
    /// Creates a new Podbean API client that is not authenticated yet and
    /// allows itself [`DEFAULT_RATE_LIMIT`] requests per 60 seconds.
    ///
    /// # Arguments
    ///
    /// * `client_id` - The client ID from your Podbean API application
    /// * `client_secret` - The client secret from your Podbean API application
    pub fn new(client_id: &str, client_secret: &str) -> (made: Result<PodbeanClient, PodbeanError>)
        ensures
            made matches Ok(client) && client@ == (ClientView {
                client_id: client_id@,
                client_secret: client_secret@,
                base_url: "https://api.podbean.com/v1"@,
                token: None,
                admissions: Seq::empty(),
                rate_limit: DEFAULT_RATE_LIMIT as nat,
            }),
    {
        PodbeanClient::with_rate_limit(client_id, client_secret, DEFAULT_RATE_LIMIT)
    }

    /// Creates a client that allows itself `requests_per_minute` requests
    /// in any 60 seconds. A limit of 0 is a configuration error.
    pub fn with_rate_limit(client_id: &str, client_secret: &str, requests_per_minute: usize) -> (made:
        Result<PodbeanClient, PodbeanError>)
        ensures
            made is Err <==> requests_per_minute == 0,
            made matches Ok(client) ==> client@ == (ClientView {
                client_id: client_id@,
                client_secret: client_secret@,
                base_url: "https://api.podbean.com/v1"@,
                token: None,
                admissions: Seq::empty(),
                rate_limit: requests_per_minute as nat,
            }),
            made matches Err(error) ==> error@ == ErrorView::Other(
                "Rate limit must allow at least one request"@,
            ),
    {
        match RateLimiter::new(requests_per_minute) {
            Ok(limiter) => {
                assert(limiter@ =~= Seq::empty());
                Ok(
                    PodbeanClient {
                        client_id: String::from_str(client_id),
                        client_secret: String::from_str(client_secret),
                        base_url: String::from_str("https://api.podbean.com/v1"),
                        token: None,
                        limiter,
                    },
                )
            },
            Err(error) => Err(error),
        }
    }

    /// Whether the client holds a credential.
    pub fn is_authenticated(&self) -> (yes: bool)
        ensures
            yes == self@.token is Some,
    {
        self.token.is_some()
    }

    /// The credential that the client holds, if any.
    pub fn token(&self) -> (held: Option<&AuthToken>)
        ensures
            held is Some <==> self@.token is Some,
            held matches Some(token) ==> self@.token == Some(token@),
    {
        self.token.as_ref()
    }

    /// The rate window of the client.
    pub fn limiter(&self) -> (window: &RateLimiter)
        ensures
            window@ == self@.admissions,
            window.limit() == self@.rate_limit,
    {
        &self.limiter
    }

    /// Forgets the credential: the client is not authenticated any more.
    /// Nothing but this takes a credential away without putting a new one
    /// in its place.
    pub fn reset(&mut self)
        ensures
            final(self)@ == (ClientView { token: None, ..old(self)@ }),
    {
        self.token = None;
    }

    fn token_endpoint(&self) -> (url: String)
        ensures
            url@ == self@.base_url + "/oauth/token"@,
    {
        let mut url = self.base_url.clone();
        url.append("/oauth/token");
        url
    }

    /// Authorize the client using an authorization code: the request that
    /// exchanges the code for an access token. Its answer goes to
    /// [`PodbeanClient::token_response_body`].
    ///
    /// # Arguments
    ///
    /// * `code` - The authorization code received after user authorization
    /// * `redirect_uri` - The redirect URI used in the authorization request
    pub fn authorize(&self, code: &str, redirect_uri: &str) -> (request: ApiRequest)
        ensures
            request@ == authorize_request(self@, code@, redirect_uri@),
    {
        let mut params: Vec<(String, String)> = Vec::new();
        assert(pairs_view(params@) =~= Seq::empty());
        push_pair(&mut params, "grant_type", String::from_str("client_credentials"));
        push_pair(&mut params, "code", String::from_str(code));
        push_pair(&mut params, "redirect_uri", String::from_str(redirect_uri));
        push_pair(&mut params, "client_id", self.client_id.clone());
        push_pair(&mut params, "client_secret", self.client_secret.clone());
        assert(pairs_view(params@) =~= seq![
            ("grant_type"@, "client_credentials"@),
            ("code"@, code@),
            ("redirect_uri"@, redirect_uri@),
            ("client_id"@, self@.client_id),
            ("client_secret"@, self@.client_secret),
        ]);
        let headers: Vec<(String, String)> = Vec::new();
        assert(pairs_view(headers@) =~= Seq::empty());
        ApiRequest {
            method: HttpMethod::Post,
            url: self.token_endpoint(),
            headers,
            payload: Payload::Form(params),
        }
    }

    /// Refresh the access token: the request that exchanges the refresh
    /// secret of the held credential for a new token. Without a credential,
    /// or with one that holds no refresh secret, there is nothing to send.
    pub fn refresh_token(&self) -> (request: Result<ApiRequest, PodbeanError>)
        ensures
            match self@.token {
                Some(held) if held.refresh_token is Some => request matches Ok(r) && r@
                    == refresh_request(self@, held.refresh_token->0),
                _ => request matches Err(error) && error@ == ErrorView::Auth(
                    "no refresh token"@,
                ),
            },
    {
        let secret = match &self.token {
            Some(held) => held.refresh_token(),
            None => None,
        };
        match secret {
            Some(secret) => {
                let mut params: Vec<(String, String)> = Vec::new();
                assert(pairs_view(params@) =~= Seq::empty());
                push_pair(&mut params, "grant_type", String::from_str("refresh_token"));
                push_pair(&mut params, "refresh_token", String::from_str(secret));
                push_pair(&mut params, "client_id", self.client_id.clone());
                push_pair(&mut params, "client_secret", self.client_secret.clone());
                assert(pairs_view(params@) =~= seq![
                    ("grant_type"@, "refresh_token"@),
                    ("refresh_token"@, secret@),
                    ("client_id"@, self@.client_id),
                    ("client_secret"@, self@.client_secret),
                ]);
                let headers: Vec<(String, String)> = Vec::new();
                assert(pairs_view(headers@) =~= Seq::empty());
                Ok(
                    ApiRequest {
                        method: HttpMethod::Post,
                        url: self.token_endpoint(),
                        headers,
                        payload: Payload::Form(params),
                    },
                )
            },
            None => Err(PodbeanError::AuthError(String::from_str("no refresh token"))),
        }
    }

    /// Ensures a valid token is available: whether the client may call at
    /// `now`, has to renew its credential first, or cannot call at all.
    pub fn ensure_token(&self, now: u64) -> (ready: Result<Readiness, PodbeanError>)
        ensures
            match readiness(self@.token, now) {
                Ok(state) => ready == Ok::<Readiness, PodbeanError>(state),
                Err(reason) => ready matches Err(error) && error@ == ErrorView::Auth(reason),
            },
    {
        match &self.token {
            None => Err(PodbeanError::AuthError(String::from_str("not authenticated"))),
            Some(held) => {
                if !held.is_expired(now) {
                    Ok(Readiness::Fresh)
                } else if held.refresh_token().is_some() {
                    Ok(Readiness::Stale)
                } else {
                    Err(PodbeanError::AuthError(String::from_str("no refresh token")))
                }
            },
        }
    }

    /// The failure of a token exchange that was answered with `cause`: an
    /// authentication failure with the message of `cause` as its reason.
    pub fn auth_failure(cause: &PodbeanError) -> (failure: PodbeanError)
        ensures
            failure@ matches ErrorView::Auth(reason) && error_message(cause@, reason),
    {
        PodbeanError::AuthError(cause.to_string())
    }

    /// Takes the answer to a token request, made by
    /// [`PodbeanClient::authorize`] or [`PodbeanClient::refresh_token`]:
    /// the body of a success, which holds the token response, or the
    /// failure. An answer with a failure status is an authentication
    /// failure. The client's state does not change.
    pub fn token_response_body(outcome: Result<HttpResponse, reqwest::Error>) -> (body: Result<
        Vec<u8>,
        PodbeanError,
    >)
        ensures
            token_response_gives(outcome, body_view(body)),
    {
        match outcome {
            Err(cause) => Err(PodbeanError::NetworkError(cause)),
            Ok(response) => {
                if response.succeeded() {
                    match response.body {
                        Ok(bytes) => Ok(bytes),
                        Err(failure) => Err(PodbeanError::NetworkError(failure.cause)),
                    }
                } else {
                    let classified = handle_error_response(response);
                    Err(PodbeanClient::auth_failure(&classified))
                }
            },
        }
    }

    /// Handles the token response from authorization or refresh requests,
    /// received at `now`.
    ///
    /// A decoded response becomes the client's credential, in place of
    /// the one it held. A body that was no token response is an
    /// authentication failure and leaves the client as it was.
    pub fn handle_token_response(
        &mut self,
        decoded: Result<TokenResponse, serde_json::Error>,
        now: u64,
    ) -> (done: Result<(), PodbeanError>)
        ensures
            match decoded {
                Ok(response) => done is Ok && final(self)@ == (ClientView {
                    token: Some(token_from(response, now)),
                    ..old(self)@
                }),
                Err(_) => {
                    &&& final(self)@ == old(self)@
                    &&& done matches Err(error)
                    &&& exists|cause: Seq<char>|
                        error@ == ErrorView::Auth("invalid token response: "@ + cause)
                },
            },
    {
        match decoded {
            Ok(response) => {
                self.token = Some(AuthToken::from_response(response, now));
                Ok(())
            },
            Err(err) => {
                let cause = describe_json_error(&err);
                let mut reason = String::from_str("invalid token response: ");
                reason.append(cause.as_str());
                assert(reason@ == "invalid token response: "@ + cause@);
                Err(PodbeanError::AuthError(reason))
            },
        }
    }

    fn build_request(&self, call: ApiCall) -> (request: ApiRequest)
        requires
            self@.token is Some,
        ensures
            request@ == request_for(self@.base_url, self@.token->0, call@),
    {
        let mut url = self.base_url.clone();
        url.append(call.endpoint.as_str());
        let mut authorization = String::new();
        match &self.token {
            Some(held) => {
                authorization.append(held.token_type());
                authorization.append(" ");
                authorization.append(held.access_token());
            },
            None => {},
        }
        assert(authorization@ =~= authorization_header(self@.token->0));
        let mut headers: Vec<(String, String)> = Vec::new();
        assert(pairs_view(headers@) =~= Seq::empty());
        push_pair(&mut headers, "Authorization", authorization);
        assert(pairs_view(headers@) =~= seq![
            ("Authorization"@, authorization_header(self@.token->0)),
        ]);
        let payload = match call.params {
            None => Payload::Empty,
            Some(params) => match call.method {
                HttpMethod::Get => Payload::Query(params),
                _ => Payload::Form(params),
            },
        };
        ApiRequest { method: call.method, url, headers, payload }
    }

    /// Resumes a call after the credential was renewed for it: the
    /// request of `call` and the wait that the rate window asks for at
    /// `now`. The credential is not examined again.
    pub fn resume_request(&mut self, call: ApiCall, now: u64) -> (planned: Result<
        Planned,
        PodbeanError,
    >)
        ensures
            match old(self)@.token {
                None => {
                    &&& final(self)@ == old(self)@
                    &&& planned matches Err(error)
                    &&& error@ == ErrorView::Auth("not authenticated"@)
                },
                Some(held) => {
                    &&& final(self)@ == after_request(old(self)@, now)
                    &&& planned matches Ok(plan)
                    &&& plan.wait_ms == wait_for(
                        old(self)@.admissions,
                        old(self)@.rate_limit,
                        now,
                    )
                    &&& plan.request@ == request_for(old(self)@.base_url, held, call@)
                },
            },
    {
        if self.token.is_none() {
            return Err(PodbeanError::AuthError(String::from_str("not authenticated")));
        }
        let wait_ms = self.limiter.acquire(now);
        let request = self.build_request(call);
        Ok(Planned { wait_ms, request })
    }

    /// Makes a request to the Podbean API: decides what the transport has
    /// to do for `call` at `now`.
    ///
    /// Without a credential the call fails at once. With an expired
    /// credential the next step is the renewal, or, where the credential
    /// holds no refresh secret, a failure; in both cases the client stays
    /// as it was. Otherwise the rate window admits the request and says
    /// how long to wait before it is sent.
    pub fn make_request(&mut self, call: ApiCall, now: u64) -> (next: Result<
        Dispatch,
        PodbeanError,
    >)
        ensures
            match readiness(old(self)@.token, now) {
                Err(reason) => {
                    &&& final(self)@ == old(self)@
                    &&& next matches Err(error)
                    &&& error@ == ErrorView::Auth(reason)
                },
                Ok(Readiness::Stale) => {
                    &&& final(self)@ == old(self)@
                    &&& next matches Ok(Dispatch::Refresh { request, call: kept })
                    &&& kept == call
                    &&& request@ == refresh_request(
                        old(self)@,
                        old(self)@.token->0.refresh_token->0,
                    )
                },
                Ok(Readiness::Fresh) => {
                    &&& final(self)@ == after_request(old(self)@, now)
                    &&& next matches Ok(Dispatch::Send(plan))
                    &&& plan.wait_ms == wait_for(
                        old(self)@.admissions,
                        old(self)@.rate_limit,
                        now,
                    )
                    &&& plan.request@ == request_for(
                        old(self)@.base_url,
                        old(self)@.token->0,
                        call@,
                    )
                },
            },
    {
        match self.ensure_token(now) {
            Err(error) => Err(error),
            Ok(Readiness::Stale) => {
                match self.refresh_token() {
                    Ok(request) => Ok(Dispatch::Refresh { request, call }),
                    Err(error) => Err(error),
                }
            },
            Ok(Readiness::Fresh) => {
                let wait_ms = self.limiter.acquire(now);
                let request = self.build_request(call);
                Ok(Dispatch::Send(Planned { wait_ms, request }))
            },
        }
    }

    /// Takes what came of a request that was sent for an API call: the
    /// body of a success, for the caller to decode, or the one error that
    /// the outcome stands for. Nothing is retried.
    pub fn handle_response(outcome: Result<HttpResponse, reqwest::Error>) -> (body: Result<
        Vec<u8>,
        PodbeanError,
    >)
        ensures
            response_gives(outcome, body_view(body)),
    {
        match outcome {
            Err(cause) => Err(PodbeanError::NetworkError(cause)),
            Ok(response) => {
                if response.succeeded() {
                    match response.body {
                        Ok(bytes) => Ok(bytes),
                        Err(failure) => Err(PodbeanError::NetworkError(failure.cause)),
                    }
                } else {
                    Err(handle_error_response(response))
                }
            },
        }
    }

    /// Generates an authorization URL for OAuth2 flow.
    ///
    /// Users need to visit this URL to authorize your application to
    /// access their Podbean account. The same inputs give the same URL,
    /// character for character.
    ///
    /// # Arguments
    ///
    /// * `redirect_uri` - The URI to redirect to after authorization
    /// * `state` - Optional state parameter for CSRF protection
    pub fn get_authorization_url(&self, redirect_uri: &str, state: Option<&str>) -> (built: Result<
        String,
        PodbeanError,
    >)
        ensures
            built matches Ok(url) ==> authorization_url(
                self@.base_url,
                self@.client_id,
                redirect_uri@,
                opt_str(state),
            ) == Some(url@),
            built matches Err(error) ==> error@ is UrlParse && authorization_url(
                self@.base_url,
                self@.client_id,
                redirect_uri@,
                opt_str(state),
            ) is None,
    {
        build_authorization_url(
            self.base_url.as_str(),
            self.client_id.as_str(),
            redirect_uri,
            state,
        )
    }
}

} // verus!
