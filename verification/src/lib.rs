//! Core of a client for the Podbean podcast-hosting API.
//!
//! The crate holds the rules every API call passes through: the lifetime of
//! the OAuth2 credential, the sliding-window rate limit on outgoing calls,
//! the shape of each request, and the classification of every response.
//! It performs no I/O itself. A transport asks the [`PodbeanClient`] what to
//! send, sends it, and hands back what came of it.

pub mod classify;
pub mod client;
pub mod endpoints;
pub mod error;
pub mod json;
pub mod limiter;
pub mod oauth;
pub mod request;
pub mod text;
pub mod types;
pub mod upload;

pub use classify::handle_error_response;
pub use client::{Dispatch, Planned, PodbeanClient, Readiness};
pub use error::PodbeanError;
pub use limiter::RateLimiter;
pub use request::{ApiCall, ApiRequest, HttpMethod, HttpResponse, Payload, Unreadable};
pub use types::{
    AuthToken, Episode, EpisodeListResponse, EpisodeStatus, EpisodeType, MediaFormat, MediaItem,
    MediaListResponse, Podcast, PodcastListResponse, TokenResponse,
};
pub use upload::Transfer;
