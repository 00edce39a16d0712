//! Data types for the Podbean API client: the credential, the resources
//! that the API returns, and the closed sets of wire values.

use vstd::prelude::*;
use vstd::string::*;

verus! {

/// Seconds before its true expiry from which a credential counts as expired,
/// to absorb clock skew and the time a call spends in flight.
pub const EXPIRY_MARGIN_SECS: u64 = 300;

/// Milliseconds in a second: instants are monotonic clock readings in
/// milliseconds, lifetimes are whole seconds.
pub const MILLIS_PER_SEC: u64 = 1000;

/// The safety margin in milliseconds.
pub const EXPIRY_MARGIN_MS: u64 = 300_000;

/// The view of an optional string.
pub open spec fn opt_text(text: Option<String>) -> Option<Seq<char>> {
    match text {
        Some(s) => Some(s@),
        None => None,
    }
}

/// The view of an optional string slice.
pub open spec fn opt_str(text: Option<&str>) -> Option<Seq<char>> {
    match text {
        Some(s) => Some(s@),
        None => None,
    }
}

/// Response from OAuth token endpoint.
#[derive(Debug)]
pub struct TokenResponse {
    /// OAuth access token
    pub access_token: String,
    /// Token type (usually "Bearer")
    pub token_type: String,
    /// Token validity in seconds
    pub expires_in: u64,
    /// OAuth scope
    pub scope: Option<String>,
    /// Refresh token for obtaining a new access token
    pub refresh_token: Option<String>,
}

/// What a credential holds, as plain values.
pub ghost struct TokenView {
    pub access_token: Seq<char>,
    pub token_type: Seq<char>,
    pub expires_in: u64,
    pub scope: Option<Seq<char>>,
    pub refresh_token: Option<Seq<char>>,
    pub created_at: u64,
}

/// The milliseconds that have passed at `now` since `created_at`, both
/// readings of one monotonic clock in milliseconds. A reading before the
/// creation counts as no time passed.
pub open spec fn elapsed_millis(created_at: u64, now: u64) -> int {
    if now >= created_at {
        now - created_at
    } else {
        0
    }
}

/// Whether a credential created at `created_at` with a lifetime of
/// `expires_in` seconds counts as expired at `now`: the time passed plus the
/// safety margin exceeds the lifetime.
pub open spec fn expired_at(created_at: u64, expires_in: u64, now: u64) -> bool {
    elapsed_millis(created_at, now) + EXPIRY_MARGIN_MS > expires_in * MILLIS_PER_SEC
}

/// Authentication token with metadata: a snapshot that is replaced as a
/// whole on every refresh and never changed in place.
#[derive(Debug, Clone)]
pub struct AuthToken {
    access_token: String,
    token_type: String,
    expires_in: u64,
    scope: Option<String>,
    refresh_token: Option<String>,
    created_at: u64,
}

impl View for AuthToken {
    type V = TokenView;

    closed spec fn view(&self) -> TokenView {
        TokenView {
            access_token: self.access_token@,
            token_type: self.token_type@,
            expires_in: self.expires_in,
            scope: opt_text(self.scope),
            refresh_token: opt_text(self.refresh_token),
            created_at: self.created_at,
        }
    }
}

impl AuthToken {
    /// Builds the credential from a token response received at `now`, which
    /// becomes its creation instant.
    pub fn from_response(response: TokenResponse, now: u64) -> (token: AuthToken)
        ensures
            token@ == (TokenView {
                access_token: response.access_token@,
                token_type: response.token_type@,
                expires_in: response.expires_in,
                scope: opt_text(response.scope),
                refresh_token: opt_text(response.refresh_token),
                created_at: now,
            }),
    {
        AuthToken {
            access_token: response.access_token,
            token_type: response.token_type,
            expires_in: response.expires_in,
            scope: response.scope,
            refresh_token: response.refresh_token,
            created_at: now,
        }
    }

    /// Checks if the token is expired at `now`.
    ///
    /// Considers a token expired if it has less than 5 minutes of validity left.
    pub fn is_expired(&self, now: u64) -> (expired: bool)
        ensures
            expired == expired_at(self@.created_at, self@.expires_in, now),
    {
        let elapsed: u128 = if now >= self.created_at {
            (now - self.created_at) as u128
        } else {
            0
        };
        let lifetime: u128 = self.expires_in as u128 * 1000;
        elapsed + (EXPIRY_MARGIN_MS as u128) > lifetime
    }

    /// Gets the access token string.
    pub fn access_token(&self) -> (secret: &str)
        ensures
            secret@ == self@.access_token,
    {
        self.access_token.as_str()
    }

    /// Gets the token type.
    pub fn token_type(&self) -> (kind: &str)
        ensures
            kind@ == self@.token_type,
    {
        self.token_type.as_str()
    }

    /// Gets the refresh token, if any. Without one the credential cannot
    /// renew itself.
    pub fn refresh_token(&self) -> (secret: Option<&str>)
        ensures
            secret is Some <==> self@.refresh_token is Some,
            secret is Some ==> secret->0@ == self@.refresh_token->0,
    {
        match &self.refresh_token {
            Some(s) => Some(s.as_str()),
            None => None,
        }
    }

    /// Gets the scope that the token was granted for, if the server named one.
    pub fn scope(&self) -> (scope: Option<&str>)
        ensures
            scope is Some <==> self@.scope is Some,
            scope is Some ==> scope->0@ == self@.scope->0,
    {
        match &self.scope {
            Some(s) => Some(s.as_str()),
            None => None,
        }
    }

    /// The declared lifetime in seconds.
    pub fn expires_in(&self) -> (seconds: u64)
        ensures
            seconds == self@.expires_in,
    {
        self.expires_in
    }

    /// The instant at which the credential was created.
    pub fn created_at(&self) -> (instant: u64)
        ensures
            instant == self@.created_at,
    {
        self.created_at
    }
}

/// A credential is fresh until fewer than 300 seconds of its lifetime are
/// left. With a lifetime of at least the margin it is not expired when it is
/// created, nor while the time passed stays at or below the lifetime less
/// 300 seconds; from the next millisecond on it is expired.
pub proof fn lemma_expiry_boundary(created_at: u64, expires_in: u64, now: u64)
    requires
        expires_in >= EXPIRY_MARGIN_SECS,
        now >= created_at,
    ensures
        !expired_at(created_at, expires_in, created_at),
        now - created_at <= (expires_in - 300) * 1000 <==> !expired_at(
            created_at,
            expires_in,
            now,
        ),
{
}

/// Expiry never reverts: a credential that is expired at one instant is
/// expired at every later one.
pub proof fn lemma_expiry_is_final(created_at: u64, expires_in: u64, now: u64, later: u64)
    requires
        now <= later,
        expired_at(created_at, expires_in, now),
    ensures
        expired_at(created_at, expires_in, later),
{
}

/// Represents a media item in Podbean.
#[derive(Debug)]
pub struct MediaItem {
    /// Unique identifier for the media
    pub media_key: String,
    /// Title of the media
    pub title: String,
    /// Description or content
    pub content: String,
    /// Status (e.g., "finished", "transcoding")
    pub status: String,
    /// URL to the media file
    pub media_url: String,
    /// URL to the logo/artwork
    pub logo_url: Option<String>,
    /// URL to play the media
    pub player_url: Option<String>,
    /// When the media was published
    pub publish_time: Option<String>,
    /// When the media was created
    pub created_at: String,
    /// Duration in seconds
    pub duration: Option<u64>,
}

/// Response for a list of media items.
#[derive(Debug)]
pub struct MediaListResponse {
    /// Total number of media items
    pub count: u32,
    /// List of media items
    pub media: Vec<MediaItem>,
}

/// Represents a podcast episode.
#[derive(Debug)]
pub struct Episode {
    /// Unique identifier for the episode
    pub id: String,
    /// Unique identifier for the podcast
    pub podcast_id: String,
    /// Episode title
    pub title: String,
    /// Episode description or show notes
    pub content: String,
    /// Media URL for the episode
    pub media_url: String,
    /// URL to play the episode
    pub player_url: String,
    /// Permalink URL for the episode
    pub permalink_url: String,
    /// When the episode was published
    pub publish_time: u64,
    /// Duration in seconds
    pub duration: Option<u64>,
    /// Publication status (e.g., "published", "draft")
    pub status: String,
    /// Type of episode (e.g., "public", "premium")
    pub episode_type: String,
    /// URL to the transcript
    pub transcripts_url: Option<String>,
}

impl Default for Episode {
    fn default() -> (episode: Episode)
        ensures
            episode.id@.len() == 0,
            episode.podcast_id@.len() == 0,
            episode.title@.len() == 0,
            episode.content@.len() == 0,
            episode.media_url@.len() == 0,
            episode.player_url@.len() == 0,
            episode.permalink_url@.len() == 0,
            episode.publish_time == 0,
            episode.duration is None,
            episode.status@.len() == 0,
            episode.episode_type@.len() == 0,
            episode.transcripts_url is None,
    {
        Episode {
            id: String::new(),
            podcast_id: String::new(),
            title: String::new(),
            content: String::new(),
            media_url: String::new(),
            player_url: String::new(),
            permalink_url: String::new(),
            publish_time: 0,
            duration: None,
            status: String::new(),
            episode_type: String::new(),
            transcripts_url: None,
        }
    }
}

/// Response for a list of episodes.
#[derive(Debug)]
pub struct EpisodeListResponse {
    /// Total number of episodes
    pub count: u32,
    /// List of episodes
    pub episodes: Vec<Episode>,
}

/// Represents a podcast.
#[derive(Debug)]
pub struct Podcast {
    /// Unique identifier for the podcast
    pub podcast_id: String,
    /// Podcast title
    pub title: String,
    /// Podcast description
    pub description: String,
    /// URL to the podcast logo/artwork
    pub logo: String,
    /// URL to the podcast page
    pub url: String,
    /// Primary category
    pub category: String,
    /// Secondary category
    pub subcategory: Option<String>,
}

/// Response for a list of podcasts.
#[derive(Debug)]
pub struct PodcastListResponse {
    /// Total number of podcasts
    pub count: u32,
    /// List of podcasts
    pub podcasts: Vec<Podcast>,
}

/// Represents a episode type.
#[derive(Debug, Clone, Copy, PartialEq, Eq)]
pub enum EpisodeType {
    /// Public episode
    Public,
    /// Premium episode
    Premium,
    /// Private episode
    Private,
}

impl EpisodeType {
    /// The value that stands for this type on the wire.
    pub open spec fn wire(self) -> Seq<char> {
        match self {
            EpisodeType::Public => "public"@,
            EpisodeType::Premium => "premium"@,
            EpisodeType::Private => "private"@,
        }
    }

    /// The value that stands for this type on the wire.
    pub fn as_str(&self) -> (text: &'static str)
        ensures
            text@ == self.wire(),
    {
        match self {
            EpisodeType::Public => "public",
            EpisodeType::Premium => "premium",
            EpisodeType::Private => "private",
        }
    }

    /// The wire value as an owned string.
    pub fn to_string(&self) -> (text: String)
        ensures
            text@ == self.wire(),
    {
        String::from_str(self.as_str())
    }
}

/// Episode status
#[derive(Debug, Clone, Copy, PartialEq, Eq)]
pub enum EpisodeStatus {
    /// Publish episode
    Publish,
    /// Draft episode
    Draft,
    /// Future episode
    Future,
}

impl EpisodeStatus {
    /// The value that stands for this status on the wire.
    pub open spec fn wire(self) -> Seq<char> {
        match self {
            EpisodeStatus::Publish => "publish"@,
            EpisodeStatus::Draft => "draft"@,
            EpisodeStatus::Future => "future"@,
        }
    }

    /// The value that stands for this status on the wire.
    pub fn as_str(&self) -> (text: &'static str)
        ensures
            text@ == self.wire(),
    {
        match self {
            EpisodeStatus::Publish => "publish",
            EpisodeStatus::Draft => "draft",
            EpisodeStatus::Future => "future",
        }
    }

    /// The wire value as an owned string.
    pub fn to_string(&self) -> (text: String)
        ensures
            text@ == self.wire(),
    {
        String::from_str(self.as_str())
    }
}

/// Audio format for media files.
#[derive(Debug, Clone, Copy, PartialEq, Eq)]
pub enum MediaFormat {
    /// MP3 audio format
    Mp3,
    /// M4A audio format
    M4a,
    /// OGG audio format
    Ogg,
}

impl MediaFormat {
    /// The MIME type that stands for this format on the wire.
    pub open spec fn wire(self) -> Seq<char> {
        match self {
            MediaFormat::Mp3 => "audio/mp3"@,
            MediaFormat::M4a => "audio/m4a"@,
            MediaFormat::Ogg => "audio/ogg"@,
        }
    }

    /// The MIME type that stands for this format on the wire.
    pub fn as_str(&self) -> (text: &'static str)
        ensures
            text@ == self.wire(),
    {
        match self {
            MediaFormat::Mp3 => "audio/mp3",
            MediaFormat::M4a => "audio/m4a",
            MediaFormat::Ogg => "audio/ogg",
        }
    }

    /// The MIME type as an owned string.
    pub fn to_string(&self) -> (text: String)
        ensures
            text@ == self.wire(),
    {
        String::from_str(self.as_str())
    }
}

} // verus!
