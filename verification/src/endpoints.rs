//! The calls of the API's resource endpoints: which method, which path and
//! which parameters each one takes, and what is read from its answer
//! where the answer has no type of its own.

use crate::client::PodbeanClient;
use crate::error::{result_view, ErrorView, PodbeanError};
use crate::json::{check_json, json_string_at, json_text_at, json_well_formed};
use crate::request::{pairs_view, push_pair, ApiCall, CallView, HttpMethod, PairsView};
use crate::text::{decimal, decimal_string, signed_decimal, signed_decimal_string};
use crate::types::{opt_str, opt_text, EpisodeStatus, EpisodeType};
use vstd::prelude::*;
use vstd::string::*;

verus! {

/// A call with parameters.
pub open spec fn call_of(method: HttpMethod, endpoint: Seq<char>, params: PairsView) -> CallView {
    CallView { method, endpoint, params: Some(params) }
}

/// `params`, followed by the parameter `name` where it has a value.
pub open spec fn with_param(params: PairsView, name: Seq<char>, value: Option<Seq<char>>) -> PairsView {
    match value {
        Some(text) => params.push((name, text)),
        None => params,
    }
}

/// The decimal numeral of an optional count.
pub open spec fn opt_decimal(value: Option<u32>) -> Option<Seq<char>> {
    match value {
        Some(n) => Some(decimal(n as nat)),
        None => None,
    }
}

/// The decimal numeral of an optional timestamp.
pub open spec fn opt_signed_decimal(value: Option<i64>) -> Option<Seq<char>> {
    match value {
        Some(n) => Some(signed_decimal(n as int)),
        None => None,
    }
}

/// The paging parameters of a list call.
pub open spec fn paging(offset: Option<u32>, limit: Option<u32>) -> PairsView {
    with_param(
        with_param(Seq::empty(), "offset"@, opt_decimal(offset)),
        "limit"@,
        opt_decimal(limit),
    )
}

/// The parameters with which an episode is published.
pub open spec fn publish_params(
    podcast_id: Seq<char>,
    title: Seq<char>,
    content: Seq<char>,
    media_key: Seq<char>,
    status: EpisodeStatus,
    episode_type: EpisodeType,
    publish_timestamp: Option<i64>,
) -> PairsView {
    with_param(
        seq![
            ("podcast_id"@, podcast_id),
            ("title"@, title),
            ("content"@, content),
            ("media_key"@, media_key),
            ("status"@, status.wire()),
            ("type"@, episode_type.wire()),
        ],
        "publish_timestamp"@,
        opt_signed_decimal(publish_timestamp),
    )
}

/// The parameters with which an episode is updated: its id, and each
/// field that is to change.
pub open spec fn update_params(
    episode_id: Seq<char>,
    title: Option<Seq<char>>,
    content: Option<Seq<char>>,
    status: Option<Seq<char>>,
    publish_timestamp: Option<i64>,
) -> PairsView {
    with_param(
        with_param(
            with_param(with_param(seq![("id"@, episode_id)], "title"@, title), "content"@, content),
            "status"@,
            status,
        ),
        "publish_timestamp"@,
        opt_signed_decimal(publish_timestamp),
    )
}

/// What is read from a success body that has to hold a string at the JSON
/// pointer `pointer`: the string, a decode failure where the body is no
/// JSON document, and an error with the detail `missing` where the
/// document holds no string there.
pub open spec fn field_read(
    body: Seq<u8>,
    pointer: Seq<char>,
    missing: Seq<char>,
    read: Result<Seq<char>, ErrorView>,
) -> bool {
    if !json_well_formed(body) {
        read matches Err(ErrorView::Serialization(_))
    } else {
        read == required(json_text_at(body, pointer), missing)
    }
}

/// The field that was found, or an error with the detail `missing`.
pub open spec fn required(found: Option<Seq<char>>, missing: Seq<char>) -> Result<
    Seq<char>,
    ErrorView,
> {
    match found {
        Some(text) => Ok(text),
        None => Err(ErrorView::Other(missing)),
    }
}

/// Appends the parameter `name` to `params` where it has a value.
pub fn push_optional(params: &mut Vec<(String, String)>, name: &str, value: Option<String>)
    ensures
        pairs_view(final(params)@) == with_param(
            pairs_view(old(params)@),
            name@,
            opt_text(value),
        ),
{
    match value {
        Some(text) => {
            push_pair(params, name, text);
        },
        None => {},
    }
}

/// The paging parameters of a list call, appended to `params`.
fn push_paging(params: &mut Vec<(String, String)>, offset: Option<u32>, limit: Option<u32>)
    ensures
        pairs_view(final(params)@) == with_param(
            with_param(pairs_view(old(params)@), "offset"@, opt_decimal(offset)),
            "limit"@,
            opt_decimal(limit),
        ),
{
    let offset_text = match offset {
        Some(n) => Some(decimal_string(n as u64)),
        None => None,
    };
    push_optional(params, "offset", offset_text);
    let limit_text = match limit {
        Some(n) => Some(decimal_string(n as u64)),
        None => None,
    };
    push_optional(params, "limit", limit_text);
}

/// An optional string slice as an owned string.
fn owned(text: Option<&str>) -> (made: Option<String>)
    ensures
        opt_text(made) == opt_str(text),
{
    match text {
        Some(s) => Some(String::from_str(s)),
        None => None,
    }
}

/// An optional timestamp as its decimal numeral.
fn timestamp_text(timestamp: Option<i64>) -> (made: Option<String>)
    ensures
        opt_text(made) == opt_signed_decimal(timestamp),
{
    match timestamp {
        Some(n) => Some(signed_decimal_string(n)),
        None => None,
    }
}

/// The field that was found in a body, or the error that says that it is
/// missing.
pub fn require_field(found: Option<String>, missing: &str) -> (field: Result<String, PodbeanError>)
    ensures
        result_view(field) == required(opt_text(found), missing@),
{
    match found {
        Some(text) => Ok(text),
        None => Err(PodbeanError::OtherError(String::from_str(missing))),
    }
}

/// Reads the string at `pointer` from a success body.
pub(crate) fn read_field(body: &[u8], pointer: &str, missing: &str) -> (field: Result<
    String,
    PodbeanError,
>)
    ensures
        field_read(body@, pointer@, missing@, result_view(field)),
{
    match check_json(body) {
        Err(err) => Err(PodbeanError::SerializationError(err)),
        Ok(_) => require_field(json_string_at(body, pointer), missing),
    }
}

impl PodbeanClient {
    /// Publishes a new episode to a podcast: the call that does so. The
    /// episode's id is read from the answer by
    /// [`PodbeanClient::published_episode_id`].
    ///
    /// # Arguments
    ///
    /// * `podcast_id` - The ID of the podcast to publish to
    /// * `title` - The title of the episode
    /// * `content` - The description or show notes for the episode
    /// * `media_key` - The media key returned from `upload_media`
    /// * `status` - Publication status: "publish", "draft", or "future"
    /// * `episode_type` - "public", "premium" or "private"
    /// * `publish_timestamp` - The publishing timestamp of the episode; the
    ///   server takes the current time where it is not set
    pub fn publish_episode(
        &self,
        podcast_id: &str,
        title: &str,
        content: &str,
        media_key: &str,
        status: EpisodeStatus,
        episode_type: EpisodeType,
        publish_timestamp: Option<i64>,
    ) -> (call: ApiCall)
        ensures
            call@ == call_of(
                HttpMethod::Post,
                "/episodes"@,
                publish_params(
                    podcast_id@,
                    title@,
                    content@,
                    media_key@,
                    status,
                    episode_type,
                    publish_timestamp,
                ),
            ),
    {
        let mut params: Vec<(String, String)> = Vec::new();
        assert(pairs_view(params@) =~= Seq::empty());
        push_pair(&mut params, "podcast_id", String::from_str(podcast_id));
        push_pair(&mut params, "title", String::from_str(title));
        push_pair(&mut params, "content", String::from_str(content));
        push_pair(&mut params, "media_key", String::from_str(media_key));
        push_pair(&mut params, "status", status.to_string());
        push_pair(&mut params, "type", episode_type.to_string());
        assert(pairs_view(params@) =~= seq![
            ("podcast_id"@, podcast_id@),
            ("title"@, title@),
            ("content"@, content@),
            ("media_key"@, media_key@),
            ("status"@, status.wire()),
            ("type"@, episode_type.wire()),
        ]);
        push_optional(&mut params, "publish_timestamp", timestamp_text(publish_timestamp));
        ApiCall {
            method: HttpMethod::Post,
            endpoint: String::from_str("/episodes"),
            params: Some(params),
        }
    }

    /// The id of the episode that was published, from the body of the
    /// answer to [`PodbeanClient::publish_episode`].
    pub fn published_episode_id(body: &[u8]) -> (id: Result<String, PodbeanError>)
        ensures
            field_read(
                body@,
                "/episode/id"@,
                "Missing episode ID in response"@,
                result_view(id),
            ),
    {
        read_field(body, "/episode/id", "Missing episode ID in response")
    }

    /// Gets information about a specific episode: the call that does so.
    ///
    /// # Arguments
    ///
    /// * `episode_id` - The ID of the episode to retrieve
    pub fn get_episode(&self, episode_id: &str) -> (call: ApiCall)
        ensures
            call@ == call_of(HttpMethod::Get, "/episodes/one"@, seq![("id"@, episode_id@)]),
    {
        let mut params: Vec<(String, String)> = Vec::new();
        assert(pairs_view(params@) =~= Seq::empty());
        push_pair(&mut params, "id", String::from_str(episode_id));
        assert(pairs_view(params@) =~= seq![("id"@, episode_id@)]);
        ApiCall {
            method: HttpMethod::Get,
            endpoint: String::from_str("/episodes/one"),
            params: Some(params),
        }
    }

    /// Lists episodes from a podcast: the call that does so.
    ///
    /// # Arguments
    ///
    /// * `podcast_id` - Optional podcast ID to filter episodes
    /// * `offset` - Optional pagination offset
    /// * `limit` - Optional number of episodes to return
    pub fn list_episodes(&self, podcast_id: Option<&str>, offset: Option<u32>, limit: Option<u32>) -> (call:
        ApiCall)
        ensures
            call@ == call_of(
                HttpMethod::Get,
                "/episodes"@,
                with_param(
                    with_param(
                        with_param(Seq::empty(), "podcast_id"@, opt_str(podcast_id)),
                        "offset"@,
                        opt_decimal(offset),
                    ),
                    "limit"@,
                    opt_decimal(limit),
                ),
            ),
    {
        let mut params: Vec<(String, String)> = Vec::new();
        assert(pairs_view(params@) =~= Seq::empty());
        push_optional(&mut params, "podcast_id", owned(podcast_id));
        push_paging(&mut params, offset, limit);
        ApiCall {
            method: HttpMethod::Get,
            endpoint: String::from_str("/episodes"),
            params: Some(params),
        }
    }

    /// Updates an existing episode: the call that does so. Fields without
    /// a value stay as they are.
    ///
    /// # Arguments
    ///
    /// * `episode_id` - The ID of the episode to update
    /// * `title` - Optional new title
    /// * `content` - Optional new content/description
    /// * `status` - Optional new status
    /// * `publish_timestamp` - Optional new publication timestamp
    pub fn update_episode(
        &self,
        episode_id: &str,
        title: Option<&str>,
        content: Option<&str>,
        status: Option<&str>,
        publish_timestamp: Option<i64>,
    ) -> (call: ApiCall)
        ensures
            call@ == call_of(
                HttpMethod::Put,
                "/episodes"@,
                update_params(
                    episode_id@,
                    opt_str(title),
                    opt_str(content),
                    opt_str(status),
                    publish_timestamp,
                ),
            ),
    {
        let mut params: Vec<(String, String)> = Vec::new();
        assert(pairs_view(params@) =~= Seq::empty());
        push_pair(&mut params, "id", String::from_str(episode_id));
        assert(pairs_view(params@) =~= seq![("id"@, episode_id@)]);
        push_optional(&mut params, "title", owned(title));
        push_optional(&mut params, "content", owned(content));
        push_optional(&mut params, "status", owned(status));
        push_optional(&mut params, "publish_timestamp", timestamp_text(publish_timestamp));
        ApiCall {
            method: HttpMethod::Put,
            endpoint: String::from_str("/episodes"),
            params: Some(params),
        }
    }

    /// Deletes an episode: the call that does so.
    ///
    /// # Arguments
    ///
    /// * `episode_id` - The ID of the episode to delete
    pub fn delete_episode(&self, episode_id: &str) -> (call: ApiCall)
        ensures
            call@ == call_of(HttpMethod::Delete, "/episodes"@, seq![("id"@, episode_id@)]),
    {
        let mut params: Vec<(String, String)> = Vec::new();
        assert(pairs_view(params@) =~= Seq::empty());
        push_pair(&mut params, "id", String::from_str(episode_id));
        assert(pairs_view(params@) =~= seq![("id"@, episode_id@)]);
        ApiCall {
            method: HttpMethod::Delete,
            endpoint: String::from_str("/episodes"),
            params: Some(params),
        }
    }

    /// Takes the body of the answer to an update or a delete, of which
    /// nothing is read: it has to be a JSON document all the same.
    pub fn acknowledged(body: &[u8]) -> (done: Result<(), PodbeanError>)
        ensures
            done is Ok <==> json_well_formed(body@),
            done matches Err(error) ==> error@ is Serialization,
    {
        match check_json(body) {
            Ok(_) => Ok(()),
            Err(err) => Err(PodbeanError::SerializationError(err)),
        }
    }

    /// Lists podcasts for the authenticated user: the call that does so.
    ///
    /// # Arguments
    ///
    /// * `offset` - Optional pagination offset
    /// * `limit` - Optional number of podcasts to return
    pub fn list_podcasts(&self, offset: Option<u32>, limit: Option<u32>) -> (call: ApiCall)
        ensures
            call@ == call_of(HttpMethod::Get, "/podcasts"@, paging(offset, limit)),
    {
        let mut params: Vec<(String, String)> = Vec::new();
        assert(pairs_view(params@) =~= Seq::empty());
        push_paging(&mut params, offset, limit);
        ApiCall {
            method: HttpMethod::Get,
            endpoint: String::from_str("/podcasts"),
            params: Some(params),
        }
    }

    /// Lists media files for the authenticated user: the call that does so.
    ///
    /// # Arguments
    ///
    /// * `offset` - Optional pagination offset
    /// * `limit` - Optional number of media files to return
    pub fn list_media(&self, offset: Option<u32>, limit: Option<u32>) -> (call: ApiCall)
        ensures
            call@ == call_of(HttpMethod::Get, "/medias"@, paging(offset, limit)),
    {
        let mut params: Vec<(String, String)> = Vec::new();
        assert(pairs_view(params@) =~= Seq::empty());
        push_paging(&mut params, offset, limit);
        ApiCall {
            method: HttpMethod::Get,
            endpoint: String::from_str("/medias"),
            params: Some(params),
        }
    }
}

} // verus!
