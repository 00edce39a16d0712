//! The URL that a user visits to authorize the application. The URL
//! syntax and its encoding are the `url` crate's.

use crate::error::PodbeanError;
use crate::request::{pairs_view, push_pair, PairsView};
use crate::types::opt_str;
use vstd::prelude::*;
use vstd::string::*;
use vstd::utf8::encode_utf8;

verus! {

/// Most bytes of text that are handed to the `url` crate for one URL. The
/// crate addresses a URL with 32 bits; input of this size stays far below
/// that when it is encoded.
pub const MAX_URL_INPUT_BYTES: usize = 0x0FFF_FFFF;

/// The number of bytes that `text` takes in UTF-8.
pub open spec fn text_bytes(text: Seq<char>) -> nat {
    encode_utf8(text).len()
}

/// The number of bytes that the names and values of `pairs` take together.
pub open spec fn pairs_bytes(pairs: PairsView) -> nat
    decreases pairs.len(),
{
    if pairs.len() == 0 {
        0
    } else {
        pairs_bytes(pairs.drop_last()) + text_bytes(pairs.last().0) + text_bytes(pairs.last().1)
    }
}

/// Whether `base` and `pairs` together are short enough to make a URL of.
pub open spec fn url_input_fits(base: Seq<char>, pairs: PairsView) -> bool {
    text_bytes(base) + pairs_bytes(pairs) <= MAX_URL_INPUT_BYTES
}

/// The URL that the `url` crate makes of `base` and of `pairs`, appended to
/// its query string as name/value pairs: `None` where it does not take
/// `base` for an absolute URL.
pub uninterp spec fn url_with_query(base: Seq<char>, pairs: PairsView) -> Option<Seq<char>>;

/// Parses `base` with `url::Url::parse`, appends `pairs` to the query
/// string with `Serializer::extend_pairs` on `Url::query_pairs_mut`, and
/// takes the URL's text. The result depends on `base` and on the texts of
/// `pairs` alone; it is the parser's error where `base` is refused. The
/// crate stops on a URL beyond 4 GiB, which input within the limit cannot
/// make.
#[verifier::external_body]
pub(crate) fn build_url(base: &str, pairs: &Vec<(String, String)>) -> (built: Result<
    String,
    url::ParseError,
>)
    requires
        url_input_fits(base@, pairs_view(pairs@)),
    ensures
        built matches Ok(text) ==> url_with_query(base@, pairs_view(pairs@)) == Some(text@),
        built is Err ==> url_with_query(base@, pairs_view(pairs@)) is None,
{
    let mut url = url::Url::parse(base)?;
    url.query_pairs_mut().extend_pairs(pairs.iter());
    Ok(String::from(url))
}

/// `url::ParseError::Overflow`, the error with which the `url` crate
/// refuses a URL that is too long for it.
#[verifier::external_body]
fn too_long() -> (err: url::ParseError) {
    url::ParseError::Overflow
}

proof fn lemma_pairs_bytes_prefix(pairs: PairsView, k: int)
    requires
        0 <= k <= pairs.len(),
    ensures
        pairs_bytes(pairs.take(k)) <= pairs_bytes(pairs),
    decreases pairs.len() - k,
{
    if k == pairs.len() {
        assert(pairs.take(k) =~= pairs);
    } else {
        lemma_pairs_bytes_prefix(pairs, k + 1);
        assert(pairs.take(k + 1).drop_last() =~= pairs.take(k));
    }
}

/// Whether `base` and `pairs` together are short enough to make a URL of.
pub fn input_fits(base: &str, pairs: &Vec<(String, String)>) -> (fits: bool)
    ensures
        fits == url_input_fits(base@, pairs_view(pairs@)),
{
    let ghost all = pairs_view(pairs@);
    let mut total: usize = base.as_bytes().len();
    if total > MAX_URL_INPUT_BYTES {
        return false;
    }
    let mut i: usize = 0;
    assert(all.take(0) =~= Seq::empty());
    while i < pairs.len()
        invariant
            i <= pairs.len(),
            all == pairs_view(pairs@),
            total == text_bytes(base@) + pairs_bytes(all.take(i as int)),
            total <= MAX_URL_INPUT_BYTES,
        decreases pairs.len() - i,
    {
        let name_len = pairs[i].0.as_str().as_bytes().len();
        let value_len = pairs[i].1.as_str().as_bytes().len();
        proof {
            assert(all.take(i + 1).drop_last() =~= all.take(i as int));
            assert(all.take(i + 1).last() == all[i as int]);
            lemma_pairs_bytes_prefix(all, i + 1);
        }
        if name_len > MAX_URL_INPUT_BYTES - total {
            return false;
        }
        total = total + name_len;
        if value_len > MAX_URL_INPUT_BYTES - total {
            return false;
        }
        total = total + value_len;
        i = i + 1;
    }
    assert(all.take(i as int) =~= all);
    true
}

/// The query parameters of the authorization URL, in their order.
pub open spec fn authorization_pairs(
    client_id: Seq<char>,
    redirect_uri: Seq<char>,
    state: Option<Seq<char>>,
) -> PairsView {
    let fixed = seq![
        ("response_type"@, "code"@),
        ("client_id"@, client_id),
        ("redirect_uri"@, redirect_uri),
    ];
    match state {
        Some(value) => fixed.push(("state"@, value)),
        None => fixed,
    }
}

/// The authorization URL below `base_url` for these inputs, `None` where
/// `base_url` is malformed or the inputs are too long for a URL.
pub open spec fn authorization_url(
    base_url: Seq<char>,
    client_id: Seq<char>,
    redirect_uri: Seq<char>,
    state: Option<Seq<char>>,
) -> Option<Seq<char>> {
    let base = base_url + "/dialog/oauth"@;
    let pairs = authorization_pairs(client_id, redirect_uri, state);
    if url_input_fits(base, pairs) {
        url_with_query(base, pairs)
    } else {
        None
    }
}

/// The query parameters of the authorization URL: the response type, the
/// client, where to come back to, and the caller's state if there is one.
pub fn authorization_params(client_id: &str, redirect_uri: &str, state: Option<&str>) -> (pairs:
    Vec<(String, String)>)
    ensures
        pairs_view(pairs@) == authorization_pairs(
            client_id@,
            redirect_uri@,
            opt_str(state),
        ),
{
    let mut pairs: Vec<(String, String)> = Vec::new();
    assert(pairs_view(pairs@) =~= Seq::empty());
    push_pair(&mut pairs, "response_type", String::from_str("code"));
    push_pair(&mut pairs, "client_id", String::from_str(client_id));
    push_pair(&mut pairs, "redirect_uri", String::from_str(redirect_uri));
    assert(pairs_view(pairs@) =~= seq![
        ("response_type"@, "code"@),
        ("client_id"@, client_id@),
        ("redirect_uri"@, redirect_uri@),
    ]);
    match state {
        Some(value) => {
            push_pair(&mut pairs, "state", String::from_str(value));
        },
        None => {},
    }
    pairs
}

/// Generates the authorization URL below `base_url`: users visit it to
/// let the application into their account.
///
/// The same inputs give the same URL, character for character. The only
/// failure is a `base_url` that is no absolute URL, or inputs of a length
/// that no URL can have.
pub fn build_authorization_url(
    base_url: &str,
    client_id: &str,
    redirect_uri: &str,
    state: Option<&str>,
) -> (built: Result<String, PodbeanError>)
    ensures
        built matches Ok(url) ==> authorization_url(
            base_url@,
            client_id@,
            redirect_uri@,
            opt_str(state),
        ) == Some(url@),
        built matches Err(error) ==> error@ is UrlParse && authorization_url(
            base_url@,
            client_id@,
            redirect_uri@,
            opt_str(state),
        ) is None,
{
    let mut base = String::from_str(base_url);
    base.append("/dialog/oauth");
    let pairs = authorization_params(client_id, redirect_uri, state);
    if !input_fits(base.as_str(), &pairs) {
        return Err(PodbeanError::UrlParseError(too_long()));
    }
    match build_url(base.as_str(), &pairs) {
        Ok(url) => Ok(url),
        Err(err) => Err(PodbeanError::UrlParseError(err)),
    }
}

} // verus!
