//! Fetching a user's recent original posts: the call to the search service
//! and what its reply amounts to.

use crate::config::{Config, Credential};
use crate::decimal::{decimal, push_decimal};
use crate::error::{ServiceError, Upstream};
use crate::http::{bearer, decode_reply, decoded_reply, Reply, BEARER_PREFIX, CONTENT_TYPE_JSON};
use crate::models::{Tweet, TwitterApiResponse};
use vstd::prelude::*;
use vstd::string::*;
use vstd::utf8::encode_utf8;

verus! {

/// The smallest number of posts that the search service lets one ask for.
pub const MIN_RESULTS: u8 = 10;

/// The largest number of posts that the search service lets one ask for.
pub const MAX_RESULTS: u8 = 100;

/// What stands before the author's name in a search query.
pub const QUERY_AUTHOR: &'static str = "from:";

/// Replies, reposts and quotes are no original posts.
pub const QUERY_ORIGINAL_ONLY: &'static str = " -is:reply -is:retweet -is:quote";

/// The address of the search for recent posts, up to the query.
pub const SEARCH_ENDPOINT: &'static str = "https://api.x.com/2/tweets/search/recent?query=";

/// What stands before the number of posts asked for.
pub const MAX_RESULTS_PARAMETER: &'static str = "&max_results=";

/// The fields asked for beside a post's text: when it was made, and its
/// counters.
pub const FIELDS_PARAMETER: &'static str = "&tweet.fields=created_at,public_metrics";

/// `max` brought into the range that the search service accepts.
pub open spec fn clamped(max: u8) -> u8 {
    if max < MIN_RESULTS {
        MIN_RESULTS
    } else if max > MAX_RESULTS {
        MAX_RESULTS
    } else {
        max
    }
}

/// Raises a `max` below 10 to 10 and caps one above 100 at 100.
pub fn clamp_max_results(max: u8) -> (r: u8)
    ensures
        r == clamped(max),
        max < 10 ==> r == 10,
        max > 100 ==> r == 100,
        10 <= max <= 100 ==> r == max,
{
    if max < MIN_RESULTS {
        MIN_RESULTS
    } else if max > MAX_RESULTS {
        MAX_RESULTS
    } else {
        max
    }
}

/// A byte that stands for itself in a percent-encoded text: an ASCII
/// letter or digit, or one of `-`, `.`, `_` and `~`.
pub open spec fn is_unreserved(byte: u8) -> bool {
    ||| 0x30 <= byte <= 0x39
    ||| 0x41 <= byte <= 0x5a
    ||| 0x61 <= byte <= 0x7a
    ||| byte == 0x2d
    ||| byte == 0x2e
    ||| byte == 0x5f
    ||| byte == 0x7e
}

/// The upper-case hexadecimal digit for `nibble`.
pub open spec fn hex_digit(nibble: u8) -> char
    recommends
        nibble < 16,
{
    if nibble < 10 {
        (0x30 + nibble) as u8 as char
    } else {
        (0x41 + nibble - 10) as u8 as char
    }
}

/// `bytes` percent-encoded: an unreserved byte stands for itself, every
/// other byte becomes `%` and its two hexadecimal digits.
pub open spec fn percent_encoded(bytes: Seq<u8>) -> Seq<char>
    decreases bytes.len(),
{
    if bytes.len() == 0 {
        Seq::empty()
    } else {
        let byte = bytes.last();
        let before = percent_encoded(bytes.drop_last());
        if is_unreserved(byte) {
            before.push(byte as char)
        } else {
            before + seq!['%', hex_digit(byte / 16), hex_digit(byte % 16)]
        }
    }
}

/// `urlencoding::encode` percent-encodes every byte of the text's UTF-8
/// form except ASCII letters and digits and `-`, `_`, `.`, `~`, with
/// upper-case hexadecimal digits.
#[verifier::external_body]
fn url_encode(text: &str) -> (r: String)
    ensures
        r@ == percent_encoded(encode_utf8(text@)),
{
    urlencoding::encode(text).into_owned()
}

/// The search query for the original posts of `username`.
pub open spec fn query_for(username: Seq<char>) -> Seq<char> {
    QUERY_AUTHOR@ + username + QUERY_ORIGINAL_ONLY@
}

/// The address that returns up to `max_results` recent original posts of
/// `username`.
pub open spec fn search_url_for(username: Seq<char>, max_results: u8) -> Seq<char> {
    SEARCH_ENDPOINT@ + percent_encoded(encode_utf8(query_for(username)))
        + MAX_RESULTS_PARAMETER@ + decimal(max_results as nat) + FIELDS_PARAMETER@
}

/// The query that finds the original posts of `username`.
pub fn search_query(username: &str) -> (query: String)
    ensures
        query@ == query_for(username@),
{
    let mut query = QUERY_AUTHOR.to_string();
    query.append(username);
    query.append(QUERY_ORIGINAL_ONLY);
    query
}

/// The address to fetch from. `max` is clamped before it is written into
/// the address.
pub fn search_url(username: &str, max: u8) -> (url: String)
    ensures
        url@ == search_url_for(username@, clamped(max)),
{
    let query = search_query(username);
    let encoded = url_encode(query.as_str());
    let mut url = SEARCH_ENDPOINT.to_string();
    url.append(encoded.as_str());
    url.append(MAX_RESULTS_PARAMETER);
    push_decimal(&mut url, clamp_max_results(max) as u64);
    url.append(FIELDS_PARAMETER);
    url
}

/// One call to the search service: a GET of `url`.
#[derive(Debug)]
pub struct SearchCall {
    pub url: String,
    pub authorization: String,
    pub content_type: String,
}

/// A `SearchCall` with its strings as sequences of characters.
pub struct SearchCallView {
    pub url: Seq<char>,
    pub authorization: Seq<char>,
    pub content_type: Seq<char>,
}

impl View for SearchCall {
    type V = SearchCallView;

    open spec fn view(&self) -> SearchCallView {
        SearchCallView {
            url: self.url@,
            authorization: self.authorization@,
            content_type: self.content_type@,
        }
    }
}

/// The call that fetches up to `max` (clamped) recent original posts of
/// `username`, authorized by `token`.
pub open spec fn search_call_for(token: Seq<char>, username: Seq<char>, max: u8) -> SearchCallView {
    SearchCallView {
        url: search_url_for(username, clamped(max)),
        authorization: bearer(token),
        content_type: CONTENT_TYPE_JSON@,
    }
}

/// Plans the call that fetches the posts of `username`. It fails, with
/// nothing to send, exactly where the configuration holds no bearer token.
pub fn search_call(config: &Config, username: &str, max: u8) -> (r: Result<
    SearchCall,
    ServiceError,
>)
    ensures
        match config.bearer_token {
            Some(token) => r matches Ok(call) && call@ == search_call_for(token@, username@, max),
            None => r == Err::<SearchCall, ServiceError>(
                ServiceError::ConfigError { missing: Credential::BearerToken },
            ),
        },
{
    match &config.bearer_token {
        None => Err(ServiceError::ConfigError { missing: Credential::BearerToken }),
        Some(token) => {
            let mut authorization = BEARER_PREFIX.to_string();
            authorization.append(token.as_str());
            Ok(
                SearchCall {
                    url: search_url(username, max),
                    authorization,
                    content_type: CONTENT_TYPE_JSON.to_string(),
                },
            )
        },
    }
}

/// What the search service's reply amounts to: the posts it brought, or
/// the failure it stands for. An answer without posts is a failure too.
pub open spec fn fetched_tweets(reply: Reply<TwitterApiResponse>) -> Result<
    Vec<Tweet>,
    ServiceError,
> {
    match decoded_reply(Upstream::Search, reply) {
        Err(error) => Err(error),
        Ok(response) => if response.data@.len() == 0 {
            Err(ServiceError::EmptyResultError)
        } else {
            Ok(response.data)
        },
    }
}

/// Reads the search service's reply. The posts come back in the order in
/// which the service gave them; a reply that decoded but holds no post
/// fails with `EmptyResultError`.
pub fn fetch_original_tweets(reply: Reply<TwitterApiResponse>) -> (r: Result<
    Vec<Tweet>,
    ServiceError,
>)
    ensures
        r == fetched_tweets(reply),
        r matches Ok(tweets) ==> tweets@.len() > 0,
        reply matches Reply::Decoded { value } && value.data@.len() == 0 ==> r == Err::<
            Vec<Tweet>,
            ServiceError,
        >(ServiceError::EmptyResultError),
{
    match decode_reply(Upstream::Search, reply) {
        Err(error) => Err(error),
        Ok(response) => if response.data.len() == 0 {
            Err(ServiceError::EmptyResultError)
        } else {
            Ok(response.data)
        },
    }
}

} // verus!
