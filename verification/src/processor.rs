//! Folding a user's posts into one text: a header line that names the
//! user, then each post's cleaned text, a blank line between them.

use crate::cleaner::{clean_tweet_text, cleaned, without_links};
use crate::error::ServiceError;
use crate::fetcher::{fetch_original_tweets, fetched_tweets};
use crate::http::Reply;
use crate::models::{texts_of, ProcessedTweets, ProcessedTweetsView, Tweet, TwitterApiResponse};
use crate::text::{
    is_whitespace, lemma_normalized_ends, lemma_trimmed_end_whitespace, trim_end, trimmed_end,
};
use vstd::prelude::*;
use vstd::string::*;

verus! {

/// What stands before the user's name in the header line.
pub const HEADER_OPEN: &'static str = "Here are the recent tweets from @";

/// What stands after the user's name in the header line.
pub const HEADER_CLOSE: &'static str = " to be made into a podcast:";

/// A line break and a blank line.
pub const BLANK_LINE: &'static str = "\n\n";

/// The line that opens the text made of the posts of `username`.
pub open spec fn header_line(username: Seq<char>) -> Seq<char> {
    HEADER_OPEN@ + username + HEADER_CLOSE@
}

/// Each of `texts` cleaned and followed by a blank line, in their order.
pub open spec fn text_blocks(texts: Seq<Seq<char>>) -> Seq<char>
    decreases texts.len(),
{
    if texts.len() == 0 {
        Seq::empty()
    } else {
        text_blocks(texts.drop_last()) + cleaned(texts.last()) + BLANK_LINE@
    }
}

/// The text made of the posts with these `texts` by `username`: the
/// header line and the cleaned texts, a blank line after each, without
/// the whitespace at the end.
pub open spec fn processed_text_of(texts: Seq<Seq<char>>, username: Seq<char>) -> Seq<char> {
    trimmed_end(header_line(username) + BLANK_LINE@ + text_blocks(texts))
}

/// Each of `texts` cleaned, in their order, with a blank line between one
/// and the next.
pub open spec fn joined_blocks(texts: Seq<Seq<char>>) -> Seq<char>
    decreases texts.len(),
{
    if texts.len() == 0 {
        Seq::empty()
    } else if texts.len() == 1 {
        cleaned(texts[0])
    } else {
        joined_blocks(texts.drop_last()) + BLANK_LINE@ + cleaned(texts.last())
    }
}

/// Folds `tweets` into one text for `username`, the posts in the order
/// given. Without posts the text is the header line alone. With posts, of
/// which the last does not clean to nothing, it is the header line, a
/// blank line, and the cleaned texts with one blank line between each and
/// the next.
pub fn process_tweets_to_text(tweets: &[Tweet], username: &str) -> (r: String)
    ensures
        r@ == processed_text_of(texts_of(tweets@), username@),
        tweets@.len() == 0 ==> r@ == header_line(username@),
        tweets@.len() > 0 && cleaned(tweets@.last().text@).len() > 0 ==> r@ == header_line(
            username@,
        ) + BLANK_LINE@ + joined_blocks(texts_of(tweets@)),
{
    let mut result = HEADER_OPEN.to_string();
    result.append(username);
    result.append(HEADER_CLOSE);
    result.append(BLANK_LINE);
    let ghost texts = texts_of(tweets@);
    for i in 0..tweets.len()
        invariant
            texts == texts_of(tweets@),
            result@ == header_line(username@) + BLANK_LINE@ + text_blocks(texts.take(i as int)),
    {
        let cleaned_text = clean_tweet_text(tweets[i].text.as_str());
        proof {
            assert(texts.take(i + 1).drop_last() =~= texts.take(i as int));
        }
        result.append(cleaned_text.as_str());
        result.append(BLANK_LINE);
    }
    proof {
        assert(texts.take(tweets@.len() as int) =~= texts);
        if tweets@.len() == 0 {
            lemma_no_posts(username@);
        } else if cleaned(tweets@.last().text@).len() > 0 {
            lemma_posts_in_order(texts, username@);
        }
    }
    trim_end(result.as_str())
}

/// With no post, the text is the header line and nothing after it.
pub proof fn lemma_no_posts(username: Seq<char>)
    ensures
        processed_text_of(Seq::empty(), username) == header_line(username),
{
    reveal_strlit(" to be made into a podcast:");
    reveal_strlit("\n\n");
    lemma_trimmed_end_whitespace(header_line(username), BLANK_LINE@);
}

/// With posts, of which the last does not clean to nothing, the text is
/// the header line, a blank line, and the cleaned texts of all the posts
/// in their order, one blank line between each and the next.
pub proof fn lemma_posts_in_order(texts: Seq<Seq<char>>, username: Seq<char>)
    requires
        texts.len() > 0,
        cleaned(texts.last()).len() > 0,
    ensures
        processed_text_of(texts, username) == header_line(username) + BLANK_LINE@ + joined_blocks(
            texts,
        ),
{
    reveal_strlit("\n\n");
    lemma_blocks_joined(texts);
    let body = header_line(username) + BLANK_LINE@ + joined_blocks(texts);
    assert(header_line(username) + BLANK_LINE@ + text_blocks(texts) =~= body + BLANK_LINE@);
    lemma_trimmed_end_whitespace(body, BLANK_LINE@);
    lemma_joined_blocks_end(texts);
}

/// The blocks of one or more texts are the joined blocks and one more
/// blank line.
proof fn lemma_blocks_joined(texts: Seq<Seq<char>>)
    requires
        texts.len() > 0,
    ensures
        text_blocks(texts) == joined_blocks(texts) + BLANK_LINE@,
    decreases texts.len(),
{
    if texts.len() == 1 {
        assert(text_blocks(texts.drop_last()) =~= Seq::<char>::empty());
    } else {
        lemma_blocks_joined(texts.drop_last());
    }
}

/// Joined blocks end as the last cleaned text does.
proof fn lemma_joined_blocks_end(texts: Seq<Seq<char>>)
    requires
        texts.len() > 0,
        cleaned(texts.last()).len() > 0,
    ensures
        joined_blocks(texts).len() > 0,
        !is_whitespace(joined_blocks(texts).last()),
{
    lemma_normalized_ends(without_links(texts.last()));
}

/// The posts `tweets` of `username`, processed.
pub open spec fn processed_tweets_of(tweets: Seq<Tweet>, username: Seq<char>) -> ProcessedTweetsView {
    ProcessedTweetsView {
        username,
        tweet_count: tweets.len(),
        processed_text: processed_text_of(texts_of(tweets), username),
    }
}

/// Counts the posts of `username` and folds them into one text.
pub fn process_tweets(tweets: &[Tweet], username: &str) -> (r: ProcessedTweets)
    ensures
        r@ == processed_tweets_of(tweets@, username@),
{
    ProcessedTweets {
        username: username.to_string(),
        tweet_count: tweets.len(),
        processed_text: process_tweets_to_text(tweets, username),
    }
}

/// Reads the search service's reply and processes the posts it brought.
/// A failure of the fetch is handed on as it is.
pub fn fetch_and_process_tweets(username: &str, reply: Reply<TwitterApiResponse>) -> (r: Result<
    ProcessedTweets,
    ServiceError,
>)
    ensures
        match fetched_tweets(reply) {
            Ok(tweets) => r matches Ok(processed) && processed@ == processed_tweets_of(
                tweets@,
                username@,
            ),
            Err(error) => r == Err::<ProcessedTweets, ServiceError>(error),
        },
{
    match fetch_original_tweets(reply) {
        Ok(tweets) => Ok(process_tweets(tweets.as_slice(), username)),
        Err(error) => Err(error),
    }
}

} // verus!
