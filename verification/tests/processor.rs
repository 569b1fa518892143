use tweet_context::processor::{fetch_and_process_tweets, process_tweets, process_tweets_to_text};
use tweet_context::error::{ServiceError, Upstream};
use tweet_context::http::Reply;
use tweet_context::models::{PublicMetrics, Tweet, TweetMeta, TwitterApiResponse};

fn tweet(id: &str, text: &str) -> Tweet {
    Tweet {
        id: id.to_string(),
        edit_history_tweet_ids: vec![id.to_string()],
        created_at: "2025-01-01T00:00:00.000Z".to_string(),
        text: text.to_string(),
        public_metrics: PublicMetrics {
            retweet_count: 0,
            reply_count: 0,
            like_count: 0,
            quote_count: 0,
            bookmark_count: 0,
            impression_count: 0,
        },
    }
}

fn page(tweets: Vec<Tweet>) -> TwitterApiResponse {
    let count = tweets.len() as u64;
    TwitterApiResponse {
        data: tweets,
        meta: TweetMeta {
            newest_id: "9".to_string(),
            oldest_id: "1".to_string(),
            result_count: count,
        },
    }
}

#[test]
fn test_process_tweets_to_text() {
    let tweets = vec![
        Tweet {
            id: "1".to_string(),
            edit_history_tweet_ids: vec!["1".to_string()],
            created_at: "2025-01-01T00:00:00.000Z".to_string(),
            text: "First tweet https://t.co/abc123".to_string(),
            public_metrics: PublicMetrics {
                retweet_count: 0,
                reply_count: 0,
                like_count: 5,
                quote_count: 0,
                bookmark_count: 1,
                impression_count: 100,
            },
        },
        Tweet {
            id: "2".to_string(),
            edit_history_tweet_ids: vec!["2".to_string()],
            created_at: "2025-01-02T00:00:00.000Z".to_string(),
            text: "Second tweet".to_string(),
            public_metrics: PublicMetrics {
                retweet_count: 1,
                reply_count: 2,
                like_count: 10,
                quote_count: 0,
                bookmark_count: 0,
                impression_count: 200,
            },
        },
    ];

    let result = process_tweets_to_text(&tweets, "testuser");
    let expected = "Here are the recent tweets from @testuser to be made into a podcast:\n\nFirst tweet\n\nSecond tweet";
    assert_eq!(result, expected);
}

#[test]
fn test_process_tweets_to_text_empty_list() {
    let tweets: Vec<Tweet> = vec![];
    let result = process_tweets_to_text(&tweets, "testuser");
    let expected = "Here are the recent tweets from @testuser to be made into a podcast:";
    assert_eq!(result, expected);
}

#[test]
fn test_process_tweets_to_text_single_tweet() {
    let tweets = vec![
        Tweet {
            id: "1".to_string(),
            edit_history_tweet_ids: vec!["1".to_string()],
            created_at: "2025-01-01T00:00:00.000Z".to_string(),
            text: "Only tweet https://t.co/test123".to_string(),
            public_metrics: PublicMetrics {
                retweet_count: 0,
                reply_count: 0,
                like_count: 1,
                quote_count: 0,
                bookmark_count: 0,
                impression_count: 50,
            },
        },
    ];

    let result = process_tweets_to_text(&tweets, "singleuser");
    let expected = "Here are the recent tweets from @singleuser to be made into a podcast:\n\nOnly tweet";
    assert_eq!(result, expected);
}

#[test]
fn no_posts_give_the_header_line_for_any_user() {
    for username in ["", "a", "some user ", "\n"] {
        let expected = format!(
            "Here are the recent tweets from @{} to be made into a podcast:",
            username
        );
        assert_eq!(process_tweets_to_text(&[], username), expected);
    }
}

#[test]
fn posts_come_in_the_order_given_with_one_blank_line_between() {
    let tweets = vec![tweet("3", "c  c"), tweet("2", " b"), tweet("1", "a https://t.co/zz9 a")];
    let result = process_tweets_to_text(&tweets, "u");
    assert_eq!(
        result,
        "Here are the recent tweets from @u to be made into a podcast:\n\nc c\n\nb\n\na a"
    );
}

#[test]
fn a_post_that_cleans_to_nothing_leaves_an_empty_block() {
    let tweets = vec![tweet("1", "first"), tweet("2", "https://t.co/abc"), tweet("3", "third")];
    let result = process_tweets_to_text(&tweets, "u");
    assert_eq!(
        result,
        "Here are the recent tweets from @u to be made into a podcast:\n\nfirst\n\n\n\nthird"
    );
}

#[test]
fn empty_blocks_at_the_end_are_trimmed_away() {
    let tweets = vec![tweet("1", "hello"), tweet("2", "https://t.co/abc")];
    let result = process_tweets_to_text(&tweets, "u");
    assert_eq!(result, "Here are the recent tweets from @u to be made into a podcast:\n\nhello");

    let only_links = vec![tweet("1", "https://t.co/a"), tweet("2", "  ")];
    let result = process_tweets_to_text(&only_links, "u");
    assert_eq!(result, "Here are the recent tweets from @u to be made into a podcast:");
}

#[test]
fn processing_counts_the_posts_and_keeps_the_name() {
    let tweets = vec![tweet("1", "First tweet https://t.co/abc123"), tweet("2", "Second tweet")];
    let processed = process_tweets(&tweets, "testuser");
    assert_eq!(processed.username, "testuser");
    assert_eq!(processed.tweet_count, 2);
    assert_eq!(
        processed.processed_text,
        "Here are the recent tweets from @testuser to be made into a podcast:\n\nFirst tweet\n\nSecond tweet"
    );
}

#[test]
fn a_fetched_page_is_processed() {
    let reply = Reply::Decoded { value: page(vec![tweet("1", "one"), tweet("2", "two\ntwo")]) };
    let processed = fetch_and_process_tweets("name", reply).unwrap();
    assert_eq!(processed.username, "name");
    assert_eq!(processed.tweet_count, 2);
    assert_eq!(
        processed.processed_text,
        "Here are the recent tweets from @name to be made into a podcast:\n\none\n\ntwo two"
    );
}

#[test]
fn a_failed_fetch_is_handed_on_unchanged() {
    let reply = Reply::Rejected { status: 401, body: "denied".to_string() };
    match fetch_and_process_tweets("name", reply) {
        Err(ServiceError::UpstreamError { upstream: Upstream::Search, status, body }) => {
            assert_eq!(status, 401);
            assert_eq!(body, "denied");
        }
        other => panic!("unexpected: {:?}", other),
    }
    let empty = Reply::Decoded { value: page(vec![]) };
    assert!(matches!(
        fetch_and_process_tweets("name", empty),
        Err(ServiceError::EmptyResultError)
    ));
}
