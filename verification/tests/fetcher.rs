use tweet_context::config::Config;
use tweet_context::error::{ServiceError, Upstream};
use tweet_context::http::{is_success, Reply};
use tweet_context::models::{PublicMetrics, Tweet, TweetMeta, TwitterApiResponse};
use tweet_context::fetcher::{
    clamp_max_results, fetch_original_tweets, search_call, search_query, search_url,
};

fn with_token(token: Option<&str>) -> Config {
    Config {
        bearer_token: token.map(|t| t.to_string()),
        alchemyst_api_key: None,
        alchemyst_base_url: None,
    }
}

fn post(id: &str, text: &str) -> Tweet {
    Tweet {
        id: id.to_string(),
        edit_history_tweet_ids: vec![id.to_string()],
        created_at: "2025-07-17T03:44:16.000Z".to_string(),
        text: text.to_string(),
        public_metrics: PublicMetrics {
            retweet_count: 0,
            reply_count: 0,
            like_count: 5,
            quote_count: 0,
            bookmark_count: 1,
            impression_count: 224,
        },
    }
}

fn answer_with(tweets: Vec<Tweet>) -> TwitterApiResponse {
    let count = tweets.len() as u64;
    TwitterApiResponse {
        data: tweets,
        meta: TweetMeta {
            newest_id: "1945690992981717364".to_string(),
            oldest_id: "1943621572545167442".to_string(),
            result_count: count,
        },
    }
}

#[test]
fn max_is_clamped_to_ten_and_a_hundred() {
    assert_eq!(clamp_max_results(0), 10);
    assert_eq!(clamp_max_results(1), 10);
    assert_eq!(clamp_max_results(9), 10);
    assert_eq!(clamp_max_results(10), 10);
    assert_eq!(clamp_max_results(11), 11);
    assert_eq!(clamp_max_results(20), 20);
    assert_eq!(clamp_max_results(99), 99);
    assert_eq!(clamp_max_results(100), 100);
    assert_eq!(clamp_max_results(101), 100);
    assert_eq!(clamp_max_results(255), 100);
    for max in 0..=255u8 {
        assert_eq!(clamp_max_results(max), max.clamp(10, 100));
    }
}

#[test]
fn the_query_asks_for_original_posts_of_the_user() {
    assert_eq!(search_query("testuser"), "from:testuser -is:reply -is:retweet -is:quote");
    assert_eq!(search_query(""), "from: -is:reply -is:retweet -is:quote");
}

#[test]
fn the_address_holds_the_encoded_query_and_the_clamped_max() {
    assert_eq!(
        search_url("testuser", 20),
        "https://api.x.com/2/tweets/search/recent?query=from%3Atestuser%20-is%3Areply%20-is%3Aretweet%20-is%3Aquote&max_results=20&tweet.fields=created_at,public_metrics"
    );
    assert_eq!(
        search_url("testuser", 5),
        "https://api.x.com/2/tweets/search/recent?query=from%3Atestuser%20-is%3Areply%20-is%3Aretweet%20-is%3Aquote&max_results=10&tweet.fields=created_at,public_metrics"
    );
    assert_eq!(
        search_url("testuser", 200),
        "https://api.x.com/2/tweets/search/recent?query=from%3Atestuser%20-is%3Areply%20-is%3Aretweet%20-is%3Aquote&max_results=100&tweet.fields=created_at,public_metrics"
    );
}

#[test]
fn the_user_name_is_percent_encoded() {
    assert_eq!(
        search_url("a_b-c.d~e", 10),
        "https://api.x.com/2/tweets/search/recent?query=from%3Aa_b-c.d~e%20-is%3Areply%20-is%3Aretweet%20-is%3Aquote&max_results=10&tweet.fields=created_at,public_metrics"
    );
    assert_eq!(
        search_url("j\u{00fc}rgen&x=1/\u{1f680}", 10),
        "https://api.x.com/2/tweets/search/recent?query=from%3Aj%C3%BCrgen%26x%3D1%2F%F0%9F%9A%80%20-is%3Areply%20-is%3Aretweet%20-is%3Aquote&max_results=10&tweet.fields=created_at,public_metrics"
    );
}

#[test]
fn the_search_call_carries_the_token() {
    let call = search_call(&with_token(Some("SECRET-REDACTED")), "testuser", 150).unwrap();
    assert_eq!(call.authorization, "Bearer SECRET-REDACTED");
    assert_eq!(call.content_type, "application/json");
    assert_eq!(call.url, search_url("testuser", 100));
}

#[test]
fn no_search_call_is_planned_without_the_token() {
    match search_call(&with_token(None), "testuser", 20) {
        Err(error) => {
            assert!(matches!(error, ServiceError::ConfigError { .. }));
            assert_eq!(error.message(), "Missing BEARER_TOKEN");
        }
        Ok(call) => panic!("unexpected: {:?}", call),
    }
}

#[test]
fn statuses_from_200_to_299_are_successes() {
    for status in 0..=u16::MAX {
        assert_eq!(is_success(status), (200..300).contains(&status));
    }
}

#[test]
fn fetched_posts_come_back_in_the_order_given() {
    let reply = Reply::Decoded {
        value: answer_with(vec![post("3", "newest"), post("2", "middle"), post("1", "oldest")]),
    };
    let tweets = fetch_original_tweets(reply).unwrap();
    assert_eq!(tweets.len(), 3);
    assert_eq!(tweets[0].id, "3");
    assert_eq!(tweets[0].text, "newest");
    assert_eq!(tweets[1].id, "2");
    assert_eq!(tweets[2].id, "1");
    assert_eq!(tweets[2].public_metrics.like_count, 5);
}

#[test]
fn a_page_without_posts_is_a_failure() {
    let reply = Reply::Decoded { value: answer_with(vec![]) };
    match fetch_original_tweets(reply) {
        Err(error) => {
            assert!(matches!(error, ServiceError::EmptyResultError));
            assert_eq!(error.message(), "No tweets found");
        }
        Ok(tweets) => panic!("unexpected: {:?}", tweets),
    }
}

#[test]
fn each_failed_search_reply_has_its_error() {
    let unreachable = Reply::Unreachable { detail: "dns error".to_string() };
    match fetch_original_tweets(unreachable) {
        Err(ServiceError::TransportError { upstream: Upstream::Search, detail }) => {
            assert_eq!(detail, "dns error")
        }
        other => panic!("unexpected: {:?}", other),
    }
    let rejected = Reply::Rejected { status: 429, body: "slow down".to_string() };
    match fetch_original_tweets(rejected) {
        Err(ServiceError::UpstreamError { upstream: Upstream::Search, status, body }) => {
            assert_eq!(status, 429);
            assert_eq!(body, "slow down");
        }
        other => panic!("unexpected: {:?}", other),
    }
    let undecodable = Reply::Undecodable { detail: "missing field `data`".to_string() };
    match fetch_original_tweets(undecodable) {
        Err(ServiceError::DecodeError { upstream: Upstream::Search, detail }) => {
            assert_eq!(detail, "missing field `data`")
        }
        other => panic!("unexpected: {:?}", other),
    }
}
