use tweet_context::endpoints::{
    answer, context_addition, error_response, Answer, ContextQuery, Query,
};
use tweet_context::error::{ServiceError, Upstream};
use tweet_context::models::{ContextResponse, ProcessedTweets};
use tweet_context::pipeline::{Outcome, Task};

#[test]
fn max_is_twenty_where_the_query_names_none() {
    let query = Query { username: "someone".to_string(), max: None };
    assert_eq!(query.original().max, 20);
    assert_eq!(query.processed().max, 20);
    let query = ContextQuery { username: "someone".to_string(), max: None, user_id: None };
    assert_eq!(query.context_addition().max, 20);
}

#[test]
fn a_named_max_is_kept_as_it_is() {
    for max in [0u8, 1, 9, 10, 20, 100, 101, 255] {
        let query = Query { username: "someone".to_string(), max: Some(max) };
        assert_eq!(query.original().max, max);
        assert_eq!(query.processed().max, max);
        let query =
            ContextQuery { username: "someone".to_string(), max: Some(max), user_id: None };
        assert_eq!(query.context_addition().max, max);
    }
}

#[test]
fn each_query_asks_for_its_task() {
    let query = Query { username: "someone".to_string(), max: None };
    let job = query.original();
    assert!(matches!(job.task, Task::Original));
    assert_eq!(job.username, "someone");
    let job = query.processed();
    assert!(matches!(job.task, Task::Processed));
    assert_eq!(job.username, "someone");
}

#[test]
fn the_user_is_the_default_where_the_query_names_none() {
    let query = ContextQuery { username: "someone".to_string(), max: None, user_id: None };
    match query.context_addition().task {
        Task::ContextAddition { user_id } => assert_eq!(user_id, "default_user"),
        other => panic!("unexpected: {:?}", other),
    }
    let query = ContextQuery {
        username: "someone".to_string(),
        max: None,
        user_id: Some("user_42".to_string()),
    };
    let job = query.context_addition();
    assert_eq!(job.username, "someone");
    match job.task {
        Task::ContextAddition { user_id } => assert_eq!(user_id, "user_42"),
        other => panic!("unexpected: {:?}", other),
    }
}

fn processed(count: usize) -> ProcessedTweets {
    ProcessedTweets {
        username: "testuser".to_string(),
        tweet_count: count,
        processed_text: "text".to_string(),
    }
}

#[test]
fn the_message_names_the_count_the_user_and_what_the_service_said() {
    let added = context_addition(
        processed(14),
        ContextResponse { success: true, message: "Context added successfully".to_string() },
    );
    assert_eq!(added.success, true);
    assert_eq!(added.context_added, true);
    assert_eq!(added.username, "testuser");
    assert_eq!(added.tweet_count, 14);
    assert_eq!(
        added.message,
        "Successfully processed 14 tweets from @testuser and added to context processor. Context added successfully"
    );
}

#[test]
fn context_added_mirrors_the_context_service() {
    let added =
        context_addition(processed(0), ContextResponse { success: false, message: String::new() });
    assert_eq!(added.success, true);
    assert_eq!(added.context_added, false);
    assert_eq!(added.tweet_count, 0);
    assert_eq!(
        added.message,
        "Successfully processed 0 tweets from @testuser and added to context processor. "
    );
}

#[test]
fn a_failure_is_reported_by_its_message() {
    let error = ServiceError::UpstreamError {
        upstream: Upstream::Search,
        status: 401,
        body: "no".to_string(),
    };
    assert_eq!(
        error_response(&error).error,
        "API request failed with status 401 Unauthorized: no"
    );
    assert_eq!(error_response(&ServiceError::EmptyResultError).error, "No tweets found");
}

#[test]
fn failures_are_bad_requests_and_all_else_is_ok() {
    let failed = answer(Outcome::Failed(ServiceError::EmptyResultError));
    assert_eq!(failed.status(), 400);
    match failed {
        Answer::Failed(body) => assert_eq!(body.error, "No tweets found"),
        other => panic!("unexpected: {:?}", other),
    }
    assert_eq!(answer(Outcome::Original(vec![])).status(), 200);
    let done = answer(Outcome::Processed(processed(3)));
    assert_eq!(done.status(), 200);
    match done {
        Answer::Processed(body) => assert_eq!(body.tweet_count, 3),
        other => panic!("unexpected: {:?}", other),
    }
    let added = answer(Outcome::ContextAdded(
        processed(3),
        ContextResponse { success: true, message: "ok".to_string() },
    ));
    assert_eq!(added.status(), 200);
    match added {
        Answer::ContextAdded(body) => assert_eq!(
            body.message,
            "Successfully processed 3 tweets from @testuser and added to context processor. ok"
        ),
        other => panic!("unexpected: {:?}", other),
    }
}
