//! The three endpoints of the service: what a query asks for, and what is
//! answered once the request is done.

use crate::decimal::{decimal, push_decimal};
use crate::error::{message_of, ServiceError};
use crate::models::{
    ContextAdditionResponse, ContextAdditionResponseView, ContextResponse, ErrorResponse,
    ProcessedTweets, Tweet,
};
use crate::pipeline::{Job, Outcome, Task};
use vstd::prelude::*;
use vstd::string::*;

verus! {

/// The number of posts asked for where the query names none.
pub const DEFAULT_MAX: u8 = 20;

/// The user for whom context is added where the query names none.
pub const DEFAULT_USER_ID: &'static str = "default_user";

/// The status of an answer that brings what was asked for.
pub const STATUS_OK: u16 = 200;

/// The status of every answer that reports a failure.
pub const STATUS_BAD_REQUEST: u16 = 400;

/// The query of the endpoints that return posts.
#[derive(Debug)]
pub struct Query {
    pub username: String,
    pub max: Option<u8>,
}

/// The query of the endpoint that adds posts as context.
#[derive(Debug)]
pub struct ContextQuery {
    pub username: String,
    pub max: Option<u8>,
    pub user_id: Option<String>,
}

/// `max`, or the default where there is none.
pub open spec fn max_or_default(max: Option<u8>) -> u8 {
    match max {
        Some(max) => max,
        None => DEFAULT_MAX,
    }
}

/// `user_id`, or the default where there is none.
pub open spec fn user_id_or_default(user_id: Option<String>) -> Seq<char> {
    match user_id {
        Some(user_id) => user_id@,
        None => DEFAULT_USER_ID@,
    }
}

impl Query {
    /// The request for this user's posts as they are.
    pub fn original(&self) -> (job: Job)
        ensures
            job.task == Task::Original,
            job.username@ == self.username@,
            job.max == max_or_default(self.max),
    {
        Job {
            task: Task::Original,
            username: self.username.clone(),
            max: match self.max {
                Some(max) => max,
                None => DEFAULT_MAX,
            },
        }
    }

    /// The request for this user's posts folded into one text.
    pub fn processed(&self) -> (job: Job)
        ensures
            job.task == Task::Processed,
            job.username@ == self.username@,
            job.max == max_or_default(self.max),
    {
        Job {
            task: Task::Processed,
            username: self.username.clone(),
            max: match self.max {
                Some(max) => max,
                None => DEFAULT_MAX,
            },
        }
    }
}

impl ContextQuery {
    /// The request to add this user's posts as context.
    pub fn context_addition(&self) -> (job: Job)
        ensures
            job.task matches Task::ContextAddition { user_id } && user_id@ == user_id_or_default(
                self.user_id,
            ),
            job.username@ == self.username@,
            job.max == max_or_default(self.max),
    {
        Job {
            task: Task::ContextAddition {
                user_id: match &self.user_id {
                    Some(user_id) => user_id.clone(),
                    None => DEFAULT_USER_ID.to_string(),
                },
            },
            username: self.username.clone(),
            max: match self.max {
                Some(max) => max,
                None => DEFAULT_MAX,
            },
        }
    }
}

/// The sentence that reports that `count` posts of `username` were added
/// as context, followed by what the context service said.
pub open spec fn addition_message(count: nat, username: Seq<char>, said: Seq<char>) -> Seq<char> {
    "Successfully processed "@ + decimal(count) + " tweets from @"@ + username
        + " and added to context processor. "@ + said
}

/// The answer for posts that were processed and forwarded.
pub open spec fn context_addition_of(
    processed: ProcessedTweets,
    response: ContextResponse,
) -> ContextAdditionResponseView {
    ContextAdditionResponseView {
        success: true,
        message: addition_message(
            processed.tweet_count as nat,
            processed.username@,
            response.message@,
        ),
        username: processed.username@,
        tweet_count: processed.tweet_count as nat,
        context_added: response.success,
    }
}

/// Reports that the posts were processed and forwarded. The answer is a
/// success; whether the context service took the posts is told apart, in
/// `context_added`.
pub fn context_addition(processed: ProcessedTweets, response: ContextResponse) -> (r:
    ContextAdditionResponse)
    ensures
        r@ == context_addition_of(processed, response),
{
    let mut message = "Successfully processed ".to_string();
    push_decimal(&mut message, processed.tweet_count as u64);
    message.append(" tweets from @");
    message.append(processed.username.as_str());
    message.append(" and added to context processor. ");
    message.append(response.message.as_str());
    ContextAdditionResponse {
        success: true,
        message,
        username: processed.username,
        tweet_count: processed.tweet_count,
        context_added: response.success,
    }
}

/// Reports a failure by its message.
pub fn error_response(error: &ServiceError) -> (r: ErrorResponse)
    ensures
        r.error@ == message_of(*error),
{
    ErrorResponse { error: error.message() }
}

/// The body of an answer of the service.
#[derive(Debug)]
pub enum Answer {
    Tweets(Vec<Tweet>),
    Processed(ProcessedTweets),
    ContextAdded(ContextAdditionResponse),
    Failed(ErrorResponse),
}

impl Answer {
    /// The status that the answer is sent with: every failure is reported
    /// as a bad request.
    pub fn status(&self) -> (status: u16)
        ensures
            status == if self is Failed {
                STATUS_BAD_REQUEST
            } else {
                STATUS_OK
            },
    {
        match self {
            Answer::Failed(_) => STATUS_BAD_REQUEST,
            _ => STATUS_OK,
        }
    }
}

/// The answer to a request that ended with `outcome`: what was asked for,
/// or the message of the failure, never both.
pub fn answer(outcome: Outcome) -> (r: Answer)
    ensures
        match outcome {
            Outcome::Original(tweets) => r == Answer::Tweets(tweets),
            Outcome::Processed(processed) => r == Answer::Processed(processed),
            Outcome::ContextAdded(processed, response) => r matches Answer::ContextAdded(added)
                && added@ == context_addition_of(processed, response),
            Outcome::Failed(error) => r matches Answer::Failed(failed) && failed.error@
                == message_of(error),
        },
{
    match outcome {
        Outcome::Original(tweets) => Answer::Tweets(tweets),
        Outcome::Processed(processed) => Answer::Processed(processed),
        Outcome::ContextAdded(processed, response) => Answer::ContextAdded(
            context_addition(processed, response),
        ),
        Outcome::Failed(error) => Answer::Failed(error_response(&error)),
    }
}

} // verus!
