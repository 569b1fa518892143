//! The order in which a request is served: a planned call goes out, its
//! reply decides what follows, until the request is done. Nothing here
//! performs a call: the caller sends what a step plans and hands the reply
//! to the next.

use crate::config::{base_url_of, Config, Credential};
use crate::forwarder::{context_call, context_call_for, send_to_context_processor, ContextCall};
use crate::processor::{fetch_and_process_tweets, processed_tweets_of};
use crate::error::{ServiceError, Upstream};
use crate::http::{decoded_reply, Reply};
use crate::models::{ContextResponse, ProcessedTweets, Tweet, TwitterApiResponse};
use crate::fetcher::{fetch_original_tweets, fetched_tweets, search_call, search_call_for, SearchCall};
use vstd::prelude::*;

verus! {

/// What a request asks the service to do with a user's posts.
#[derive(Debug)]
pub enum Task {
    /// Return them as they were fetched.
    Original,
    /// Return them folded into one text.
    Processed,
    /// Fold them into one text and add it as context for `user_id`.
    ContextAddition { user_id: String },
}

/// One request to the service.
#[derive(Debug)]
pub struct Job {
    pub task: Task,
    pub username: String,
    pub max: u8,
}

/// How a request ended: with what it asked for, or with one failure.
#[derive(Debug)]
pub enum Outcome {
    Original(Vec<Tweet>),
    Processed(ProcessedTweets),
    ContextAdded(ProcessedTweets, ContextResponse),
    Failed(ServiceError),
}

/// What is to happen next for a request.
#[derive(Debug)]
pub enum Step {
    /// Send the call to the search service and go on with `after_search`.
    Search(SearchCall),
    /// Send the call to the context service and go on with
    /// `after_forward`, with the processed posts.
    Forward(ContextCall, ProcessedTweets),
    /// Nothing more is to be sent.
    Done(Outcome),
}

/// The first step of `job`: the call to the search service, or, where the
/// bearer token is missing, the end of the request before anything is
/// sent.
pub fn start(config: &Config, job: &Job) -> (step: Step)
    ensures
        match config.bearer_token {
            Some(token) => step matches Step::Search(call) && call@ == search_call_for(
                token@,
                job.username@,
                job.max,
            ),
            None => step == Step::Done(
                Outcome::Failed(ServiceError::ConfigError { missing: Credential::BearerToken }),
            ),
        },
{
    match search_call(config, job.username.as_str(), job.max) {
        Ok(call) => Step::Search(call),
        Err(error) => Step::Done(Outcome::Failed(error)),
    }
}

/// The step that follows the search service's reply. A failed fetch ends
/// the request with that failure. Fetched posts end it as they are or
/// processed, as the task says; where they are to be added as context,
/// the call to the context service follows, or, where the key for it is
/// missing, the end of the request. The search is never tried again.
pub fn after_search(config: &Config, job: &Job, reply: Reply<TwitterApiResponse>) -> (step: Step)
    ensures
        step !is Search,
        step is Forward ==> job.task is ContextAddition,
        match fetched_tweets(reply) {
            Err(error) => step == Step::Done(Outcome::Failed(error)),
            Ok(tweets) => match job.task {
                Task::Original => step == Step::Done(Outcome::Original(tweets)),
                Task::Processed => step matches Step::Done(Outcome::Processed(processed))
                    && processed@ == processed_tweets_of(tweets@, job.username@),
                Task::ContextAddition { user_id } => match config.alchemyst_api_key {
                    Some(key) => step matches Step::Forward(call, processed) && processed@
                        == processed_tweets_of(tweets@, job.username@) && call@
                        == context_call_for(base_url_of(*config), key@, processed@, user_id@),
                    None => step == Step::Done(
                        Outcome::Failed(
                            ServiceError::ConfigError { missing: Credential::AlchemystApiKey },
                        ),
                    ),
                },
            },
        },
{
    match &job.task {
        Task::Original => match fetch_original_tweets(reply) {
            Ok(tweets) => Step::Done(Outcome::Original(tweets)),
            Err(error) => Step::Done(Outcome::Failed(error)),
        },
        Task::Processed => match fetch_and_process_tweets(job.username.as_str(), reply) {
            Ok(processed) => Step::Done(Outcome::Processed(processed)),
            Err(error) => Step::Done(Outcome::Failed(error)),
        },
        Task::ContextAddition { user_id } => match fetch_and_process_tweets(
            job.username.as_str(),
            reply,
        ) {
            Ok(processed) => match context_call(config, &processed, user_id.as_str()) {
                Ok(call) => Step::Forward(call, processed),
                Err(error) => Step::Done(Outcome::Failed(error)),
            },
            Err(error) => Step::Done(Outcome::Failed(error)),
        },
    }
}

/// The processed posts together with the context service's answer, or the
/// failure that its reply stands for: once forwarding has failed, the
/// processed posts are not reported either.
pub fn fetch_process_and_add_context(
    processed: ProcessedTweets,
    reply: Reply<ContextResponse>,
) -> (r: Result<(ProcessedTweets, ContextResponse), ServiceError>)
    ensures
        match decoded_reply(Upstream::Context, reply) {
            Ok(response) => r == Ok::<(ProcessedTweets, ContextResponse), ServiceError>(
                (processed, response),
            ),
            Err(error) => r == Err::<(ProcessedTweets, ContextResponse), ServiceError>(error),
        },
{
    match send_to_context_processor(reply) {
        Ok(response) => Ok((processed, response)),
        Err(error) => Err(error),
    }
}

/// The step that follows the context service's reply: the end of the
/// request, with the processed posts and the service's answer or with the
/// failure. Nothing is sent again.
pub fn after_forward(processed: ProcessedTweets, reply: Reply<ContextResponse>) -> (step: Step)
    ensures
        step is Done,
        match decoded_reply(Upstream::Context, reply) {
            Ok(response) => step == Step::Done(Outcome::ContextAdded(processed, response)),
            Err(error) => step == Step::Done(Outcome::Failed(error)),
        },
{
    match fetch_process_and_add_context(processed, reply) {
        Ok((processed, response)) => Step::Done(Outcome::ContextAdded(processed, response)),
        Err(error) => Step::Done(Outcome::Failed(error)),
    }
}

} // verus!
