//! The logic of a service that fetches a user's recent posts, folds them
//! into one cleaned text and forwards that text to a context service.
//!
//! Nothing here performs a call or reads the environment. The caller
//! hands in the configuration, sends the calls that the pipeline plans
//! and hands back the replies; every decision between them is made, and
//! verified, here.

pub mod cleaner;
pub mod config;
pub mod decimal;
pub mod endpoints;
pub mod error;
pub mod fetcher;
pub mod forwarder;
pub mod http;
pub mod models;
pub mod pipeline;
pub mod processor;
pub mod text;
