//! What comes back from a call to an upstream service, as far as the
//! service's decisions depend on it.

use crate::error::{ServiceError, Upstream};
use vstd::prelude::*;

verus! {

/// The content type of every request that the service sends.
pub const CONTENT_TYPE_JSON: &'static str = "application/json";

/// What stands before a credential in an authorization header.
pub const BEARER_PREFIX: &'static str = "Bearer ";

/// The authorization header for `credential`.
pub open spec fn bearer(credential: Seq<char>) -> Seq<char> {
    BEARER_PREFIX@ + credential
}

/// A status between 200 and 299 says that the request succeeded.
pub open spec fn is_success_status(status: u16) -> bool {
    200 <= status < 300
}

/// Whether an answer with this status is read as a success, so that its
/// body is decoded, or as a rejection, so that its body is kept as text.
pub fn is_success(status: u16) -> (b: bool)
    ensures
        b == is_success_status(status),
{
    200 <= status && status < 300
}

/// The outcome of one call to an upstream service whose answer, where it
/// succeeds, decodes to a `T`.
#[derive(Debug)]
pub enum Reply<T> {
    /// No answer came; `detail` says why.
    Unreachable { detail: String },
    /// The answer's status was no success. `body` is its text, empty where
    /// the text could not be read.
    Rejected { status: u16, body: String },
    /// The answer's status was a success, but its body did not decode;
    /// `detail` says why.
    Undecodable { detail: String },
    /// The answer's status was a success and its body decoded to `value`.
    Decoded { value: T },
}

/// What a reply from `upstream` amounts to: the decoded value, or the
/// failure that the reply stands for.
pub open spec fn decoded_reply<T>(upstream: Upstream, reply: Reply<T>) -> Result<T, ServiceError> {
    match reply {
        Reply::Unreachable { detail } => Err(ServiceError::TransportError { upstream, detail }),
        Reply::Rejected { status, body } => Err(
            ServiceError::UpstreamError { upstream, status, body },
        ),
        Reply::Undecodable { detail } => Err(ServiceError::DecodeError { upstream, detail }),
        Reply::Decoded { value } => Ok(value),
    }
}

/// Turns a reply from `upstream` into the value it brought or the failure
/// it stands for.
pub fn decode_reply<T>(upstream: Upstream, reply: Reply<T>) -> (r: Result<T, ServiceError>)
    ensures
        r == decoded_reply(upstream, reply),
{
    match reply {
        Reply::Unreachable { detail } => Err(ServiceError::TransportError { upstream, detail }),
        Reply::Rejected { status, body } => Err(
            ServiceError::UpstreamError { upstream, status, body },
        ),
        Reply::Undecodable { detail } => Err(ServiceError::DecodeError { upstream, detail }),
        Reply::Decoded { value } => Ok(value),
    }
}

} // verus!
