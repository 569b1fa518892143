//! The ways in which a request to the service can fail, and the message
//! that the caller is shown for each.

use crate::config::{variable_name, variable_of, Credential};
use crate::decimal::{decimal, push_decimal};
use reqwest::StatusCode;
use vstd::prelude::*;
use vstd::string::*;

verus! {

/// The two services that this one calls.
#[derive(Debug, Clone, Copy, PartialEq, Eq, Structural)]
pub enum Upstream {
    Search,
    Context,
}

/// Why a request failed. No failure is retried: each ends the request.
#[derive(Debug)]
pub enum ServiceError {
    /// A credential is missing from the configuration.
    ConfigError { missing: Credential },
    /// The upstream service could not be reached.
    TransportError { upstream: Upstream, detail: String },
    /// The upstream service answered with a status outside 200 to 299.
    UpstreamError { upstream: Upstream, status: u16, body: String },
    /// The upstream service's answer had another shape than expected.
    DecodeError { upstream: Upstream, detail: String },
    /// The search found no post.
    EmptyResultError,
}

/// What `reqwest::StatusCode` is displayed as, for the status that
/// `StatusCode::from_u16` makes of `code`; `None` where `from_u16` refuses
/// `code`.
pub uninterp spec fn status_display(code: u16) -> Option<Seq<char>>;

/// Makes a `reqwest::StatusCode` of `code` with `StatusCode::from_u16` and
/// formats it with its `Display` impl, which writes the number and the
/// reason phrase that belongs to it. Nothing is claimed of the result but
/// that it is the one `status_display` names.
#[verifier::external_body]
fn display_status(code: u16) -> (r: Option<String>)
    ensures
        r.deep_view() == status_display(code),
{
    match StatusCode::from_u16(code) {
        Ok(status) => Some(status.to_string()),
        Err(_) => None,
    }
}

/// How a status is written in a message: as the HTTP library displays it,
/// or as the bare number where the library knows no such status.
pub open spec fn status_text(code: u16) -> Seq<char> {
    match status_display(code) {
        Some(text) => text,
        None => decimal(code as nat),
    }
}

/// Writes a status as it stands in a message.
pub fn status_string(code: u16) -> (r: String)
    ensures
        r@ == status_text(code),
{
    match display_status(code) {
        Some(text) => text,
        None => {
            let mut digits = String::new();
            push_decimal(&mut digits, code as u64);
            digits
        },
    }
}

/// The message for `error`.
pub open spec fn message_of(error: ServiceError) -> Seq<char> {
    match error {
        ServiceError::ConfigError { missing } => "Missing "@ + variable_of(missing),
        ServiceError::TransportError { upstream: Upstream::Search, detail } => "Request failed: "@
            + detail@,
        ServiceError::TransportError { upstream: Upstream::Context, detail } =>
            "Context API request failed: "@ + detail@,
        ServiceError::UpstreamError { upstream: Upstream::Search, status, body } =>
            "API request failed with status "@ + status_text(status) + ": "@ + body@,
        ServiceError::UpstreamError { upstream: Upstream::Context, status, body } =>
            "Context API failed with status "@ + status_text(status) + ": "@ + body@,
        ServiceError::DecodeError { upstream: Upstream::Search, detail } =>
            "Failed to parse JSON response: "@ + detail@,
        ServiceError::DecodeError { upstream: Upstream::Context, detail } =>
            "Failed to parse context API response: "@ + detail@,
        ServiceError::EmptyResultError => "No tweets found"@,
    }
}

impl ServiceError {
    /// The message that the caller is shown.
    pub fn message(&self) -> (r: String)
        ensures
            r@ == message_of(*self),
    {
        match self {
            ServiceError::ConfigError { missing } => {
                let mut out = "Missing ".to_string();
                out.append(variable_name(*missing));
                out
            },
            ServiceError::TransportError { upstream, detail } => {
                let mut out = match upstream {
                    Upstream::Search => "Request failed: ".to_string(),
                    Upstream::Context => "Context API request failed: ".to_string(),
                };
                out.append(detail.as_str());
                out
            },
            ServiceError::UpstreamError { upstream, status, body } => {
                let mut out = match upstream {
                    Upstream::Search => "API request failed with status ".to_string(),
                    Upstream::Context => "Context API failed with status ".to_string(),
                };
                let status = status_string(*status);
                out.append(status.as_str());
                out.append(": ");
                out.append(body.as_str());
                out
            },
            ServiceError::DecodeError { upstream, detail } => {
                let mut out = match upstream {
                    Upstream::Search => "Failed to parse JSON response: ".to_string(),
                    Upstream::Context => "Failed to parse context API response: ".to_string(),
                };
                out.append(detail.as_str());
                out
            },
            ServiceError::EmptyResultError => "No tweets found".to_string(),
        }
    }
}

} // verus!
