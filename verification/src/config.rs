//! What the service is configured with: two credentials and the address of
//! the context service.

use vstd::prelude::*;

verus! {

/// The variable that holds the bearer token of the search service.
pub const BEARER_TOKEN: &'static str = "BEARER_TOKEN";

/// The variable that holds the key of the context service.
pub const ALCHEMYST_API_KEY: &'static str = "ALCHEMYST_API_KEY";

/// The variable that holds the address of the context service.
pub const ALCHEMYST_BASE_URL: &'static str = "ALCHEMYST_BASE_URL";

/// The address of the context service where none is configured.
pub const DEFAULT_BASE_URL: &'static str = "https://api.alchemyst.ai";

/// A credential that the service takes from its configuration.
#[derive(Debug, Clone, Copy, PartialEq, Eq, Structural)]
pub enum Credential {
    BearerToken,
    AlchemystApiKey,
}

/// The configuration variable that holds `credential`.
pub open spec fn variable_of(credential: Credential) -> Seq<char> {
    match credential {
        Credential::BearerToken => BEARER_TOKEN@,
        Credential::AlchemystApiKey => ALCHEMYST_API_KEY@,
    }
}

/// The name of the configuration variable that holds `credential`.
pub fn variable_name(credential: Credential) -> (name: &'static str)
    ensures
        name@ == variable_of(credential),
{
    match credential {
        Credential::BearerToken => BEARER_TOKEN,
        Credential::AlchemystApiKey => ALCHEMYST_API_KEY,
    }
}

/// The values of the three configuration variables, `None` for one that is
/// not set.
#[derive(Debug)]
pub struct Config {
    pub bearer_token: Option<String>,
    pub alchemyst_api_key: Option<String>,
    pub alchemyst_base_url: Option<String>,
}

/// The address of the context service under `config`.
pub open spec fn base_url_of(config: Config) -> Seq<char> {
    match config.alchemyst_base_url {
        Some(url) => url@,
        None => DEFAULT_BASE_URL@,
    }
}

impl Config {
    /// The address of the context service: the configured one, or the
    /// default.
    pub fn base_url(&self) -> (url: &str)
        ensures
            url@ == base_url_of(*self),
    {
        match &self.alchemyst_base_url {
            Some(url) => url.as_str(),
            None => DEFAULT_BASE_URL,
        }
    }
}

} // verus!
