//! Connection settings shared by every resource client.

use vstd::prelude::*;
use vstd::string::StringExecFns;

verus! {

/// Base URL of the public API.
pub const DEFAULT_BASE_URL: &'static str = "https://api.replicate.com/v1";

/// User agent announced when none is configured: the library's name and version.
pub const DEFAULT_USER_AGENT: &'static str = "replicate-rust/0.1.0";

/// Connection settings. Nothing is validated here: a wrong token or URL
/// shows on the first request.
#[derive(Clone, Debug)]
pub struct Config {
    /// API token, sent in the `Authorization` header.
    pub auth: String,
    /// Value of the `User-Agent` header.
    pub user_agent: String,
    /// URL under which the resources live, without a trailing slash.
    pub base_url: String,
}

/// Mathematical model of a [`Config`].
pub struct ConfigView {
    pub auth: Seq<char>,
    pub user_agent: Seq<char>,
    pub base_url: Seq<char>,
}

impl View for Config {
    type V = ConfigView;

    open spec fn view(&self) -> ConfigView {
        ConfigView { auth: self.auth@, user_agent: self.user_agent@, base_url: self.base_url@ }
    }
}

impl Default for Config {
    /// The public base URL, the library's own user agent, and no token.
    fn default() -> (config: Config)
        ensures
            config@.auth == Seq::<char>::empty(),
            config@.user_agent == DEFAULT_USER_AGENT@,
            config@.base_url == DEFAULT_BASE_URL@,
    {
        Config {
            auth: String::new(),
            user_agent: String::from_str(DEFAULT_USER_AGENT),
            base_url: String::from_str(DEFAULT_BASE_URL),
        }
    }
}

} // verus!
