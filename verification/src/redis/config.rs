//! Where the store is and how to authenticate to it.

use vstd::prelude::*;

verus! {

/// Connection settings: the endpoint and the optional credentials.
#[derive(Debug, Clone)]
pub struct RedisConfig {
    /// The endpoint, as a `redis://` URL.
    pub url: String,
    pub username: Option<String>,
    pub password: Option<String>,
}

/// The endpoint used where none is configured: the loopback address and the
/// store's default port.
pub open spec fn default_url() -> Seq<char> {
    "redis://127.0.0.1:6379"@
}

/// What a looked-up setting provides: its text, unless it is missing or
/// empty.
pub open spec fn provided(setting: Option<String>) -> Option<Seq<char>> {
    match setting {
        Some(text) => if text@.len() > 0 {
            Some(text@)
        } else {
            None
        },
        None => None,
    }
}

/// The text of an optional string.
pub open spec fn text_of_setting(setting: Option<String>) -> Option<Seq<char>> {
    match setting {
        Some(text) => Some(text@),
        None => None,
    }
}

fn non_empty(setting: Option<String>) -> (kept: Option<String>)
    ensures
        text_of_setting(kept) == provided(setting),
{
    match setting {
        Some(text) => if text.as_str().is_empty() {
            None
        } else {
            Some(text)
        },
        None => None,
    }
}

impl RedisConfig {
    /// Whether this configuration is what the three looked-up settings
    /// resolve to: the endpoint if provided, else the default one; each
    /// credential if provided, else none.
    pub open spec fn resolves(
        self,
        url: Option<String>,
        username: Option<String>,
        password: Option<String>,
    ) -> bool {
        &&& self.url@ == match provided(url) {
            Some(text) => text,
            None => default_url(),
        }
        &&& text_of_setting(self.username) == provided(username)
        &&& text_of_setting(self.password) == provided(password)
    }

    /// Resolves the configuration from the three settings as they were
    /// looked up. An empty setting counts as a missing one. This cannot fail.
    pub fn from_lookups(
        url: Option<String>,
        username: Option<String>,
        password: Option<String>,
    ) -> (config: RedisConfig)
        ensures
            config.resolves(url, username, password),
    {
        let url = match non_empty(url) {
            Some(text) => text,
            None => "redis://127.0.0.1:6379".to_owned(),
        };
        RedisConfig { url, username: non_empty(username), password: non_empty(password) }
    }
}

impl Default for RedisConfig {
    /// The configuration where nothing is set: the default endpoint, no
    /// credentials.
    fn default() -> (config: RedisConfig)
        ensures
            config.resolves(None, None, None),
    {
        RedisConfig::from_lookups(None, None, None)
    }
}

} // verus!
