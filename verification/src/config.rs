//! Process configuration: the three required values a run needs before any
//! prompting, and the fatal error naming whichever one is missing.

use vstd::prelude::*;

verus! {

/// The missing environment value, in the order the startup checks them.
#[derive(Clone, Copy, Debug, PartialEq, Eq, Structural)]
pub enum ConfigError {
    MissingHook,
    MissingChannel,
    MissingUsername,
}

impl ConfigError {
    /// The operator-facing message, naming the missing environment key.
    pub open spec fn message_spec(&self) -> Seq<char> {
        match self {
            ConfigError::MissingHook => "Please add STARLOG_HOOK to your environment variables"@,
            ConfigError::MissingChannel => "Please add STARLOG_CHANNEL to your environment variables"@,
            ConfigError::MissingUsername => "Please add STARLOG_USERNAME to your environment variables"@,
        }
    }

    pub fn message(&self) -> (r: &'static str)
        ensures
            r@ == self.message_spec(),
    {
        match self {
            ConfigError::MissingHook => "Please add STARLOG_HOOK to your environment variables",
            ConfigError::MissingChannel => "Please add STARLOG_CHANNEL to your environment variables",
            ConfigError::MissingUsername => "Please add STARLOG_USERNAME to your environment variables",
        }
    }
}

/// The delivery configuration: webhook endpoint, target channel and display
/// username, immutable once built.
#[derive(Clone, Debug)]
pub struct SlackHook {
    pub username: String,
    pub channel: String,
    pub url: String,
}

impl SlackHook {
    /// Builds the configuration from the three environment values, each
    /// `None` where the process environment lacks its key. Fails on the
    /// first missing one, in the order: hook URL, channel, username.
    pub fn new(url: Option<String>, channel: Option<String>, username: Option<String>) -> (r:
        Result<SlackHook, ConfigError>)
        ensures
            r is Err <==> (url is None || channel is None || username is None),
            url is None ==> r == Err::<SlackHook, ConfigError>(ConfigError::MissingHook),
            url is Some && channel is None ==> r == Err::<SlackHook, ConfigError>(
                ConfigError::MissingChannel,
            ),
            url is Some && channel is Some && username is None ==> r == Err::<
                SlackHook,
                ConfigError,
            >(ConfigError::MissingUsername),
            (url is Some && channel is Some && username is Some) ==> (r matches Ok(h) && h.url
                == url.unwrap() && h.channel == channel.unwrap() && h.username
                == username.unwrap()),
    {
        match (url, channel, username) {
            (None, _, _) => Err(ConfigError::MissingHook),
            (Some(_), None, _) => Err(ConfigError::MissingChannel),
            (Some(_), Some(_), None) => Err(ConfigError::MissingUsername),
            (Some(u), Some(c), Some(n)) => Ok(SlackHook { username: n, channel: c, url: u }),
        }
    }
}

} // verus!
