//! The settings the assistant runs with, and the rule that builds them from
//! the values found in its surroundings.

use vstd::prelude::*;
use vstd::string::StringExecFns;
use crate::text::text_of;

verus! {

/// The settings of a running assistant.
#[derive(Debug, Clone)]
pub struct Config {
    pub discord_token: String,
    pub gemini_api_key: String,
    pub bot_name: String,
}

/// A setting that has to be given and was not.
#[derive(Debug, Clone, Copy, PartialEq, Eq, Structural)]
pub enum ConfigError {
    MissingDiscordToken,
    MissingGeminiApiKey,
}

/// The name the assistant answers to where none is configured.
pub open spec fn default_bot_name() -> Seq<char> {
    "axis"@
}

impl ConfigError {
    /// What the error says, as contracts see it.
    pub open spec fn text(self) -> Seq<char> {
        match self {
            ConfigError::MissingDiscordToken => "DISCORD_TOKEN environment variable not set"@,
            ConfigError::MissingGeminiApiKey => "GEMINI_API_KEY environment variable not set"@,
        }
    }

    /// What the error says.
    pub fn describe(&self) -> (text: String)
        ensures
            text@ == self.text(),
    {
        match self {
            ConfigError::MissingDiscordToken => String::from_str(
                "DISCORD_TOKEN environment variable not set",
            ),
            ConfigError::MissingGeminiApiKey => String::from_str(
                "GEMINI_API_KEY environment variable not set",
            ),
        }
    }
}

impl Config {
    /// The settings that three values give, or the first of them that is
    /// missing: the token comes before the key.
    pub open spec fn assembled(
        discord_token: Option<Seq<char>>,
        gemini_api_key: Option<Seq<char>>,
        bot_name: Option<Seq<char>>,
    ) -> Result<(Seq<char>, Seq<char>, Seq<char>), ConfigError> {
        if discord_token is None {
            Err(ConfigError::MissingDiscordToken)
        } else if gemini_api_key is None {
            Err(ConfigError::MissingGeminiApiKey)
        } else {
            Ok(
                (
                    discord_token->0,
                    gemini_api_key->0,
                    if bot_name is Some {
                        bot_name->0
                    } else {
                        default_bot_name()
                    },
                ),
            )
        }
    }

    /// The three settings as contracts see them.
    pub open spec fn fields(&self) -> (Seq<char>, Seq<char>, Seq<char>) {
        (self.discord_token@, self.gemini_api_key@, self.bot_name@)
    }

    /// Builds the settings from the values found for them. The token and the
    /// key must be there; the name falls back to the default.
    pub fn from_values(
        discord_token: Option<String>,
        gemini_api_key: Option<String>,
        bot_name: Option<String>,
    ) -> (built: Result<Config, ConfigError>)
        ensures
            match Config::assembled(
                text_of(discord_token),
                text_of(gemini_api_key),
                text_of(bot_name),
            ) {
                Ok(fields) => built is Ok && built->Ok_0.fields() == fields,
                Err(error) => built == Err::<Config, ConfigError>(error),
            },
    {
        let discord_token = match discord_token {
            Some(token) => token,
            None => {
                return Err(ConfigError::MissingDiscordToken);
            },
        };
        let gemini_api_key = match gemini_api_key {
            Some(key) => key,
            None => {
                return Err(ConfigError::MissingGeminiApiKey);
            },
        };
        let bot_name = match bot_name {
            Some(name) => name,
            None => String::from_str("axis"),
        };
        Ok(Config { discord_token, gemini_api_key, bot_name })
    }
}

} // verus!
