//! Choosing the credential and model from the places they can come from.
use vstd::prelude::*;

verus! {

/// The model used when the configuration names none.
pub const DEFAULT_MODEL: &'static str = "whisper-1";

/// The key that a fresh configuration file holds until the user sets one.
pub const PLACEHOLDER_KEY: &'static str = "sk-your-key-here";

/// The settings a session needs.
pub struct Config {
    pub api_key: String,
    pub model: String,
}

/// Why no usable configuration could be formed.
#[derive(Clone, Copy, Debug, PartialEq, Eq, Structural)]
pub enum ConfigError {
    /// Neither the environment nor the file gives a key.
    MissingKey,
    /// The key is still the placeholder.
    PlaceholderKey,
}

/// The key chosen: the environment's over the file's.
pub open spec fn chosen_key(env_key: Option<String>, file_key: Option<String>) -> Option<
    Seq<char>,
> {
    match env_key {
        Some(k) => Some(k@),
        None => match file_key {
            Some(k) => Some(k@),
            None => None,
        },
    }
}

/// Forms the configuration from the key in the environment, and the key and
/// model that the configuration file gives, if any. The environment's key
/// wins over the file's; the model defaults to `DEFAULT_MODEL`.
pub fn resolve_config(
    env_key: Option<String>,
    file_key: Option<String>,
    file_model: Option<String>,
) -> (r: Result<Config, ConfigError>)
    ensures
        chosen_key(env_key, file_key) is None <==> r == Err::<Config, ConfigError>(
            ConfigError::MissingKey,
        ),
        chosen_key(env_key, file_key) == Some(PLACEHOLDER_KEY@) <==> r == Err::<
            Config,
            ConfigError,
        >(ConfigError::PlaceholderKey),
        r is Ok ==> {
            &&& chosen_key(env_key, file_key) == Some(r->Ok_0.api_key@)
            &&& r->Ok_0.api_key@ != PLACEHOLDER_KEY@
            &&& r->Ok_0.model@ == match file_model {
                Some(m) => m@,
                None => DEFAULT_MODEL@,
            }
        },
{
    let api_key: String = match env_key {
        Some(k) => k,
        None => match file_key {
            Some(k) => k,
            None => {
                return Err(ConfigError::MissingKey);
            },
        },
    };
    let placeholder: String = PLACEHOLDER_KEY.to_owned();
    if api_key == placeholder {
        return Err(ConfigError::PlaceholderKey);
    }
    let model: String = match file_model {
        Some(m) => m,
        None => DEFAULT_MODEL.to_owned(),
    };
    Ok(Config { api_key, model })
}

} // verus!
