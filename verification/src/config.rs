//! Settings at the boundary to the configuration provider.
//!
//! The provider itself (files, environment, credential store) lives outside
//! the library; what stands here is the shape of the settings and the exact
//! reading given to the raw values the provider hands over.

use vstd::prelude::*;
use vstd::string::StringExecFns;

use crate::errors::Error;

verus! {

/// How often the user must confirm a signing request.
#[derive(Clone, Copy, Debug, PartialEq, Eq, Structural)]
pub enum Prompt {
    /// Approve every request silently.
    NoPrompt,
    /// Ask again once this many seconds have passed since the last approval.
    EveryNSeconds(i64),
}

/// The settings the rest of the system runs under.
#[derive(Debug)]
pub struct Config {
    /// Path of the single-file relational store.
    pub db_path: String,
    /// The confirmation policy for the serving daemon.
    pub prompt: Prompt,
    /// Whether the OS credential store may cache the master password.
    pub trust_keyring: bool,
}

/// Window length written into a fresh configuration, in seconds.
pub const DEFAULT_PROMPT_WINDOW: i64 = 60;

/// A fresh configuration does not trust the OS credential store.
pub const DEFAULT_TRUST_KEYRING: bool = false;

/// The prompt policy a timeout setting stands for: a non-positive number of
/// seconds disables prompting altogether.
pub fn prompt_from_timeout(timeout: i64) -> (r: Prompt)
    ensures
        timeout <= 0 ==> r is NoPrompt,
        timeout > 0 ==> r == Prompt::EveryNSeconds(timeout),
{
    if timeout <= 0 {
        Prompt::NoPrompt
    } else {
        Prompt::EveryNSeconds(timeout)
    }
}

/// Reads the three raw settings into a `Config`.
///
/// For each setting the outer `Option` says whether its key was present at
/// all, the inner one whether its value had the right type. A missing key
/// and a value of the wrong type are both fatal configuration errors: a
/// misconfigured prompt window must never silently turn consent gating off.
pub fn interpret_settings(
    database: Option<Option<String>>,
    prompt: Option<Option<i64>>,
    keyring: Option<Option<bool>>,
) -> (r: Result<Config, Error>)
    ensures
        r is Ok <==> (database matches Some(Some(_))) && (prompt matches Some(Some(_))) && (
        keyring matches Some(Some(_))),
        r matches Ok(c) ==> {
            &&& database matches Some(Some(d)) && c.db_path@ == d@
            &&& prompt matches Some(Some(t)) && c.prompt == prompt_from_timeout_spec(t)
            &&& keyring matches Some(Some(k)) && c.trust_keyring == k
        },
        r matches Err(e) ==> e is Config,
{
    let db_path = match database {
        Some(Some(d)) => d,
        _ => {
            return Err(Error::Config);
        },
    };
    let timeout: i64 = match prompt {
        Some(Some(t)) => t,
        _ => {
            return Err(Error::Config);
        },
    };
    let trust_keyring: bool = match keyring {
        Some(Some(b)) => b,
        _ => {
            return Err(Error::Config);
        },
    };
    Ok(Config { db_path, prompt: prompt_from_timeout(timeout), trust_keyring })
}

/// What `prompt_from_timeout` returns, for use in contracts.
pub open spec fn prompt_from_timeout_spec(timeout: i64) -> Prompt {
    if timeout <= 0 {
        Prompt::NoPrompt
    } else {
        Prompt::EveryNSeconds(timeout)
    }
}

/// The directory the configuration lives in: an explicit override wins,
/// otherwise it hangs off the home directory.
pub fn config_dir(xdg_config_home: Option<String>, home: String) -> (r: String)
    ensures
        xdg_config_home matches Some(p) ==> r@ == p@ + "/sshield"@,
        xdg_config_home is None ==> r@ == home@ + ".config/sshield"@,
{
    match xdg_config_home {
        Some(p) => p.concat("/sshield"),
        None => home.concat(".config/sshield"),
    }
}

/// Where a fresh configuration puts the store, under the configuration
/// directory.
pub fn default_database_path(dir: &str) -> (r: String)
    ensures
        r@ == dir@ + "/keys.db3"@,
{
    String::from_str(dir).concat("/keys.db3")
}

/// The configuration file itself, under the configuration directory.
pub fn config_file_path(dir: &str) -> (r: String)
    ensures
        r@ == dir@ + "/sshield.toml"@,
{
    String::from_str(dir).concat("/sshield.toml")
}

} // verus!
