//! The stored configuration and where the API key comes from.

use vstd::prelude::*;
use crate::error::CliError;

verus! {

/// The configuration file's contents.
#[derive(Debug, Clone, PartialEq, Eq)]
pub struct Config {
    pub auth: Option<AuthConfig>,
    pub defaults: Option<DefaultsConfig>,
}

impl Default for Config {
    /// The configuration when no file exists: nothing stored.
    fn default() -> (r: Self)
        ensures
            r.auth.is_none(),
            r.defaults.is_none(),
    {
        Config { auth: None, defaults: None }
    }
}

#[derive(Debug, Clone, PartialEq, Eq)]
pub struct AuthConfig {
    pub api_key: Option<String>,
}

#[derive(Debug, Clone, PartialEq, Eq)]
pub struct DefaultsConfig {
    pub team: Option<String>,
    pub format: Option<String>,
}

/// The API key stored in a configuration, if any.
pub open spec fn spec_stored_key(c: Config) -> Option<Seq<char>> {
    match c.auth {
        Some(a) => match a.api_key {
            Some(k) => Some(k@),
            None => None,
        },
        None => None,
    }
}

impl Config {
    /// The stored API key.
    pub fn api_key(&self) -> (r: Option<&str>)
        ensures
            match r {
                Some(k) => spec_stored_key(*self) == Some(k@),
                None => spec_stored_key(*self).is_none(),
            },
    {
        match &self.auth {
            Some(a) => match &a.api_key {
                Some(k) => Some(k.as_str()),
                None => None,
            },
            None => None,
        }
    }

    /// The configuration after `auth login`: the key is stored, the rest kept.
    pub fn login(self, key: String) -> (r: Config)
        ensures
            r.auth == Some(AuthConfig { api_key: Some(key) }),
            r.defaults == self.defaults,
    {
        Config { auth: Some(AuthConfig { api_key: Some(key) }), defaults: self.defaults }
    }

    /// The configuration after `auth logout`: no authentication stored, the
    /// rest kept.
    pub fn logout(self) -> (r: Config)
        ensures
            r.auth.is_none(),
            r.defaults == self.defaults,
    {
        Config { auth: None, defaults: self.defaults }
    }
}

/// The key a command uses: the one given on the command line, else the one in
/// the environment (`LINEAR_API_KEY`), else the stored one.
pub open spec fn spec_api_key(
    cli_key: Option<Seq<char>>,
    env_key: Option<Seq<char>>,
    config_key: Option<Seq<char>>,
) -> Option<Seq<char>> {
    if cli_key is Some {
        cli_key
    } else if env_key is Some {
        env_key
    } else {
        config_key
    }
}

pub open spec fn opt_view(s: Option<&str>) -> Option<Seq<char>> {
    match s {
        Some(v) => Some(v@),
        None => None,
    }
}

/// The API key to use, by precedence: command line, then the value of the
/// environment variable `LINEAR_API_KEY` (read by the caller), then the
/// configuration file. Fails with `NoApiKey` when none is set.
pub fn resolve_api_key(cli_key: Option<&str>, env_key: Option<&str>, config_key: Option<&str>) -> (r:
    Result<String, CliError>)
    ensures
        match r {
            Ok(k) => spec_api_key(opt_view(cli_key), opt_view(env_key), opt_view(config_key))
                == Some(k@),
            Err(e) => spec_api_key(opt_view(cli_key), opt_view(env_key), opt_view(config_key)).is_none()
                && e == CliError::NoApiKey,
        },
        cli_key matches Some(c) ==> (r matches Ok(k) && k@ == c@),
        cli_key is None ==> (env_key matches Some(e) ==> (r matches Ok(k) && k@ == e@)),
        cli_key is None && env_key is None ==> (config_key matches Some(s) ==> (r matches Ok(k) && k@ == s@)),
        (cli_key is None && env_key is None && config_key is None) ==> r == Err::<String, CliError>(
            CliError::NoApiKey,
        ),
{
    match cli_key {
        Some(k) => Ok(k.to_owned()),
        None => match env_key {
            Some(k) => Ok(k.to_owned()),
            None => match config_key {
                Some(k) => Ok(k.to_owned()),
                None => Err(CliError::NoApiKey),
            },
        },
    }
}

/// A key on the command line always wins, whatever the environment and the
/// configuration hold; without one, a key in the environment wins over the
/// stored one; the stored key is used only when neither is given.
pub proof fn lemma_key_precedence(cli: Option<Seq<char>>, env: Option<Seq<char>>, stored: Option<Seq<char>>)
    ensures
        cli matches Some(c) ==> spec_api_key(cli, env, stored) == Some(c),
        cli is None ==> (env matches Some(e) ==> spec_api_key(cli, env, stored) == Some(e)),
        cli is None && env is None ==> spec_api_key(cli, env, stored) == stored,
        spec_api_key(cli, env, stored) is None <==> (cli is None && env is None && stored is None),
{
}

/// After `auth login` with a key, the stored key reads back as that key, and
/// a command without a key on the command line or in the environment uses it.
pub proof fn lemma_login_then_read(c: Config, key: String)
    ensures
        ({
            let after = Config { auth: Some(AuthConfig { api_key: Some(key) }), defaults: c.defaults };
            &&& spec_stored_key(after) == Some(key@)
            &&& spec_api_key(None, None, spec_stored_key(after)) == Some(key@)
        }),
{
}

/// After `auth logout` nothing is stored, so without a key on the command
/// line or in the environment a command fails for want of one.
pub proof fn lemma_logout_then_read(c: Config)
    ensures
        ({
            let after = Config { auth: None, defaults: c.defaults };
            &&& spec_stored_key(after).is_none()
            &&& spec_api_key(None, None, spec_stored_key(after)).is_none()
        }),
{
}

} // verus!
