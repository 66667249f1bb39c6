//! `auth`: store or remove the API key, or show who it belongs to.

use vstd::prelude::*;
use crate::config::{AuthConfig, Config, opt_view, resolve_api_key, spec_api_key, spec_stored_key};
use crate::error::CliError;

verus! {

#[derive(Debug, Clone, PartialEq, Eq)]
pub struct AuthCommand {
    pub action: AuthAction,
}

#[derive(Debug, Clone, PartialEq, Eq)]
pub enum AuthAction {
    /// Store an API key.
    Login { key: String },
    /// Remove the stored authentication.
    Logout,
    /// Show the user the stored key belongs to.
    Whoami,
}

/// What an `auth` command does with the configuration that was loaded.
#[derive(Debug, Clone, PartialEq, Eq)]
pub enum AuthStep {
    /// Save this configuration and report `message`, with the file's path
    /// when `with_path`.
    Save { config: Config, message: String, with_path: bool },
    /// Ask the API who the stored key belongs to.
    Whoami(Config),
}

impl AuthCommand {
    /// The effect of the command on the loaded configuration: `login` stores
    /// the key ("API key saved", reported with the file's path), `logout`
    /// removes the authentication ("API key removed"), the other settings
    /// kept; `whoami` changes nothing.
    pub fn apply(self, config: Config) -> (r: AuthStep)
        ensures
            self.action matches AuthAction::Login { key } ==> (r matches AuthStep::Save { config: c, message, with_path }
                && c.auth == Some(AuthConfig { api_key: Some(key) }) && c.defaults == config.defaults
                && message@ == "API key saved"@ && with_path),
            self.action matches AuthAction::Logout ==> (r matches AuthStep::Save { config: c, message, with_path }
                && c.auth.is_none() && c.defaults == config.defaults && message@ == "API key removed"@
                && !with_path),
            self.action matches AuthAction::Whoami ==> r == AuthStep::Whoami(config),
    {
        match self.action {
            AuthAction::Login { key } => AuthStep::Save {
                config: config.login(key),
                message: "API key saved".to_owned(),
                with_path: true,
            },
            AuthAction::Logout => AuthStep::Save {
                config: config.logout(),
                message: "API key removed".to_owned(),
                with_path: false,
            },
            AuthAction::Whoami => AuthStep::Whoami(config),
        }
    }
}

/// The key `auth whoami` uses: the environment's (`LINEAR_API_KEY`, read by
/// the caller), else the stored one; a key on the command line is not
/// consulted. Fails with `NoApiKey` when neither is set.
pub fn whoami_key(config: &Config, env_key: Option<&str>) -> (r: Result<String, CliError>)
    ensures
        match r {
            Ok(k) => spec_api_key(None, opt_view(env_key), spec_stored_key(*config)) == Some(k@),
            Err(e) => spec_api_key(None, opt_view(env_key), spec_stored_key(*config)).is_none() && e
                == CliError::NoApiKey,
        },
{
    resolve_api_key(None, env_key, config.api_key())
}

} // verus!
