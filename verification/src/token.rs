//! Where the bot's authentication token comes from.
//!
//! A caller may name the token directly, name an environment variable to
//! read it from, or name a file holding it; with none of those the default
//! environment variable is consulted.  The decision between the sources is
//! pure and verified here; reading the chosen source is input handled by
//! the caller.

use vstd::prelude::*;

verus! {

/// The ways a token can be supplied.  At most one is expected to be set;
/// when several are, the precedence is the declaration order below.
#[derive(PartialEq, Eq, Debug)]
pub struct TokenOptions {
    /// The token itself, given directly.
    pub token: Option<String>,
    /// The name of an environment variable to read the token from.
    pub token_var: Option<String>,
    /// The path of a file to read the token from.
    pub token_file: Option<String>,
}

/// The one source the token is to be read from.
#[derive(PartialEq, Eq, Debug)]
pub enum TokenSource {
    /// Use this token as it is.
    Direct(String),
    /// Read the named environment variable.
    EnvVar(String),
    /// Read the named file.
    File(String),
    /// Read the default environment variable.
    DefaultEnv,
}

impl TokenOptions {
    /// Decides where the token is read from: a directly given token wins
    /// over a named environment variable, which wins over a named file;
    /// with nothing given the default environment variable is left.
    pub fn token_source(self) -> (source: TokenSource)
        ensures
            match self.token {
                Some(token) => source matches TokenSource::Direct(chosen) && chosen@ == token@,
                None => match self.token_var {
                    Some(var) => source matches TokenSource::EnvVar(chosen) && chosen@ == var@,
                    None => match self.token_file {
                        Some(file) => source matches TokenSource::File(chosen) && chosen@
                            == file@,
                        None => source == TokenSource::DefaultEnv,
                    },
                },
            },
    {
        if let Some(token) = self.token {
            TokenSource::Direct(token)
        } else if let Some(var) = self.token_var {
            TokenSource::EnvVar(var)
        } else if let Some(file) = self.token_file {
            TokenSource::File(file)
        } else {
            TokenSource::DefaultEnv
        }
    }
}

} // verus!
