//! Credentials given to the command line tool.

use vstd::prelude::*;

verus! {

/// The environment variable that holds a personal access token.
pub const PERSONAL_ACCESS_TOKEN_ENV_VAR: &'static str = "PROTON_PASS_PERSONAL_ACCESS_TOKEN";

/// Supplies the credentials that the command line tool was given.
#[derive(Debug, Clone, Copy)]
pub struct CliCredentialProvider;

/// A credential that was not given.
#[derive(Debug, Clone, Copy, PartialEq, Eq)]
pub enum CredentialError {
    PersonalAccessTokenNotFound,
}

impl CredentialError {
    /// The message shown to the user.
    pub fn message(&self) -> (r: String)
        ensures
            r@ == "Personal access token token not found. Set "@ + PERSONAL_ACCESS_TOKEN_ENV_VAR@
                + " environment variable"@,
    {
        String::from_str("Personal access token token not found. Set ").concat(
            PERSONAL_ACCESS_TOKEN_ENV_VAR,
        ).concat(" environment variable")
    }
}

impl CliCredentialProvider {
    /// The personal access token, from the value of the environment
    /// variable `PERSONAL_ACCESS_TOKEN_ENV_VAR` when it is set.
    pub fn get_personal_access_token(&self, env_value: Option<String>) -> (r: Result<
        String,
        CredentialError,
    >)
        ensures
            match env_value {
                Some(token) => r == Ok::<String, CredentialError>(token),
                None => r == Err::<String, CredentialError>(
                    CredentialError::PersonalAccessTokenNotFound,
                ),
            },
    {
        match env_value {
            Some(token) => Ok(token),
            None => Err(CredentialError::PersonalAccessTokenNotFound),
        }
    }
}

} // verus!
