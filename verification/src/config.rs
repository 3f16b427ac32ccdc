use vstd::prelude::*;

verus! {

/// The identity under which one remote-storage account is reached.
#[derive(Debug, Clone, PartialEq, Eq)]
pub struct Account {
    /// Where the account's key is kept.
    pub key_file: String,
}

/// How to authenticate against the notification service.
#[derive(Debug, Clone, PartialEq, Eq)]
pub struct Authentication {
    pub username: String,
    pub password: String,
}

/// Where the notification service is, and how to log in.
#[derive(Debug, Clone, PartialEq, Eq)]
pub struct AutoscanConfig {
    pub url: String,
    pub authentication: Authentication,
}

/// The remote locations that are in scope, in the order given.
#[derive(Debug, Clone, PartialEq, Eq)]
pub struct DriveConfig {
    pub drives: Vec<String>,
}

/// Why a configuration cannot be used.
#[derive(Debug, Clone, Copy, PartialEq, Eq, Structural)]
pub enum ConfigError {
    /// No primary account was given.
    MissingAccount,
}

/// Everything the builder needs, already read and parsed.
#[derive(Debug, Clone, PartialEq, Eq)]
pub struct Config {
    pub autoscan: AutoscanConfig,
    pub drive: DriveConfig,
    /// The secondary accounts; there may be none.
    pub secondary: Vec<Account>,
    /// The primary account, the one that the polling cycle synchronizes.
    pub primary: Option<Account>,
}

impl Config {
    /// The primary account, or `MissingAccount` where none was configured.
    pub fn account(&self) -> (r: Result<&Account, ConfigError>)
        ensures
            match self.primary {
                Some(a) => r == Ok::<&Account, ConfigError>(&a),
                None => r == Err::<&Account, ConfigError>(ConfigError::MissingAccount),
            },
    {
        match &self.primary {
            Some(a) => Ok(a),
            None => Err(ConfigError::MissingAccount),
        }
    }
}

} // verus!
