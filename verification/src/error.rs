use vstd::prelude::*;

use crate::config::ConfigError;

verus! {

/// Text of the error reported when an event does not fit the current state.
pub open spec fn out_of_order_text() -> Seq<char> {
    "event out of order"@
}

/// Text of the error reported when the number of build outcomes differs from
/// the number of builders that were handed out.
pub open spec fn miscounted_text() -> Seq<char> {
    "unexpected number of built clients"@
}

/// The ways in which building or polling can fail.
#[derive(Debug, Clone, PartialEq, Eq)]
pub enum Error {
    /// The notification service did not answer the availability check.
    AutoscanUnavailable(String),
    /// An index client failed while it was built or synchronized.
    Bernard(String),
    /// Any other failure.
    Unexpected(String),
    /// The configuration is incomplete.
    Configuration(ConfigError),
}

impl Error {
    /// The error for an event that the current state does not accept.
    pub fn out_of_order() -> (e: Error)
        ensures
            e matches Error::Unexpected(m) && m@ == out_of_order_text(),
    {
        Error::Unexpected("event out of order".to_owned())
    }

    /// The error for a batch of build outcomes of the wrong size.
    pub fn miscounted() -> (e: Error)
        ensures
            e matches Error::Unexpected(m) && m@ == miscounted_text(),
    {
        Error::Unexpected("unexpected number of built clients".to_owned())
    }

    /// A short description of the error, the payload included where there is one.
    pub fn message(&self) -> (text: String)
        ensures
            text@ == self.message_text(),
    {
        match self {
            Error::AutoscanUnavailable(_) => "Autoscan is unavailable".to_owned(),
            Error::Bernard(_) => "Bernard".to_owned(),
            Error::Unexpected(m) => m.clone(),
            Error::Configuration(_) => "Invalid configuration".to_owned(),
        }
    }

    /// What `message` returns.
    pub open spec fn message_text(&self) -> Seq<char> {
        match self {
            Error::AutoscanUnavailable(_) => "Autoscan is unavailable"@,
            Error::Bernard(_) => "Bernard"@,
            Error::Unexpected(m) => m@,
            Error::Configuration(_) => "Invalid configuration"@,
        }
    }
}

} // verus!
