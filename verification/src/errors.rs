//! The error taxonomy: every failure surfaces to the entry point and halts
//! the program; there is no local recovery anywhere.

use vstd::prelude::*;

verus! {

/// Everything that can go wrong, by component.
#[derive(Clone, Copy, Debug, PartialEq, Eq, Structural)]
pub enum Error {
    /// The credentials file is missing, unreadable, or malformed.
    Config,
    /// The cached user profile is present but malformed.
    Cache,
    /// A transport-level failure while talking to the endpoint.
    Network,
    /// A parsed response lacks a field it was required to carry.
    Response,
}

impl Error {
    /// A short description of the failure, for the entry point to report.
    pub fn message(&self) -> (r: String)
        ensures
            r@ == match self {
                Error::Config => "could not read or parse the credentials file"@,
                Error::Cache => "the cached user profile is malformed"@,
                Error::Network => "could not reach the sync endpoint"@,
                Error::Response => "the sync response lacks the requested user"@,
            },
    {
        match self {
            Error::Config => "could not read or parse the credentials file".to_owned(),
            Error::Cache => "the cached user profile is malformed".to_owned(),
            Error::Network => "could not reach the sync endpoint".to_owned(),
            Error::Response => "the sync response lacks the requested user".to_owned(),
        }
    }
}

} // verus!
