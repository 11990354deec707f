//! The error taxonomy. Every failure propagates as a typed result; nothing
//! in this library retries or panics.

use vstd::prelude::*;

use crate::auth::{Role, Scope};

verus! {

/// Why an operation failed.
#[derive(Debug, Clone, PartialEq, Eq)]
pub enum Error {
    /// The signing capability refused or failed to produce a signature.
    Signing { message: String },
    /// Credential issuance or an authenticated call answered with a
    /// non-success HTTP status; the server's message is kept verbatim.
    Authentication { status: u16, method: String, path: String, message: String },
    /// An operation was attempted under a role that does not satisfy its
    /// required scope. Detected locally, before any network call.
    Scope { required: Scope, active: Role },
    /// Credential material or configuration supplied by the caller is
    /// unusable, such as a secret that is not valid base64.
    Config { message: String },
}

impl Error {
    /// A short machine-readable tag for the error class.
    pub fn kind(&self) -> (r: &'static str)
        ensures
            (self is Signing) ==> r@ == "signing"@,
            (self is Authentication) ==> r@ == "authentication"@,
            (self is Scope) ==> r@ == "scope"@,
            (self is Config) ==> r@ == "config"@,
    {
        match self {
            Error::Signing { .. } => "signing",
            Error::Authentication { .. } => "authentication",
            Error::Scope { .. } => "scope",
            Error::Config { .. } => "config",
        }
    }
}

} // verus!
