//! The failure taxonomy shared by every component.
//!
//! Expected misses (an unknown nickname, a duplicate) surface as boolean or
//! optional results at the call sites; everything else is one of these
//! variants. Each has a one-line diagnostic that the binary prints.

use vstd::prelude::*;

verus! {

/// Why an operation failed.
#[derive(Clone, Copy, Debug, PartialEq, Eq, Structural)]
pub enum Error {
    /// The store could not be opened, its schema could not be created, or a
    /// statement failed below the constraint level.
    Storage,
    /// A stored key blob could not be decoded: the record is corrupt, which
    /// is fatal for that record rather than silently ignored.
    Decode,
    /// No record carries the requested nickname.
    NotFound,
    /// The agent socket could not be bound or connected to.
    Socket,
    /// The authorization policy declined a signing request.
    AuthDenied,
    /// A setting is missing or invalid.
    Config,
}

impl Error {
    /// The one-line diagnostic for this failure.
    pub fn describe(&self) -> (r: &'static str)
        ensures
            self is Storage ==> r@ == "unable to open or modify the key store"@,
            self is Decode ==> r@ == "a stored key could not be decoded; the record is corrupt"@,
            self is NotFound ==> r@ == "no key with that nickname exists"@,
            self is Socket ==> r@ == "the agent socket could not be reached"@,
            self is AuthDenied ==> r@ == "the request was denied by the authorization policy"@,
            self is Config ==> r@ == "a setting is missing or invalid"@,
    {
        match self {
            Error::Storage => "unable to open or modify the key store",
            Error::Decode => "a stored key could not be decoded; the record is corrupt",
            Error::NotFound => "no key with that nickname exists",
            Error::Socket => "the agent socket could not be reached",
            Error::AuthDenied => "the request was denied by the authorization policy",
            Error::Config => "a setting is missing or invalid",
        }
    }
}

} // verus!
