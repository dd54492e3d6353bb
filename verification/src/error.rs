//! The errors that the engine reports.

use crate::ownable;
use crate::ownable::{OwnableInvalidOwner, OwnableUnauthorizedAccount};
use vstd::prelude::*;
use vstd::std_specs::convert::FromSpecImpl;

verus! {

/// Why an operation of the engine failed.
#[derive(Clone, Copy, Debug, PartialEq, Eq, Structural)]
pub enum Error {
    /// The caller of an owner-only operation is not the owner.
    UnauthorizedAccount(OwnableUnauthorizedAccount),
    /// The proposed owner is the identifier of no account.
    InvalidOwner(OwnableInvalidOwner),
    /// No such protocol. Kept for lookups by protocol; no operation reports
    /// it today.
    InvalidProtocol,
    /// No price feed is registered for the token.
    InvalidToken,
    /// A query to the outside failed.
    CallFailed,
}

impl Error {
    /// The engine's error for an error of the ownership rules.
    pub open spec fn of_ownable(value: ownable::Error) -> Error {
        match value {
            ownable::Error::UnauthorizedAccount(e) => Error::UnauthorizedAccount(e),
            ownable::Error::InvalidOwner(e) => Error::InvalidOwner(e),
        }
    }
}

impl From<ownable::Error> for Error {
    fn from(value: ownable::Error) -> (r: Error) {
        match value {
            ownable::Error::UnauthorizedAccount(e) => Error::UnauthorizedAccount(e),
            ownable::Error::InvalidOwner(e) => Error::InvalidOwner(e),
        }
    }
}

impl FromSpecImpl<ownable::Error> for Error {
    open spec fn obeys_from_spec() -> bool {
        true
    }

    open spec fn from_spec(value: ownable::Error) -> Error {
        Error::of_ownable(value)
    }
}

} // verus!
