//! Single-owner access control: one account may change the configuration,
//! hand the ownership on, or give it up.
//!
//! The caller of an operation is an argument here: whoever drives the engine
//! knows who is calling and passes that account in.

use crate::address::Address;
use vstd::prelude::*;

verus! {

/// The caller is not the owner.
#[derive(Clone, Copy, Debug, PartialEq, Eq, Structural)]
pub struct OwnableUnauthorizedAccount {
    /// The account that called.
    pub account: Address,
}

/// The account cannot become the owner.
#[derive(Clone, Copy, Debug, PartialEq, Eq, Structural)]
pub struct OwnableInvalidOwner {
    /// The account that was proposed.
    pub owner: Address,
}

/// Why an ownership operation was refused.
#[derive(Clone, Copy, Debug, PartialEq, Eq, Structural)]
pub enum Error {
    /// The caller is not the owner.
    UnauthorizedAccount(OwnableUnauthorizedAccount),
    /// The proposed owner is the identifier of no account.
    InvalidOwner(OwnableInvalidOwner),
}

/// The error of a caller who is not the owner.
pub open spec fn unauthorized(caller: Address) -> Error {
    Error::UnauthorizedAccount(OwnableUnauthorizedAccount { account: caller })
}

/// The error of proposing no account as the owner.
pub open spec fn invalid_owner() -> Error {
    Error::InvalidOwner(OwnableInvalidOwner { owner: Address::spec_zero() })
}

/// The current owner. The identifier of no account stands for "no owner".
#[derive(Clone, Copy, Debug, PartialEq, Eq, Structural)]
pub struct Ownable {
    pub owner: Address,
}

impl Ownable {
    /// What `only_owner` answers.
    pub open spec fn spec_only_owner(self, caller: Address) -> Result<(), Error> {
        if self.owner != caller {
            Err(unauthorized(caller))
        } else {
            Ok(())
        }
    }

    /// What `transfer_ownership` answers.
    pub open spec fn spec_transfer(self, caller: Address, new_owner: Address) -> Result<
        Ownable,
        Error,
    > {
        if self.owner != caller {
            Err(unauthorized(caller))
        } else if new_owner == Address::spec_zero() {
            Err(invalid_owner())
        } else {
            Ok(Ownable { owner: new_owner })
        }
    }

    /// What `renounce_ownership` answers.
    pub open spec fn spec_renounce(self, caller: Address) -> Result<Ownable, Error> {
        if self.owner != caller {
            Err(unauthorized(caller))
        } else {
            Ok(Ownable { owner: Address::spec_zero() })
        }
    }

    /// A contract that nobody owns yet.
    pub fn unowned() -> (r: Ownable)
        ensures
            r.owner == Address::spec_zero(),
    {
        Ownable { owner: Address::zero() }
    }

    /// Sets the first owner. Refused with `InvalidOwner` for the identifier of
    /// no account, and the state is then left as it was.
    pub fn constructor(&mut self, initial_owner: Address) -> (r: Result<(), Error>)
        ensures
            initial_owner == Address::spec_zero() ==> r == Err::<(), Error>(invalid_owner())
                && *final(self) == *old(self),
            initial_owner != Address::spec_zero() ==> r is Ok && final(self).owner
                == initial_owner,
    {
        if initial_owner.is_zero() {
            return Err(Error::InvalidOwner(OwnableInvalidOwner { owner: Address::zero() }));
        }
        self.owner = initial_owner;
        Ok(())
    }

    /// The current owner.
    pub fn owner(&self) -> (r: Address)
        ensures
            r == self.owner,
    {
        self.owner
    }

    /// Passes for the owner and refuses every other caller with
    /// `UnauthorizedAccount`.
    pub fn only_owner(&self, caller: Address) -> (r: Result<(), Error>)
        ensures
            r == self.spec_only_owner(caller),
            r is Ok <==> caller == self.owner,
    {
        if self.owner != caller {
            return Err(Error::UnauthorizedAccount(OwnableUnauthorizedAccount { account: caller }));
        }
        Ok(())
    }

    /// Hands the ownership to `new_owner`. Only the owner may do so, and not
    /// to the identifier of no account; a refusal changes nothing.
    pub fn transfer_ownership(&mut self, caller: Address, new_owner: Address) -> (r: Result<
        (),
        Error,
    >)
        ensures
            match old(self).spec_transfer(caller, new_owner) {
                Ok(next) => r is Ok && *final(self) == next,
                Err(e) => r == Err::<(), Error>(e) && *final(self) == *old(self),
            },
    {
        match self.only_owner(caller) {
            Ok(()) => {},
            Err(e) => {
                return Err(e);
            },
        }
        if new_owner.is_zero() {
            return Err(Error::InvalidOwner(OwnableInvalidOwner { owner: Address::zero() }));
        }
        self.owner = new_owner;
        Ok(())
    }

    /// Gives the ownership up for good. Only the owner may do so; a refusal
    /// changes nothing.
    pub fn renounce_ownership(&mut self, caller: Address) -> (r: Result<(), Error>)
        ensures
            match old(self).spec_renounce(caller) {
                Ok(next) => r is Ok && *final(self) == next,
                Err(e) => r == Err::<(), Error>(e) && *final(self) == *old(self),
            },
    {
        match self.only_owner(caller) {
            Ok(()) => {},
            Err(e) => {
                return Err(e);
            },
        }
        self.owner = Address::zero();
        Ok(())
    }
}

} // verus!
