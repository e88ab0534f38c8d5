//! Single-owner access control: one owner slot, set once by `initialize`
//! and handed on or given up by the owner alone.

use crate::address::Address;
use crate::table::Key;
use vstd::prelude::*;

verus! {

/// Emitted whenever the owner slot is written.
#[derive(Clone, Copy, Debug, PartialEq, Eq)]
pub struct OwnershipTransferred {
    pub previous_owner: Address,
    pub new_owner: Address,
}

/// The caller `account` is not the owner.
#[derive(Clone, Copy, Debug, PartialEq, Eq)]
pub struct OwnableUnauthorizedAccount {
    pub account: Address,
}

/// The null address `owner` was offered as an owner.
#[derive(Clone, Copy, Debug, PartialEq, Eq)]
pub struct OwnableInvalidOwner {
    pub owner: Address,
}

/// `initialize` was called a second time.
#[derive(Clone, Copy, Debug, PartialEq, Eq)]
pub struct OwnableAlreadyInitialized {}

/// Why an access-control operation failed.
#[derive(Clone, Copy, Debug, PartialEq, Eq)]
pub enum OwnableError {
    OwnableUnauthorizedAccount(OwnableUnauthorizedAccount),
    OwnableInvalidOwner(OwnableInvalidOwner),
    OwnableAlreadyInitialized(OwnableAlreadyInitialized),
}

/// The access-control state as contracts speak of it.
pub struct OwnableState {
    pub owner: Address,
    pub initialized: bool,
}

impl OwnableState {
    /// The state at deployment: no owner, not initialized.
    pub open spec fn fresh() -> OwnableState {
        OwnableState { owner: Address::zero_spec(), initialized: false }
    }

    /// What the only-owner guard answers to `caller`.
    pub open spec fn only_owner(self, caller: Address) -> Result<(), OwnableError> {
        if caller == self.owner {
            Ok(())
        } else {
            Err(
                OwnableError::OwnableUnauthorizedAccount(
                    OwnableUnauthorizedAccount { account: caller },
                ),
            )
        }
    }

    /// The state with `new_owner` in the owner slot.
    pub open spec fn with_owner(self, new_owner: Address) -> OwnableState {
        OwnableState { owner: new_owner, initialized: self.initialized }
    }

    /// The event that a write of `new_owner` to the owner slot emits.
    pub open spec fn handover(self, new_owner: Address) -> OwnershipTransferred {
        OwnershipTransferred { previous_owner: self.owner, new_owner }
    }

    /// What `initialize` returns: an error where the state is already
    /// initialized or the offered owner is null, else the event.
    pub open spec fn initialize_result(self, initial_owner: Address) -> Result<
        OwnershipTransferred,
        OwnableError,
    > {
        if self.initialized {
            Err(OwnableError::OwnableAlreadyInitialized(OwnableAlreadyInitialized {  }))
        } else if initial_owner.is_zero_spec() {
            Err(OwnableError::OwnableInvalidOwner(OwnableInvalidOwner { owner: initial_owner }))
        } else {
            Ok(self.handover(initial_owner))
        }
    }

    /// The state after `initialize`: unchanged where it fails.
    pub open spec fn initialize(self, initial_owner: Address) -> OwnableState {
        if self.initialize_result(initial_owner) is Ok {
            OwnableState { owner: initial_owner, initialized: true }
        } else {
            self
        }
    }

    /// What `transfer_ownership` returns: the guard's error for a caller who
    /// is not the owner, an error for a null new owner, else the event.
    pub open spec fn transfer_ownership_result(self, caller: Address, new_owner: Address) -> Result<
        OwnershipTransferred,
        OwnableError,
    > {
        match self.only_owner(caller) {
            Err(e) => Err(e),
            Ok(_) => if new_owner.is_zero_spec() {
                Err(OwnableError::OwnableInvalidOwner(OwnableInvalidOwner { owner: new_owner }))
            } else {
                Ok(self.handover(new_owner))
            },
        }
    }

    /// The state after `transfer_ownership`: unchanged where it fails.
    pub open spec fn transfer_ownership(self, caller: Address, new_owner: Address) -> OwnableState {
        if self.transfer_ownership_result(caller, new_owner) is Ok {
            self.with_owner(new_owner)
        } else {
            self
        }
    }

    /// What `renounce_ownership` returns: the guard's error for a caller who
    /// is not the owner, else the event of a handover to the null address.
    pub open spec fn renounce_ownership_result(self, caller: Address) -> Result<
        OwnershipTransferred,
        OwnableError,
    > {
        match self.only_owner(caller) {
            Err(e) => Err(e),
            Ok(_) => Ok(self.handover(Address::zero_spec())),
        }
    }

    /// The state after `renounce_ownership`: unchanged where it fails.
    pub open spec fn renounce_ownership(self, caller: Address) -> OwnableState {
        if self.renounce_ownership_result(caller) is Ok {
            self.with_owner(Address::zero_spec())
        } else {
            self
        }
    }
}

/// The owner slot and the flag that says whether it was ever initialized.
pub struct Ownable {
    owner: Address,
    initialized: bool,
}

impl View for Ownable {
    type V = OwnableState;

    closed spec fn view(&self) -> OwnableState {
        OwnableState { owner: self.owner, initialized: self.initialized }
    }
}

impl Ownable {
    /// The state at deployment: no owner, not initialized.
    pub fn new() -> (r: Ownable)
        ensures
            r@ == OwnableState::fresh(),
    {
        Ownable { owner: Address::zero(), initialized: false }
    }

    /// The state with these values in its two slots.
    pub fn from_parts(owner: Address, initialized: bool) -> (r: Ownable)
        ensures
            r@ == (OwnableState { owner, initialized }),
    {
        Ownable { owner, initialized }
    }

    /// Lets the owner through and turns every other caller away.
    pub fn only_owner(&self, caller: Address) -> (r: Result<(), OwnableError>)
        ensures
            r == self@.only_owner(caller),
    {
        if !caller.same(&self.owner) {
            return Err(
                OwnableError::OwnableUnauthorizedAccount(
                    OwnableUnauthorizedAccount { account: caller },
                ),
            );
        }
        Ok(())
    }

    /// Writes `new_owner` to the owner slot, unguarded, and returns the event.
    pub fn transfer_ownership_impl(&mut self, new_owner: Address) -> (r: OwnershipTransferred)
        ensures
            final(self)@ == old(self)@.with_owner(new_owner),
            r == old(self)@.handover(new_owner),
    {
        let old_owner = self.owner;
        self.owner = new_owner;
        OwnershipTransferred { previous_owner: old_owner, new_owner }
    }

    /// Gives ownership up for good: the owner slot becomes the null address.
    pub fn renounce_ownership(&mut self, caller: Address) -> (r: Result<
        OwnershipTransferred,
        OwnableError,
    >)
        ensures
            r == old(self)@.renounce_ownership_result(caller),
            final(self)@ == old(self)@.renounce_ownership(caller),
    {
        match self.only_owner(caller) {
            Err(e) => Err(e),
            Ok(_) => Ok(self.transfer_ownership_impl(Address::zero())),
        }
    }

    /// Hands ownership to `new_owner`, which must not be the null address.
    pub fn transfer_ownership(&mut self, caller: Address, new_owner: Address) -> (r: Result<
        OwnershipTransferred,
        OwnableError,
    >)
        ensures
            r == old(self)@.transfer_ownership_result(caller, new_owner),
            final(self)@ == old(self)@.transfer_ownership(caller, new_owner),
    {
        match self.only_owner(caller) {
            Err(e) => Err(e),
            Ok(_) => {
                if new_owner.is_zero() {
                    return Err(
                        OwnableError::OwnableInvalidOwner(OwnableInvalidOwner { owner: new_owner }),
                    );
                }
                Ok(self.transfer_ownership_impl(new_owner))
            },
        }
    }

    /// The current owner; the null address where there is none.
    pub fn owner(&self) -> (r: Result<Address, Vec<u8>>)
        ensures
            r == Ok::<Address, Vec<u8>>(self@.owner),
    {
        Ok(self.owner)
    }

    /// Whether `initialize` has succeeded.
    pub fn is_initialized(&self) -> (r: bool)
        ensures
            r == self@.initialized,
    {
        self.initialized
    }

    /// Sets the first owner. Succeeds once; every later call fails.
    pub fn initialize(&mut self, initial_owner: Address) -> (r: Result<
        OwnershipTransferred,
        OwnableError,
    >)
        ensures
            r == old(self)@.initialize_result(initial_owner),
            final(self)@ == old(self)@.initialize(initial_owner),
    {
        if self.initialized {
            return Err(
                OwnableError::OwnableAlreadyInitialized(OwnableAlreadyInitialized {  }),
            );
        }
        if initial_owner.is_zero() {
            return Err(
                OwnableError::OwnableInvalidOwner(OwnableInvalidOwner { owner: initial_owner }),
            );
        }
        let event = self.transfer_ownership_impl(initial_owner);
        self.initialized = true;
        Ok(event)
    }
}

} // verus!
