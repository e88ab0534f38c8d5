//! The whole contract as contracts speak of it: the state, and what each
//! callable operation makes of it.

use crate::address::Address;
use crate::erc721::{Erc721Error, InvalidSaleSetup, LedgerState};
use crate::ownable::OwnableState;
use crate::sale::{valid_setup, SaleState, SaleTerms};
use crate::uint::U256;
use vstd::prelude::*;

verus! {

/// The state of the contract: access control, token ledger and sale.
pub struct ContractState {
    pub ownable: OwnableState,
    pub ledger: LedgerState,
    pub sale: SaleState,
}

/// One call of an operation that may change the state, with its arguments,
/// the caller and the block time among them where the operation reads them.
pub enum Call {
    Initialize { initial_owner: Address },
    Mint { caller: Address, now: nat, amount: nat },
    RedeemPhysical { caller: Address, token_id: U256 },
    AdminRedeemPhysical { caller: Address, user: Address, token_id: U256 },
    SetSaleInfo { caller: Address, terms: SaleTerms },
    TransferOwnership { caller: Address, new_owner: Address },
    RenounceOwnership { caller: Address },
}

/// The error of an access-control result, carried over to the contract's
/// error type; none where the result is a success.
pub open spec fn ownable_error<T>(r: Result<T, crate::ownable::OwnableError>) -> Option<
    Erc721Error,
> {
    match r {
        Ok(_) => None,
        Err(e) => Some(Erc721Error::from_ownable_spec(e)),
    }
}

impl ContractState {
    /// The state at deployment.
    pub open spec fn fresh() -> ContractState {
        ContractState {
            ownable: OwnableState::fresh(),
            ledger: LedgerState::fresh(),
            sale: SaleState::fresh(),
        }
    }

    /// The ledger's counts agree with its ownership map, and the sale is
    /// well-formed.
    pub open spec fn wf(self) -> bool {
        &&& self.ledger.wf()
        &&& self.sale.wf()
    }

    /// Why `initialize` fails, if it does.
    pub open spec fn initialize_error(self, initial_owner: Address) -> Option<Erc721Error> {
        ownable_error(self.ownable.initialize_result(initial_owner))
    }

    /// The state after `initialize`.
    pub open spec fn initialize(self, initial_owner: Address) -> ContractState {
        ContractState { ownable: self.ownable.initialize(initial_owner), ..self }
    }

    /// Why `mint` fails, if it does: the mint is not admitted.
    pub open spec fn mint_error(self, caller: Address, now: nat, amount: nat) -> Option<
        Erc721Error,
    > {
        self.sale.admit_mint_error(caller, now, amount)
    }

    /// The state after `mint`: an admitted mint is counted against the
    /// caller and gives the caller `amount` new tokens.
    pub open spec fn mint(self, caller: Address, now: nat, amount: nat) -> ContractState {
        if self.mint_error(caller, now, amount) is None {
            ContractState {
                ownable: self.ownable,
                ledger: self.ledger.mint_many(caller, amount),
                sale: self.sale.admit_mint(caller, now, amount),
            }
        } else {
            self
        }
    }

    /// Why `redeem_physical` fails, if it does: the burn is refused.
    pub open spec fn redeem_physical_error(self, caller: Address, token_id: U256) -> Option<
        Erc721Error,
    > {
        self.ledger.burn_error(caller, token_id)
    }

    /// The state after `redeem_physical`.
    pub open spec fn redeem_physical(self, caller: Address, token_id: U256) -> ContractState {
        ContractState { ledger: self.ledger.burn(caller, token_id), ..self }
    }

    /// Why `admin_redeem_physical` fails, if it does: the caller is not the
    /// owner, or else the burn on behalf of `user` is refused.
    pub open spec fn admin_redeem_physical_error(
        self,
        caller: Address,
        user: Address,
        token_id: U256,
    ) -> Option<Erc721Error> {
        match ownable_error(self.ownable.only_owner(caller)) {
            Some(e) => Some(e),
            None => self.ledger.burn_error(user, token_id),
        }
    }

    /// The state after `admin_redeem_physical`.
    pub open spec fn admin_redeem_physical(
        self,
        caller: Address,
        user: Address,
        token_id: U256,
    ) -> ContractState {
        if self.admin_redeem_physical_error(caller, user, token_id) is None {
            ContractState { ledger: self.ledger.burn(user, token_id), ..self }
        } else {
            self
        }
    }

    /// Why `set_sale_info` fails, if it does: the caller is not the owner,
    /// or else the values make no sale.
    pub open spec fn set_sale_info_error(self, caller: Address, terms: SaleTerms) -> Option<
        Erc721Error,
    > {
        match ownable_error(self.ownable.only_owner(caller)) {
            Some(e) => Some(e),
            None => if valid_setup(terms.start_time, terms.end_time, terms.max_per_address) {
                None
            } else {
                Some(Erc721Error::InvalidSaleSetup(InvalidSaleSetup {  }))
            },
        }
    }

    /// The state after `set_sale_info`.
    pub open spec fn set_sale_info(self, caller: Address, terms: SaleTerms) -> ContractState {
        if self.set_sale_info_error(caller, terms) is None {
            ContractState { sale: self.sale.configure(terms), ..self }
        } else {
            self
        }
    }

    /// Why `transfer_ownership` fails, if it does.
    pub open spec fn transfer_ownership_error(self, caller: Address, new_owner: Address) -> Option<
        Erc721Error,
    > {
        ownable_error(self.ownable.transfer_ownership_result(caller, new_owner))
    }

    /// The state after `transfer_ownership`.
    pub open spec fn transfer_ownership(self, caller: Address, new_owner: Address) -> ContractState {
        ContractState { ownable: self.ownable.transfer_ownership(caller, new_owner), ..self }
    }

    /// Why `renounce_ownership` fails, if it does.
    pub open spec fn renounce_ownership_error(self, caller: Address) -> Option<Erc721Error> {
        ownable_error(self.ownable.renounce_ownership_result(caller))
    }

    /// The state after `renounce_ownership`.
    pub open spec fn renounce_ownership(self, caller: Address) -> ContractState {
        ContractState { ownable: self.ownable.renounce_ownership(caller), ..self }
    }

    /// Why the call fails, if it does.
    pub open spec fn error(self, call: Call) -> Option<Erc721Error> {
        match call {
            Call::Initialize { initial_owner } => self.initialize_error(initial_owner),
            Call::Mint { caller, now, amount } => self.mint_error(caller, now, amount),
            Call::RedeemPhysical { caller, token_id } => self.redeem_physical_error(
                caller,
                token_id,
            ),
            Call::AdminRedeemPhysical { caller, user, token_id } => self.admin_redeem_physical_error(
                caller,
                user,
                token_id,
            ),
            Call::SetSaleInfo { caller, terms } => self.set_sale_info_error(caller, terms),
            Call::TransferOwnership { caller, new_owner } => self.transfer_ownership_error(
                caller,
                new_owner,
            ),
            Call::RenounceOwnership { caller } => self.renounce_ownership_error(caller),
        }
    }

    /// The state after the call.
    pub open spec fn step(self, call: Call) -> ContractState {
        match call {
            Call::Initialize { initial_owner } => self.initialize(initial_owner),
            Call::Mint { caller, now, amount } => self.mint(caller, now, amount),
            Call::RedeemPhysical { caller, token_id } => self.redeem_physical(caller, token_id),
            Call::AdminRedeemPhysical { caller, user, token_id } => self.admin_redeem_physical(
                caller,
                user,
                token_id,
            ),
            Call::SetSaleInfo { caller, terms } => self.set_sale_info(caller, terms),
            Call::TransferOwnership { caller, new_owner } => self.transfer_ownership(
                caller,
                new_owner,
            ),
            Call::RenounceOwnership { caller } => self.renounce_ownership(caller),
        }
    }

    /// The state after the calls, made one after the other.
    pub open spec fn run(self, calls: Seq<Call>) -> ContractState
        decreases calls.len(),
    {
        if calls.len() == 0 {
            self
        } else {
            self.run(calls.drop_last()).step(calls.last())
        }
    }
}

} // verus!
