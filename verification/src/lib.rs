//! A capped, time-windowed token sale with burn-based redemption and a
//! single-owner access-control layer.
//!
//! [`PhysicalRedeem`] is the contract: every call names the caller and,
//! where the operation reads it, the block time, and returns the events to
//! emit or the error to report. A call that fails changes nothing.

pub mod address;
pub mod counters;
pub mod erc721;
pub mod ownable;
pub mod sale;
pub mod state;
pub mod table;
pub mod theorems;
pub mod uint;

use crate::address::Address;
use crate::erc721::{Erc721, Erc721Error, NonexistentToken, Transfer};
use crate::ownable::{Ownable, OwnershipTransferred};
use crate::sale::{SaleController, SaleInfo};
use crate::state::ContractState;
use crate::uint::U256;
use vstd::prelude::*;

verus! {

/// Whether `events` are the events of a mint of `amount` tokens to `to`,
/// the first with the id `first_id`: one transfer from the null address
/// for each token, in the order of the ids.
pub open spec fn mint_events(events: Seq<Transfer>, to: Address, first_id: nat, amount: nat) -> bool {
    &&& events.len() == amount
    &&& forall|i: int|
        0 <= i < events.len() ==> {
            &&& (#[trigger] events[i]).from == Address::zero_spec()
            &&& events[i].to == to
            &&& events[i].token_id@ == first_id + i
        }
}

/// The contract: access control, token ledger and sale behind one surface.
pub struct PhysicalRedeem {
    ownable: Ownable,
    erc721: Erc721,
    sale: SaleController,
}

impl View for PhysicalRedeem {
    type V = ContractState;

    closed spec fn view(&self) -> ContractState {
        ContractState { ownable: self.ownable@, ledger: self.erc721@, sale: self.sale@ }
    }
}

impl PhysicalRedeem {
    /// The parts are well-formed, and so is the view.
    pub closed spec fn wf(&self) -> bool {
        &&& self.erc721.wf()
        &&& self.sale.wf()
        &&& self@.wf()
    }

    /// What `wf` says of the view, and that the id counter fits 256 bits.
    pub proof fn lemma_wf(&self)
        requires
            self.wf(),
        ensures
            self@.wf(),
            self@.ledger.next_token_id <= U256::max_value(),
    {
        self.erc721.lemma_wf();
    }

    /// The contract at deployment: no owner, no token, no sale.
    pub fn new() -> (r: PhysicalRedeem)
        ensures
            r.wf(),
            r@ == ContractState::fresh(),
    {
        let r = PhysicalRedeem {
            ownable: Ownable::new(),
            erc721: Erc721::new(),
            sale: SaleController::new(),
        };
        proof {
            r.erc721.lemma_wf();
            r.sale.lemma_wf();
        }
        r
    }

    /// Mints `amount` tokens to `caller` at the block time `current_time`,
    /// where the sale admits it. The mint is counted against the caller
    /// before the tokens are made. A caller who is admitted is not the null
    /// address, and the id counter has `amount` ids left.
    pub fn mint(&mut self, caller: Address, current_time: u64, amount: u64) -> (r: Result<
        Vec<Transfer>,
        Erc721Error,
    >)
        requires
            old(self).wf(),
            old(self)@.mint_error(caller, current_time as nat, amount as nat) is None ==> {
                &&& !caller.is_zero_spec()
                &&& old(self)@.ledger.next_token_id + amount <= U256::max_value()
            },
        ensures
            final(self).wf(),
            final(self)@ == old(self)@.mint(caller, current_time as nat, amount as nat),
            match old(self)@.mint_error(caller, current_time as nat, amount as nat) {
                Some(e) => r == Err::<Vec<Transfer>, Erc721Error>(e),
                None => r matches Ok(events) && mint_events(
                    events@,
                    caller,
                    old(self)@.ledger.next_token_id,
                    amount as nat,
                ),
            },
    {
        match self.sale.admit_mint(caller, current_time, amount) {
            Err(e) => {
                return Err(e);
            },
            Ok(_) => {},
        }
        let ghost before = old(self)@.ledger;
        let mut events: Vec<Transfer> = Vec::new();
        let mut made: u64 = 0;
        proof {
            old(self).erc721.lemma_wf();
            before.lemma_mint_none(caller);
        }
        while made < amount
            invariant
                made <= amount,
                !caller.is_zero_spec(),
                before.wf(),
                before.next_token_id + amount <= U256::max_value(),
                self.erc721.wf(),
                self.erc721@ == before.mint_many(caller, made as nat),
                self.ownable@ == old(self).ownable@,
                self.sale.wf(),
                self.sale@ == old(self).sale@.admit_mint(
                    caller,
                    current_time as nat,
                    amount as nat,
                ),
                mint_events(events@, caller, before.next_token_id, made as nat),
            decreases amount - made,
        {
            proof {
                before.lemma_mint_one_more(caller, made as nat);
            }
            let event = self.erc721.mint(caller);
            events.push(event);
            made += 1;
        }
        proof {
            self.erc721.lemma_wf();
            self.sale.lemma_wf();
        }
        Ok(events)
    }

    /// Burns the caller's token `token_id`: the claim is exchanged for the
    /// physical item.
    pub fn redeem_physical(&mut self, caller: Address, token_id: U256) -> (r: Result<
        Transfer,
        Erc721Error,
    >)
        requires
            old(self).wf(),
        ensures
            final(self).wf(),
            final(self)@ == old(self)@.redeem_physical(caller, token_id),
            match old(self)@.redeem_physical_error(caller, token_id) {
                Some(e) => r == Err::<Transfer, Erc721Error>(e),
                None => r == Ok::<Transfer, Erc721Error>(
                    Transfer { from: caller, to: Address::zero_spec(), token_id },
                ),
            },
    {
        let r = self.erc721.burn(caller, token_id);
        proof {
            self.erc721.lemma_wf();
        }
        r
    }

    /// Burns the token `token_id` of `user` on the owner's order.
    pub fn admin_redeem_physical(&mut self, caller: Address, user: Address, token_id: U256) -> (r:
        Result<Transfer, Erc721Error>)
        requires
            old(self).wf(),
        ensures
            final(self).wf(),
            final(self)@ == old(self)@.admin_redeem_physical(caller, user, token_id),
            match old(self)@.admin_redeem_physical_error(caller, user, token_id) {
                Some(e) => r == Err::<Transfer, Erc721Error>(e),
                None => r == Ok::<Transfer, Erc721Error>(
                    Transfer { from: user, to: Address::zero_spec(), token_id },
                ),
            },
    {
        match self.ownable.only_owner(caller) {
            Err(e) => {
                return Err(Erc721Error::from_ownable(e));
            },
            Ok(_) => {},
        }
        let r = self.erc721.burn(user, token_id);
        proof {
            self.erc721.lemma_wf();
        }
        r
    }

    /// How many tokens are live.
    pub fn total_supply(&mut self) -> (r: Result<U256, Erc721Error>)
        requires
            old(self).wf(),
        ensures
            final(self).wf(),
            final(self)@ == old(self)@,
            r matches Ok(supply) && supply@ == old(self)@.ledger.total_supply,
    {
        Ok(self.erc721.total_supply())
    }

    /// How many live tokens `owner` holds.
    pub fn balance_of(&self, owner: Address) -> (r: Result<U256, Erc721Error>)
        requires
            self.wf(),
        ensures
            r matches Ok(balance) && balance@ == self@.ledger.balances[owner],
    {
        Ok(self.erc721.balance_of(owner))
    }

    /// The owner of the live token `token_id`.
    pub fn owner_of(&self, token_id: U256) -> (r: Result<Address, Erc721Error>)
        requires
            self.wf(),
        ensures
            r == (match self@.ledger.owner_of(token_id@) {
                Some(owner) => Ok::<Address, Erc721Error>(owner),
                None => Err::<Address, Erc721Error>(
                    Erc721Error::NonexistentToken(NonexistentToken { token_id }),
                ),
            }),
    {
        self.erc721.owner_of(token_id)
    }

    /// The id that the next mint assigns first.
    pub fn next_token_id(&self) -> (r: U256)
        ensures
            r@ == self@.ledger.next_token_id,
    {
        self.erc721.next_token_id()
    }

    /// The sale configuration: start time, end time, price and cap per
    /// address.
    pub fn sale_info(&self) -> (r: Result<(U256, U256, U256, U256), Erc721Error>)
        ensures
            r matches Ok(info) && {
                &&& info.0@ == self@.sale.terms.start_time
                &&& info.1@ == self@.sale.terms.end_time
                &&& info.2@ == self@.sale.terms.price
                &&& info.3@ == self@.sale.terms.max_per_address
            },
    {
        let info = self.sale.get_sale_info();
        Ok((info.start_time, info.end_time, info.price, info.max_per_address))
    }

    /// Replaces the sale configuration on the owner's order.
    pub fn set_sale_info(
        &mut self,
        caller: Address,
        start_time: U256,
        end_time: U256,
        price: U256,
        max_per_address: U256,
    ) -> (r: Result<(), Erc721Error>)
        requires
            old(self).wf(),
        ensures
            final(self).wf(),
            final(self)@ == old(self)@.set_sale_info(
                caller,
                (SaleInfo { start_time, end_time, price, max_per_address })@,
            ),
            match old(self)@.set_sale_info_error(
                caller,
                (SaleInfo { start_time, end_time, price, max_per_address })@,
            ) {
                Some(e) => r == Err::<(), Erc721Error>(e),
                None => r == Ok::<(), Erc721Error>(()),
            },
    {
        match self.ownable.only_owner(caller) {
            Err(e) => {
                return Err(Erc721Error::from_ownable(e));
            },
            Ok(_) => {},
        }
        let r = self.sale.set_sale_info(start_time, end_time, price, max_per_address);
        proof {
            self.sale.lemma_wf();
        }
        r
    }

    /// How many tokens `address` has minted.
    pub fn num_minted_by_address(&self, address: Address) -> (r: Result<U256, Erc721Error>)
        requires
            self.wf(),
        ensures
            r matches Ok(count) && count@ == self@.sale.minted[address],
    {
        Ok(self.sale.get_mint_count(address))
    }

    /// Sets the first owner. Succeeds once; every later call fails.
    pub fn initialize(&mut self, initial_owner: Address) -> (r: Result<
        OwnershipTransferred,
        Erc721Error,
    >)
        requires
            old(self).wf(),
        ensures
            final(self).wf(),
            final(self)@ == old(self)@.initialize(initial_owner),
            match old(self)@.initialize_error(initial_owner) {
                Some(e) => r == Err::<OwnershipTransferred, Erc721Error>(e),
                None => r == Ok::<OwnershipTransferred, Erc721Error>(
                    old(self)@.ownable.handover(initial_owner),
                ),
            },
    {
        match self.ownable.initialize(initial_owner) {
            Err(e) => Err(Erc721Error::from_ownable(e)),
            Ok(event) => Ok(event),
        }
    }

    /// The current owner; the null address where there is none.
    pub fn owner(&self) -> (r: Result<Address, Vec<u8>>)
        ensures
            r == Ok::<Address, Vec<u8>>(self@.ownable.owner),
    {
        self.ownable.owner()
    }

    /// Hands ownership to `new_owner` on the owner's order.
    pub fn transfer_ownership(&mut self, caller: Address, new_owner: Address) -> (r: Result<
        OwnershipTransferred,
        Erc721Error,
    >)
        requires
            old(self).wf(),
        ensures
            final(self).wf(),
            final(self)@ == old(self)@.transfer_ownership(caller, new_owner),
            match old(self)@.transfer_ownership_error(caller, new_owner) {
                Some(e) => r == Err::<OwnershipTransferred, Erc721Error>(e),
                None => r == Ok::<OwnershipTransferred, Erc721Error>(
                    old(self)@.ownable.handover(new_owner),
                ),
            },
    {
        match self.ownable.transfer_ownership(caller, new_owner) {
            Err(e) => Err(Erc721Error::from_ownable(e)),
            Ok(event) => Ok(event),
        }
    }

    /// Gives ownership up for good on the owner's order.
    pub fn renounce_ownership(&mut self, caller: Address) -> (r: Result<
        OwnershipTransferred,
        Erc721Error,
    >)
        requires
            old(self).wf(),
        ensures
            final(self).wf(),
            final(self)@ == old(self)@.renounce_ownership(caller),
            match old(self)@.renounce_ownership_error(caller) {
                Some(e) => r == Err::<OwnershipTransferred, Erc721Error>(e),
                None => r == Ok::<OwnershipTransferred, Erc721Error>(
                    old(self)@.ownable.handover(Address::zero_spec()),
                ),
            },
    {
        match self.ownable.renounce_ownership(caller) {
            Err(e) => Err(Erc721Error::from_ownable(e)),
            Ok(event) => Ok(event),
        }
    }
}

} // verus!
