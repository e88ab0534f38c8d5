//! The sale: its window and cap, and how many tokens each address has
//! minted. A mint is admitted while the window is open and the caller's
//! count stays within the cap.

use crate::address::Address;
use crate::counters::Counters;
use crate::erc721::{Erc721Error, InvalidSaleSetup, MaxMintForAddress, SaleNotOpen};
use crate::uint::U256;
use vstd::prelude::*;

verus! {

/// Where a moment stands against the sale window.
#[derive(Clone, Copy, Debug, PartialEq, Eq)]
pub enum SalePhase {
    /// No sale has been configured: the start time is zero.
    Unconfigured,
    /// The moment lies before the start time.
    NotYetOpen,
    /// The moment lies in the window, the end time excluded.
    Open,
    /// The moment is the end time or lies after it.
    Closed,
}

/// Whether these values make a sale: no zero among start, end and cap, and
/// the start before the end. Any price will do.
pub open spec fn valid_setup(start_time: nat, end_time: nat, max_per_address: nat) -> bool {
    &&& start_time != 0
    &&& end_time != 0
    &&& max_per_address != 0
    &&& start_time < end_time
}

/// The sale configuration as contracts speak of it.
pub struct SaleTerms {
    pub start_time: nat,
    pub end_time: nat,
    pub price: nat,
    pub max_per_address: nat,
}

impl SaleTerms {
    /// The configuration before any was set: all zero.
    pub open spec fn unconfigured() -> SaleTerms {
        SaleTerms { start_time: 0, end_time: 0, price: 0, max_per_address: 0 }
    }

    /// The configuration is the one at deployment or one that was validly
    /// set.
    pub open spec fn wf(self) -> bool {
        self == SaleTerms::unconfigured() || valid_setup(
            self.start_time,
            self.end_time,
            self.max_per_address,
        )
    }

    /// Why an address that has minted `minted` tokens may not mint `amount`
    /// more at the moment `now`, if so: the window is not open, or the mint
    /// would take the count over the cap.
    pub open spec fn admit_mint_error(self, minted: nat, now: nat, amount: nat) -> Option<
        Erc721Error,
    > {
        if self.phase(now) != SalePhase::Open {
            Some(Erc721Error::SaleNotOpen(SaleNotOpen {  }))
        } else if minted + amount > self.max_per_address {
            Some(Erc721Error::MaxMintForAddress(MaxMintForAddress {  }))
        } else {
            None
        }
    }

    /// Where the moment `now` stands against the window.
    pub open spec fn phase(self, now: nat) -> SalePhase {
        if self.start_time == 0 {
            SalePhase::Unconfigured
        } else if now < self.start_time {
            SalePhase::NotYetOpen
        } else if now < self.end_time {
            SalePhase::Open
        } else {
            SalePhase::Closed
        }
    }
}

/// The sale configuration: the window `[start_time, end_time)`, the unit
/// price and the cap on mints per address.
#[derive(Clone, Copy, Debug, PartialEq, Eq)]
pub struct SaleInfo {
    pub start_time: U256,
    pub end_time: U256,
    pub price: U256,
    pub max_per_address: U256,
}

impl View for SaleInfo {
    type V = SaleTerms;

    open spec fn view(&self) -> SaleTerms {
        SaleTerms {
            start_time: self.start_time@,
            end_time: self.end_time@,
            price: self.price@,
            max_per_address: self.max_per_address@,
        }
    }
}

impl SaleInfo {
    /// The configuration before any was set: all zero.
    pub fn unconfigured() -> (r: SaleInfo)
        ensures
            r@ == SaleTerms::unconfigured(),
    {
        let zero = U256::from_u64(0);
        SaleInfo { start_time: zero, end_time: zero, price: zero, max_per_address: zero }
    }

    /// A configuration of these values, or the error where they make no
    /// sale.
    pub fn new(start_time: U256, end_time: U256, price: U256, max_per_address: U256) -> (r: Result<
        SaleInfo,
        InvalidSaleSetup,
    >)
        ensures
            valid_setup(start_time@, end_time@, max_per_address@) ==> r == Ok::<
                SaleInfo,
                InvalidSaleSetup,
            >(SaleInfo { start_time, end_time, price, max_per_address }),
            !valid_setup(start_time@, end_time@, max_per_address@) ==> r == Err::<
                SaleInfo,
                InvalidSaleSetup,
            >(InvalidSaleSetup {  }),
    {
        if start_time.is_zero() || end_time.is_zero() || max_per_address.is_zero() {
            return Err(InvalidSaleSetup {  });
        }
        if !start_time.lt(&end_time) {
            return Err(InvalidSaleSetup {  });
        }
        Ok(SaleInfo { start_time, end_time, price, max_per_address })
    }

    /// Admits or refuses a mint of `amount` tokens at the moment
    /// `current_time` by an address that has minted `minted` tokens, and
    /// returns the count that the address has after an admitted mint.
    pub fn admit_mint(&self, current_time: u64, minted: U256, amount: u64) -> (r: Result<
        U256,
        Erc721Error,
    >)
        ensures
            match self@.admit_mint_error(minted@, current_time as nat, amount as nat) {
                Some(e) => r == Err::<U256, Erc721Error>(e),
                None => r matches Ok(count) && count@ == minted@ + amount,
            },
    {
        match self.phase(current_time) {
            SalePhase::Open => {},
            _ => {
                return Err(Erc721Error::SaleNotOpen(SaleNotOpen {  }));
            },
        }
        let cap = self.max_per_address;
        if cap.lt(&minted) {
            return Err(Erc721Error::MaxMintForAddress(MaxMintForAddress {  }));
        }
        let remaining = cap.wrapping_sub(minted);
        let requested = U256::from_u64(amount);
        if remaining.lt(&requested) {
            return Err(Erc721Error::MaxMintForAddress(MaxMintForAddress {  }));
        }
        proof {
            crate::uint::lemma_limbs_value_bound(cap.limbs);
        }
        Ok(minted.wrapping_add(requested))
    }

    /// Where the moment `current_time` stands against the window.
    pub fn phase(&self, current_time: u64) -> (r: SalePhase)
        ensures
            r == self@.phase(current_time as nat),
    {
        let now = U256::from_u64(current_time);
        if self.start_time.is_zero() {
            SalePhase::Unconfigured
        } else if now.lt(&self.start_time) {
            SalePhase::NotYetOpen
        } else if now.lt(&self.end_time) {
            SalePhase::Open
        } else {
            SalePhase::Closed
        }
    }
}

/// The sale as contracts speak of it.
pub struct SaleState {
    /// The configuration.
    pub terms: SaleTerms,
    /// How many tokens each address has minted. Never reset.
    pub minted: Map<Address, nat>,
}

impl SaleState {
    /// The sale at deployment: not configured, nobody has minted.
    pub open spec fn fresh() -> SaleState {
        SaleState { terms: SaleTerms::unconfigured(), minted: Map::total(|a: Address| 0nat) }
    }

    /// Every address has a count, and the configuration is well-formed.
    pub open spec fn wf(self) -> bool {
        &&& self.terms.wf()
        &&& forall|a: Address| #[trigger] self.minted.contains_key(a)
    }

    /// Why `caller` may not mint `amount` tokens at the moment `now`, if so:
    /// the window is not open, or the mint would take the caller's count
    /// over the cap.
    pub open spec fn admit_mint_error(self, caller: Address, now: nat, amount: nat) -> Option<
        Erc721Error,
    > {
        self.terms.admit_mint_error(self.minted[caller], now, amount)
    }

    /// The sale after `caller` asked to mint `amount` tokens at the moment
    /// `now`: the caller's count grows by `amount` where the mint is
    /// admitted, and nothing changes where it is not.
    pub open spec fn admit_mint(self, caller: Address, now: nat, amount: nat) -> SaleState {
        if self.admit_mint_error(caller, now, amount) is None {
            SaleState {
                terms: self.terms,
                minted: self.minted.insert(caller, self.minted[caller] + amount),
            }
        } else {
            self
        }
    }

    /// The sale after the configuration `terms` was offered: it replaces
    /// the old one whole where it is valid, and nothing changes where it is
    /// not.
    pub open spec fn configure(self, terms: SaleTerms) -> SaleState {
        if valid_setup(terms.start_time, terms.end_time, terms.max_per_address) {
            SaleState { terms, minted: self.minted }
        } else {
            self
        }
    }
}

/// The sale configuration together with the count of mints per address.
pub struct SaleController {
    info: SaleInfo,
    minted: Counters,
}

impl View for SaleController {
    type V = SaleState;

    closed spec fn view(&self) -> SaleState {
        SaleState { terms: self.info@, minted: self.minted@ }
    }
}

impl SaleController {
    /// The controller holds no address twice, and its view is well-formed.
    pub closed spec fn wf(&self) -> bool {
        &&& self.minted.wf()
        &&& self@.wf()
    }

    /// What `wf` says of the view.
    pub proof fn lemma_wf(&self)
        requires
            self.wf(),
        ensures
            self@.wf(),
    {
    }

    /// The sale at deployment: not configured, nobody has minted.
    pub fn new() -> (r: SaleController)
        ensures
            r.wf(),
            r@ == SaleState::fresh(),
    {
        SaleController { info: SaleInfo::unconfigured(), minted: Counters::new() }
    }

    /// Admits or refuses a mint of `amount` tokens by `caller` at the moment
    /// `current_time`. An admitted mint is counted at once.
    pub fn admit_mint(&mut self, caller: Address, current_time: u64, amount: u64) -> (r: Result<
        (),
        Erc721Error,
    >)
        requires
            old(self).wf(),
        ensures
            final(self).wf(),
            final(self)@ == old(self)@.admit_mint(caller, current_time as nat, amount as nat),
            match old(self)@.admit_mint_error(caller, current_time as nat, amount as nat) {
                Some(e) => r == Err::<(), Erc721Error>(e),
                None => r == Ok::<(), Erc721Error>(()),
            },
    {
        let minted = self.minted.get(caller);
        match self.info.admit_mint(current_time, minted, amount) {
            Err(e) => Err(e),
            Ok(count) => {
                self.minted.set(caller, count);
                Ok(())
            },
        }
    }

    /// Replaces the configuration, all four fields at once, where the new
    /// values make a sale; changes nothing where they do not.
    pub fn set_sale_info(
        &mut self,
        start_time: U256,
        end_time: U256,
        price: U256,
        max_per_address: U256,
    ) -> (r: Result<(), Erc721Error>)
        requires
            old(self).wf(),
        ensures
            final(self).wf(),
            final(self)@ == old(self)@.configure(
                (SaleInfo { start_time, end_time, price, max_per_address })@,
            ),
            valid_setup(start_time@, end_time@, max_per_address@) ==> r == Ok::<(), Erc721Error>(
                (),
            ),
            !valid_setup(start_time@, end_time@, max_per_address@) ==> r == Err::<
                (),
                Erc721Error,
            >(Erc721Error::InvalidSaleSetup(InvalidSaleSetup {  })),
    {
        match SaleInfo::new(start_time, end_time, price, max_per_address) {
            Err(e) => Err(Erc721Error::InvalidSaleSetup(e)),
            Ok(info) => {
                self.info = info;
                Ok(())
            },
        }
    }

    /// The configuration.
    pub fn get_sale_info(&self) -> (r: SaleInfo)
        ensures
            r@ == self@.terms,
    {
        self.info
    }

    /// How many tokens `address` has minted.
    pub fn get_mint_count(&self, address: Address) -> (r: U256)
        requires
            self.wf(),
        ensures
            r@ == self@.minted[address],
    {
        self.minted.get(address)
    }
}

} // verus!
