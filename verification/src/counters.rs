//! Per-address counters: every address has a count, zero until it is set.

use crate::address::Address;
use crate::table::Table;
use crate::uint::U256;
use vstd::prelude::*;

verus! {

/// A count for every address. Its view is a total map; an address that was
/// never set counts zero.
pub struct Counters {
    table: Table<Address, U256>,
}

impl View for Counters {
    type V = Map<Address, nat>;

    open spec fn view(&self) -> Map<Address, nat> {
        Map::total(|a: Address| self.count(a))
    }
}

impl Counters {
    /// The count of `a`.
    pub closed spec fn count(&self, a: Address) -> nat {
        if self.table@.contains_key(a) {
            self.table@[a]@
        } else {
            0
        }
    }

    /// The counters hold no address twice.
    pub closed spec fn wf(&self) -> bool {
        self.table.wf()
    }

    /// Counters that are all zero.
    pub fn new() -> (r: Counters)
        ensures
            r.wf(),
            r@ == Map::total(|a: Address| 0nat),
    {
        let r = Counters { table: Table::new() };
        proof {
            assert(r@ =~= Map::total(|a: Address| 0nat));
        }
        r
    }

    /// The count of `a`.
    pub fn get(&self, a: Address) -> (r: U256)
        requires
            self.wf(),
        ensures
            r@ == self@[a],
    {
        match self.table.get(&a) {
            Some(v) => v,
            None => U256::from_u64(0),
        }
    }

    /// Sets the count of `a` to `value` and leaves every other count.
    pub fn set(&mut self, a: Address, value: U256)
        requires
            old(self).wf(),
        ensures
            final(self).wf(),
            final(self)@ == old(self)@.insert(a, value@),
    {
        self.table.insert(a, value);
        proof {
            assert(self@ =~= old(self)@.insert(a, value@));
        }
    }
}

} // verus!
