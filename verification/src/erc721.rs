//! The token ledger: which token ids are live, who owns them, how many each
//! address holds, and the counter that hands out fresh ids.

use crate::address::Address;
use crate::counters::Counters;
use crate::ownable::{
    OwnableAlreadyInitialized, OwnableError, OwnableInvalidOwner, OwnableUnauthorizedAccount,
};
use crate::table::{Key, Table};
use crate::uint::U256;
use vstd::prelude::*;

verus! {

/// Emitted for every mint (from the null address) and burn (to the null
/// address).
#[derive(Clone, Copy, Debug, PartialEq, Eq)]
pub struct Transfer {
    pub from: Address,
    pub to: Address,
    pub token_id: U256,
}

/// The sale has not been configured, has not begun or is over.
#[derive(Clone, Copy, Debug, PartialEq, Eq)]
pub struct SaleNotOpen {}

/// The mint would take the caller over the cap per address.
#[derive(Clone, Copy, Debug, PartialEq, Eq)]
pub struct MaxMintForAddress {}

/// The sale configuration has a zero field or an empty window.
#[derive(Clone, Copy, Debug, PartialEq, Eq)]
pub struct InvalidSaleSetup {}

/// No live token has the id `token_id`.
#[derive(Clone, Copy, Debug, PartialEq, Eq)]
pub struct NonexistentToken {
    pub token_id: U256,
}

/// The token `token_id` belongs to `real_owner`, not to `from`.
#[derive(Clone, Copy, Debug, PartialEq, Eq)]
pub struct NotOwner {
    pub from: Address,
    pub token_id: U256,
    pub real_owner: Address,
}

/// Why an operation of the sale failed: one case for each kind of failure.
#[derive(Clone, Copy, Debug, PartialEq, Eq)]
pub enum Erc721Error {
    Unauthorized(OwnableUnauthorizedAccount),
    AlreadyInitialized(OwnableAlreadyInitialized),
    InvalidOwner(OwnableInvalidOwner),
    SaleNotOpen(SaleNotOpen),
    MaxMintForAddress(MaxMintForAddress),
    InvalidSaleSetup(InvalidSaleSetup),
    NonexistentToken(NonexistentToken),
    NotOwner(NotOwner),
}

impl Erc721Error {
    /// The case of this error type that stands for the access-control
    /// error `e`.
    pub open spec fn from_ownable_spec(e: OwnableError) -> Erc721Error {
        match e {
            OwnableError::OwnableUnauthorizedAccount(x) => Erc721Error::Unauthorized(x),
            OwnableError::OwnableInvalidOwner(x) => Erc721Error::InvalidOwner(x),
            OwnableError::OwnableAlreadyInitialized(x) => Erc721Error::AlreadyInitialized(x),
        }
    }

    /// Carries an access-control error over unchanged, with its payload.
    pub fn from_ownable(e: OwnableError) -> (r: Erc721Error)
        ensures
            r == Erc721Error::from_ownable_spec(e),
    {
        match e {
            OwnableError::OwnableUnauthorizedAccount(x) => Erc721Error::Unauthorized(x),
            OwnableError::OwnableInvalidOwner(x) => Erc721Error::InvalidOwner(x),
            OwnableError::OwnableAlreadyInitialized(x) => Erc721Error::AlreadyInitialized(x),
        }
    }
}

/// The ids below `n`: those that the counter has handed out once it stands
/// at `n`.
pub open spec fn ids_below(n: nat) -> Set<nat> {
    Set::new(|id: nat| id < n)
}

/// There are exactly `n` ids below `n`.
pub proof fn lemma_ids_below(n: nat)
    ensures
        ids_below(n).finite(),
        ids_below(n).len() == n,
    decreases n,
{
    if n == 0 {
        assert(ids_below(n) =~= Set::<nat>::empty());
    } else {
        let m = (n - 1) as nat;
        lemma_ids_below(m);
        assert(ids_below(n) =~= ids_below(m).insert(m));
    }
}

/// The ledger as contracts speak of it.
pub struct LedgerState {
    /// The owner of each live token.
    pub owners: Map<nat, Address>,
    /// How many live tokens each address holds.
    pub balances: Map<Address, nat>,
    /// How many tokens are live.
    pub total_supply: nat,
    /// The id that the next mint assigns.
    pub next_token_id: nat,
}

impl LedgerState {
    /// The ledger at deployment: no token, the counter at zero.
    pub open spec fn fresh() -> LedgerState {
        LedgerState {
            owners: Map::empty(),
            balances: Map::total(|a: Address| 0nat),
            total_supply: 0,
            next_token_id: 0,
        }
    }

    /// The live tokens that `a` owns.
    pub open spec fn owned_by(self, a: Address) -> Set<nat> {
        Set::new(|id: nat| self.owners.contains_key(id) && self.owners[id] == a)
    }

    /// The counts agree with the ownership map: the supply is the number of
    /// live tokens, each balance the number of live tokens of that address,
    /// and every live id came from the counter.
    pub open spec fn counts_agree(self) -> bool {
        &&& self.owners.dom().finite()
        &&& self.total_supply == self.owners.dom().len()
        &&& forall|id: nat| #[trigger] self.owners.contains_key(id) ==> id < self.next_token_id
        &&& forall|a: Address| #[trigger]
            self.balances.contains_key(a) && self.balances[a] == self.owned_by(a).len()
    }

    /// No live token belongs to the null address.
    pub open spec fn owners_real(self) -> bool {
        forall|id: nat| #[trigger] self.owners.contains_key(id) ==> !self.owners[id].is_zero_spec()
    }

    /// The counts agree with the ownership map, and every live token has a
    /// real owner.
    pub open spec fn wf(self) -> bool {
        &&& self.counts_agree()
        &&& self.owners_real()
    }

    /// The ledger after `count` tokens were minted to `to`: they get the
    /// next `count` ids.
    pub open spec fn mint_many(self, to: Address, count: nat) -> LedgerState {
        LedgerState {
            owners: Map::new(
                |id: nat|
                    self.owners.contains_key(id) || self.next_token_id <= id < self.next_token_id
                        + count,
                |id: nat|
                    if self.owners.contains_key(id) {
                        self.owners[id]
                    } else {
                        to
                    },
            ),
            balances: self.balances.insert(to, self.balances[to] + count),
            total_supply: self.total_supply + count,
            next_token_id: self.next_token_id + count,
        }
    }

    /// The ledger after one token was minted to `to`.
    pub open spec fn mint(self, to: Address) -> LedgerState {
        self.mint_many(to, 1)
    }

    /// Why `from` cannot burn `token_id`, if so: there is no such live token,
    /// or it belongs to another.
    pub open spec fn burn_error(self, from: Address, token_id: U256) -> Option<Erc721Error> {
        burn_refusal(self.owner_of(token_id@), from, token_id)
    }

    /// The recorded owner of the token `id`: none where it is not live.
    pub open spec fn owner_of(self, id: nat) -> Option<Address> {
        if self.owners.contains_key(id) {
            Some(self.owners[id])
        } else {
            None
        }
    }

    /// The ledger after the live token `id` was burned. The counter stays.
    pub open spec fn without(self, id: nat) -> LedgerState {
        let owner = self.owners[id];
        LedgerState {
            owners: self.owners.remove(id),
            balances: self.balances.insert(owner, (self.balances[owner] - 1) as nat),
            total_supply: (self.total_supply - 1) as nat,
            next_token_id: self.next_token_id,
        }
    }

    /// The ledger after `from` asked to burn `token_id`: unchanged where the
    /// burn is refused.
    pub open spec fn burn(self, from: Address, token_id: U256) -> LedgerState {
        if self.burn_error(from, token_id) is None {
            self.without(token_id@)
        } else {
            self
        }
    }

    /// The tokens of one address are among the live tokens.
    pub proof fn lemma_owned_by_bounded(self, a: Address)
        requires
            self.owners.dom().finite(),
        ensures
            self.owned_by(a).finite(),
            self.owned_by(a).len() <= self.owners.dom().len(),
    {
        assert(self.owned_by(a).subset_of(self.owners.dom()));
        vstd::set_lib::lemma_len_subset(self.owned_by(a), self.owners.dom());
    }

    /// No more tokens are live than ids were handed out, and no address holds
    /// more than the supply.
    pub proof fn lemma_counts_bounded(self)
        requires
            self.counts_agree(),
        ensures
            self.total_supply <= self.next_token_id,
            forall|a: Address| #[trigger] self.balances[a] <= self.total_supply,
    {
        lemma_ids_below(self.next_token_id);
        assert(self.owners.dom().subset_of(ids_below(self.next_token_id))) by {
            assert forall|id: nat| self.owners.dom().contains(id) implies ids_below(
                self.next_token_id,
            ).contains(id) by {
                assert(self.owners.contains_key(id));
            }
        }
        vstd::set_lib::lemma_len_subset(self.owners.dom(), ids_below(self.next_token_id));
        assert forall|a: Address| #[trigger] self.balances[a] <= self.total_supply by {
            self.lemma_owned_by_bounded(a);
            assert(self.balances.contains_key(a));
        }
    }

    /// Minting no token changes nothing.
    pub proof fn lemma_mint_none(self, to: Address)
        requires
            self.counts_agree(),
        ensures
            self.mint_many(to, 0) == self,
    {
        assert(self.balances.contains_key(to));
        assert(self.mint_many(to, 0).owners =~= self.owners);
        assert(self.mint_many(to, 0).balances =~= self.balances);
    }

    /// Minting `count` tokens and then one more is minting `count + 1`.
    pub proof fn lemma_mint_one_more(self, to: Address, count: nat)
        requires
            self.counts_agree(),
        ensures
            self.mint_many(to, count).mint(to) == self.mint_many(to, count + 1),
    {
        let a = self.mint_many(to, count).mint(to);
        let b = self.mint_many(to, count + 1);
        assert(a.owners =~= b.owners) by {
            assert forall|id: nat| a.owners.contains_key(id) implies id < self.next_token_id + count
                + 1 || self.owners.contains_key(id) by {}
            assert forall|id: nat| self.owners.contains_key(id) implies id
                < self.next_token_id by {}
        }
        assert(a.balances =~= b.balances);
    }

    /// A mint keeps the counts in agreement; a mint to a real address keeps
    /// the owners real.
    pub proof fn lemma_mint(self, to: Address)
        requires
            self.counts_agree(),
        ensures
            self.mint(to).counts_agree(),
            self.owners_real() && !to.is_zero_spec() ==> self.mint(to).owners_real(),
    {
        let after = self.mint(to);
        let id = self.next_token_id;
        assert(!self.owners.contains_key(id));
        assert(after.owners.dom() =~= self.owners.dom().insert(id));
        assert forall|a: Address| #[trigger]
            after.balances.contains_key(a) && after.balances[a] == after.owned_by(a).len() by {
            self.lemma_owned_by_bounded(a);
            assert(self.balances.contains_key(a));
            if a == to {
                assert(after.owned_by(a) =~= self.owned_by(a).insert(id));
            } else {
                assert(after.owned_by(a) =~= self.owned_by(a));
            }
        }
        assert forall|t: nat| #[trigger] after.owners.contains_key(t) implies t
            < after.next_token_id by {
            if t != id {
                assert(self.owners.contains_key(t));
            }
        }
        if self.owners_real() && !to.is_zero_spec() {
            assert forall|t: nat| #[trigger]
                after.owners.contains_key(t) implies !after.owners[t].is_zero_spec() by {
                if t != id {
                    assert(self.owners.contains_key(t));
                }
            }
        }
    }

    /// Mints keep the counts in agreement; mints to a real address keep the
    /// owners real.
    pub proof fn lemma_mint_many(self, to: Address, count: nat)
        requires
            self.counts_agree(),
        ensures
            self.mint_many(to, count).counts_agree(),
            self.owners_real() && !to.is_zero_spec() ==> self.mint_many(to, count).owners_real(),
        decreases count,
    {
        if count == 0 {
            self.lemma_mint_none(to);
        } else {
            let fewer = (count - 1) as nat;
            self.lemma_mint_many(to, fewer);
            self.lemma_mint_one_more(to, fewer);
            self.mint_many(to, fewer).lemma_mint(to);
        }
    }

    /// Burning a live token keeps the counts in agreement and the owners
    /// real. Before it, neither the supply nor its owner's balance is zero.
    pub proof fn lemma_without(self, id: nat)
        requires
            self.counts_agree(),
            self.owners.contains_key(id),
        ensures
            self.without(id).counts_agree(),
            self.owners_real() ==> self.without(id).owners_real(),
            self.total_supply >= 1,
            self.balances[self.owners[id]] >= 1,
    {
        let after = self.without(id);
        let owner = self.owners[id];
        assert(after.owners.dom() =~= self.owners.dom().remove(id));
        assert(self.owners.dom().contains(id));
        self.lemma_owned_by_bounded(owner);
        assert(self.owned_by(owner).contains(id));
        assert(self.balances.contains_key(owner));
        assert forall|a: Address| #[trigger]
            after.balances.contains_key(a) && after.balances[a] == after.owned_by(a).len() by {
            self.lemma_owned_by_bounded(a);
            assert(self.balances.contains_key(a));
            if a == owner {
                assert(after.owned_by(a) =~= self.owned_by(a).remove(id));
            } else {
                assert(after.owned_by(a) =~= self.owned_by(a));
            }
        }
        assert forall|t: nat| #[trigger] after.owners.contains_key(t) implies t
            < after.next_token_id by {
            assert(self.owners.contains_key(t));
        }
        if self.owners_real() {
            assert forall|t: nat| #[trigger]
                after.owners.contains_key(t) implies !after.owners[t].is_zero_spec() by {
                assert(self.owners.contains_key(t));
            }
        }
    }
}

/// What one mint writes: the id of the new token, and the counter, the
/// supply and the receiver's balance after it.
#[derive(Clone, Copy, Debug, PartialEq, Eq)]
pub struct MintUpdate {
    pub token_id: U256,
    pub next_token_id: U256,
    pub total_supply: U256,
    pub balance: U256,
}

/// What one burn writes: the supply and the owner's balance after it.
#[derive(Clone, Copy, Debug, PartialEq, Eq)]
pub struct BurnUpdate {
    pub total_supply: U256,
    pub balance: U256,
}

/// Why `from` cannot burn `token_id`, whose recorded owner is
/// `recorded_owner`, if so: no owner is recorded, or another is.
pub open spec fn burn_refusal(recorded_owner: Option<Address>, from: Address, token_id: U256)
    -> Option<Erc721Error> {
    match recorded_owner {
        None => Some(Erc721Error::NonexistentToken(NonexistentToken { token_id })),
        Some(owner) => if owner != from {
            Some(Erc721Error::NotOwner(NotOwner { from, token_id, real_owner: owner }))
        } else {
            None
        },
    }
}

/// What a mint writes, given the counter, the supply and the receiver's
/// balance before it: the new token gets the counter's id, and all three
/// go up by one. None of them may stand at the largest value.
pub fn mint_update(next_token_id: U256, total_supply: U256, balance: U256) -> (r: MintUpdate)
    requires
        next_token_id@ < U256::max_value(),
        total_supply@ < U256::max_value(),
        balance@ < U256::max_value(),
    ensures
        r.token_id == next_token_id,
        r.next_token_id@ == next_token_id@ + 1,
        r.total_supply@ == total_supply@ + 1,
        r.balance@ == balance@ + 1,
{
    let one = U256::from_u64(1);
    MintUpdate {
        token_id: next_token_id,
        next_token_id: next_token_id.wrapping_add(one),
        total_supply: total_supply.wrapping_add(one),
        balance: balance.wrapping_add(one),
    }
}

/// Checks a burn of `token_id` for `from` against the recorded owner and
/// says what it writes, given the supply and the balance of `from` before
/// it: both go down by one. Where the burn is in order, neither is zero.
pub fn burn_update(
    recorded_owner: Option<Address>,
    from: Address,
    token_id: U256,
    total_supply: U256,
    balance: U256,
) -> (r: Result<BurnUpdate, Erc721Error>)
    requires
        burn_refusal(recorded_owner, from, token_id) is None ==> total_supply@ >= 1 && balance@
            >= 1,
    ensures
        match burn_refusal(recorded_owner, from, token_id) {
            Some(e) => r == Err::<BurnUpdate, Erc721Error>(e),
            None => r matches Ok(update) && update.total_supply@ == total_supply@ - 1
                && update.balance@ == balance@ - 1,
        },
{
    let owner = match recorded_owner {
        None => {
            return Err(Erc721Error::NonexistentToken(NonexistentToken { token_id }));
        },
        Some(owner) => owner,
    };
    if !owner.same(&from) {
        return Err(Erc721Error::NotOwner(NotOwner { from, token_id, real_owner: owner }));
    }
    let one = U256::from_u64(1);
    Ok(
        BurnUpdate {
            total_supply: total_supply.wrapping_sub(one),
            balance: balance.wrapping_sub(one),
        },
    )
}

/// The token ledger.
pub struct Erc721 {
    owners: Table<U256, Address>,
    balances: Counters,
    total_supply: U256,
    next_token_id: U256,
}

impl View for Erc721 {
    type V = LedgerState;

    closed spec fn view(&self) -> LedgerState {
        LedgerState {
            owners: self.owners@,
            balances: self.balances@,
            total_supply: self.total_supply@,
            next_token_id: self.next_token_id@,
        }
    }
}

impl Erc721 {
    /// The ledger's counts agree with its ownership map.
    pub closed spec fn wf(&self) -> bool {
        &&& self.owners.wf()
        &&& self.balances.wf()
        &&& self@.wf()
    }

    /// What `wf` says of the view, and that the counter fits 256 bits.
    pub proof fn lemma_wf(&self)
        requires
            self.wf(),
        ensures
            self@.wf(),
            self@.next_token_id <= U256::max_value(),
    {
        crate::uint::lemma_limbs_value_bound(self.next_token_id.limbs);
    }

    /// The ledger at deployment: no token, the counter at zero.
    pub fn new() -> (r: Erc721)
        ensures
            r.wf(),
            r@ == LedgerState::fresh(),
    {
        let r = Erc721 {
            owners: Table::new(),
            balances: Counters::new(),
            total_supply: U256::from_u64(0),
            next_token_id: U256::from_u64(0),
        };
        proof {
            assert(r@.owners.dom() =~= Set::<nat>::empty());
            assert forall|a: Address| #[trigger]
                r@.balances.contains_key(a) && r@.balances[a] == r@.owned_by(a).len() by {
                assert(r@.owned_by(a) =~= Set::<nat>::empty());
            }
        }
        r
    }

    /// Creates a token with the next id and gives it to `to`, which is not
    /// the null address. The counter must not have run out.
    pub fn mint(&mut self, to: Address) -> (r: Transfer)
        requires
            old(self).wf(),
            !to.is_zero_spec(),
            old(self)@.next_token_id < U256::max_value(),
        ensures
            final(self).wf(),
            final(self)@ == old(self)@.mint(to),
            r.from == Address::zero_spec(),
            r.to == to,
            r.token_id@ == old(self)@.next_token_id,
    {
        let balance = self.balances.get(to);
        proof {
            self@.lemma_counts_bounded();
            self@.lemma_mint(to);
            assert(self@.balances[to] <= self@.total_supply);
        }
        let update = mint_update(self.next_token_id, self.total_supply, balance);
        self.owners.insert(update.token_id, to);
        self.balances.set(to, update.balance);
        self.total_supply = update.total_supply;
        self.next_token_id = update.next_token_id;
        proof {
            assert(self@.owners =~= old(self)@.mint(to).owners);
            assert(self@.balances =~= old(self)@.mint(to).balances);
        }
        Transfer { from: Address::zero(), to, token_id: update.token_id }
    }

    /// Destroys the token `token_id` for its owner `from`. The id is never
    /// handed out again.
    pub fn burn(&mut self, from: Address, token_id: U256) -> (r: Result<Transfer, Erc721Error>)
        requires
            old(self).wf(),
        ensures
            final(self).wf(),
            final(self)@ == old(self)@.burn(from, token_id),
            match old(self)@.burn_error(from, token_id) {
                Some(e) => r == Err::<Transfer, Erc721Error>(e),
                None => r == Ok::<Transfer, Erc721Error>(
                    Transfer { from, to: Address::zero_spec(), token_id },
                ),
            },
    {
        let recorded_owner = self.owners.get(&token_id);
        let balance = self.balances.get(from);
        proof {
            if self@.burn_error(from, token_id) is None {
                self@.lemma_without(token_id@);
            }
        }
        match burn_update(recorded_owner, from, token_id, self.total_supply, balance) {
            Err(e) => Err(e),
            Ok(update) => {
                self.owners.remove(&token_id);
                self.balances.set(from, update.balance);
                self.total_supply = update.total_supply;
                proof {
                    assert(self@.balances =~= old(self)@.without(token_id@).balances);
                }
                Ok(Transfer { from, to: Address::zero(), token_id })
            },
        }
    }

    /// How many tokens are live.
    pub fn total_supply(&self) -> (r: U256)
        ensures
            r@ == self@.total_supply,
    {
        self.total_supply
    }

    /// How many live tokens `owner` holds.
    pub fn balance_of(&self, owner: Address) -> (r: U256)
        requires
            self.wf(),
        ensures
            r@ == self@.balances[owner],
    {
        self.balances.get(owner)
    }

    /// The owner of the live token `token_id`.
    pub fn owner_of(&self, token_id: U256) -> (r: Result<Address, Erc721Error>)
        requires
            self.wf(),
        ensures
            r == (match self@.owner_of(token_id@) {
                Some(owner) => Ok::<Address, Erc721Error>(owner),
                None => Err::<Address, Erc721Error>(
                    Erc721Error::NonexistentToken(NonexistentToken { token_id }),
                ),
            }),
    {
        match self.owners.get(&token_id) {
            Some(owner) => Ok(owner),
            None => Err(Erc721Error::NonexistentToken(NonexistentToken { token_id })),
        }
    }

    /// The id that the next mint assigns.
    pub fn next_token_id(&self) -> (r: U256)
        ensures
            r@ == self@.next_token_id,
    {
        self.next_token_id
    }
}

} // verus!
