//! What holds of the contract over every state and every sequence of calls.
//!
//! The executable operations promise, in their `ensures`, the states and
//! errors that `ContractState` defines; so what is proved here of
//! `ContractState` holds of `PhysicalRedeem`.

use crate::address::Address;
use crate::erc721::{Erc721Error, MaxMintForAddress, NotOwner, SaleNotOpen};
use crate::ownable::{OwnableAlreadyInitialized, OwnableUnauthorizedAccount};
use crate::sale::SalePhase;
use crate::state::{Call, ContractState};
use crate::uint::U256;
use vstd::prelude::*;

verus! {

/// A call that the contract is meant for: a mint is asked for by a real
/// address, never by the null address.
pub open spec fn well_formed_call(call: Call) -> bool {
    call matches Call::Mint { caller, .. } ==> !caller.is_zero_spec()
}

/// Every call of the sequence is well-formed.
pub open spec fn well_formed_calls(calls: Seq<Call>) -> bool {
    forall|i: int| 0 <= i < calls.len() ==> well_formed_call(#[trigger] calls[i])
}

/// The caller of the call; none for `initialize`, which reads no caller.
pub open spec fn caller_of(call: Call) -> Option<Address> {
    match call {
        Call::Initialize { .. } => None,
        Call::Mint { caller, .. } => Some(caller),
        Call::RedeemPhysical { caller, .. } => Some(caller),
        Call::AdminRedeemPhysical { caller, .. } => Some(caller),
        Call::SetSaleInfo { caller, .. } => Some(caller),
        Call::TransferOwnership { caller, .. } => Some(caller),
        Call::RenounceOwnership { caller } => Some(caller),
    }
}

/// The call comes from a real address: the ledger runtime never names the
/// null address as a caller.
pub open spec fn real_caller(call: Call) -> bool {
    caller_of(call) matches Some(caller) ==> !caller.is_zero_spec()
}

/// Every call of the sequence comes from a real address.
pub open spec fn real_callers(calls: Seq<Call>) -> bool {
    forall|i: int| 0 <= i < calls.len() ==> real_caller(#[trigger] calls[i])
}

/// Until it is initialized the contract has no owner.
pub open spec fn no_owner_before_initialize(s: ContractState) -> bool {
    !s.ownable.initialized ==> s.ownable.owner.is_zero_spec()
}

/// The caller of an operation that only the owner may perform; none for
/// the other operations.
pub open spec fn gated_caller(call: Call) -> Option<Address> {
    match call {
        Call::AdminRedeemPhysical { caller, .. } => Some(caller),
        Call::SetSaleInfo { caller, .. } => Some(caller),
        Call::TransferOwnership { caller, .. } => Some(caller),
        Call::RenounceOwnership { caller } => Some(caller),
        _ => None,
    }
}

/// How many tokens `minter` mints in the calls, made one after the other
/// from the state `start`: the amounts of its mints that succeed.
pub open spec fn minted_in(start: ContractState, calls: Seq<Call>, minter: Address) -> nat
    decreases calls.len(),
{
    if calls.len() == 0 {
        0
    } else {
        let before = start.run(calls.drop_last());
        let earlier = minted_in(start, calls.drop_last(), minter);
        match calls.last() {
            Call::Mint { caller, now, amount } => if caller == minter && before.mint_error(
                caller,
                now,
                amount,
            ) is None {
                earlier + amount
            } else {
                earlier
            },
            _ => earlier,
        }
    }
}

/// The state after `caller` has asked `count` times, at the moment `now`,
/// to mint one token.
pub open spec fn after_unit_mints(s: ContractState, caller: Address, now: nat, count: nat)
    -> ContractState
    decreases count,
{
    if count == 0 {
        s
    } else {
        after_unit_mints(s, caller, now, (count - 1) as nat).mint(caller, now, 1)
    }
}

/// The contract at deployment is well-formed and has no owner.
pub proof fn theorem_fresh_is_wf()
    ensures
        ContractState::fresh().wf(),
        no_owner_before_initialize(ContractState::fresh()),
{
    let ledger = ContractState::fresh().ledger;
    assert(ledger.owners.dom() =~= Set::<nat>::empty());
    assert forall|a: Address| #[trigger]
        ledger.balances.contains_key(a) && ledger.balances[a] == ledger.owned_by(a).len() by {
        assert(ledger.owned_by(a) =~= Set::<nat>::empty());
    }
}

/// A call that fails changes nothing.
pub proof fn theorem_failure_changes_nothing(s: ContractState, call: Call)
    requires
        s.error(call) is Some,
    ensures
        s.step(call) == s,
{
}

/// A well-formed call keeps a well-formed state well-formed: beside the
/// agreement of the counts, no token comes to belong to the null address,
/// and the sale configuration stays the one at deployment or a valid one.
pub proof fn theorem_step_keeps_wf(s: ContractState, call: Call)
    requires
        s.wf(),
        well_formed_call(call),
    ensures
        s.step(call).wf(),
{
    match call {
        Call::Mint { caller, now, amount } => {
            if s.mint_error(caller, now, amount) is None {
                s.ledger.lemma_mint_many(caller, amount);
            }
        },
        Call::RedeemPhysical { caller, token_id } => {
            if s.ledger.burn_error(caller, token_id) is None {
                s.ledger.lemma_without(token_id@);
            }
        },
        Call::AdminRedeemPhysical { caller, user, token_id } => {
            if s.admin_redeem_physical_error(caller, user, token_id) is None {
                s.ledger.lemma_without(token_id@);
            }
        },
        _ => {},
    }
}

/// Well-formed calls keep a well-formed state well-formed, however many
/// and in whatever order.
pub proof fn theorem_run_keeps_wf(s: ContractState, calls: Seq<Call>)
    requires
        s.wf(),
        well_formed_calls(calls),
    ensures
        s.run(calls).wf(),
    decreases calls.len(),
{
    if calls.len() > 0 {
        let earlier = calls.drop_last();
        assert forall|i: int| 0 <= i < earlier.len() implies well_formed_call(
            #[trigger] earlier[i],
        ) by {
            assert(earlier[i] == calls[i]);
        }
        theorem_run_keeps_wf(s, earlier);
        assert(well_formed_call(calls[calls.len() - 1]));
        theorem_step_keeps_wf(s.run(earlier), calls.last());
    }
}

/// Once initialized, the contract stays initialized whatever is called.
pub proof fn theorem_initialized_for_good(s: ContractState, calls: Seq<Call>)
    requires
        s.ownable.initialized,
    ensures
        s.run(calls).ownable.initialized,
    decreases calls.len(),
{
    if calls.len() > 0 {
        theorem_initialized_for_good(s, calls.drop_last());
    }
}

/// After `initialize` has succeeded, and whatever was called since, a
/// further `initialize` fails as already initialized and leaves the state,
/// the owner with it, as it was.
pub proof fn theorem_initialize_once(
    s: ContractState,
    first_owner: Address,
    calls: Seq<Call>,
    second_owner: Address,
)
    requires
        s.initialize_error(first_owner) is None,
    ensures
        ({
            let later = s.initialize(first_owner).run(calls);
            &&& later.initialize_error(second_owner) == Some(
                Erc721Error::AlreadyInitialized(OwnableAlreadyInitialized {  }),
            )
            &&& later.initialize(second_owner) == later
        }),
        s.initialize(first_owner).ownable.owner == first_owner,
        !first_owner.is_zero_spec(),
{
    theorem_initialized_for_good(s.initialize(first_owner), calls);
}

/// Calls from real addresses give an uninitialized contract no owner: the
/// owner slot stays null until `initialize` succeeds, so that the event of
/// the first `initialize` names the null address as the previous owner.
pub proof fn theorem_no_owner_before_initialize(s: ContractState, calls: Seq<Call>)
    requires
        no_owner_before_initialize(s),
        real_callers(calls),
    ensures
        no_owner_before_initialize(s.run(calls)),
        forall|initial_owner: Address|
            s.run(calls).initialize_error(initial_owner) is None ==> (#[trigger] s.run(
                calls,
            ).ownable.handover(initial_owner)).previous_owner.is_zero_spec(),
    decreases calls.len(),
{
    if calls.len() > 0 {
        let earlier = calls.drop_last();
        assert forall|i: int| 0 <= i < earlier.len() implies real_caller(#[trigger] earlier[i]) by {
            assert(earlier[i] == calls[i]);
        }
        theorem_no_owner_before_initialize(s, earlier);
        assert(real_caller(calls[calls.len() - 1]));
    }
}

/// Ownership that was given up is gone for good: after `renounce_ownership`
/// has succeeded there is no owner, whatever real addresses call since, and
/// every operation that only the owner may perform fails as unauthorized.
pub proof fn theorem_renounce_is_final(
    s: ContractState,
    owner: Address,
    calls: Seq<Call>,
    call: Call,
)
    requires
        no_owner_before_initialize(s),
        !owner.is_zero_spec(),
        s.renounce_ownership_error(owner) is None,
        real_callers(calls),
        real_caller(call),
        gated_caller(call) is Some,
    ensures
        ({
            let later = s.renounce_ownership(owner).run(calls);
            &&& later.ownable.owner.is_zero_spec()
            &&& later.error(call) == Some(
                Erc721Error::Unauthorized(
                    OwnableUnauthorizedAccount { account: gated_caller(call)->0 },
                ),
            )
            &&& later.step(call) == later
        }),
{
    lemma_no_owner_for_good(s.renounce_ownership(owner), calls);
}

/// An initialized contract without an owner stays so under calls from real
/// addresses.
proof fn lemma_no_owner_for_good(s: ContractState, calls: Seq<Call>)
    requires
        s.ownable.initialized,
        s.ownable.owner.is_zero_spec(),
        real_callers(calls),
    ensures
        s.run(calls).ownable.initialized,
        s.run(calls).ownable.owner.is_zero_spec(),
    decreases calls.len(),
{
    if calls.len() > 0 {
        let earlier = calls.drop_last();
        assert forall|i: int| 0 <= i < earlier.len() implies real_caller(#[trigger] earlier[i]) by {
            assert(earlier[i] == calls[i]);
        }
        lemma_no_owner_for_good(s, earlier);
        assert(real_caller(calls[calls.len() - 1]));
    }
}

/// An operation that only the owner may perform, called by anyone else,
/// fails as unauthorized, naming the caller, and changes nothing.
pub proof fn theorem_authorization_gate(s: ContractState, call: Call)
    requires
        gated_caller(call) is Some,
        gated_caller(call) != Some(s.ownable.owner),
    ensures
        s.error(call) == Some(
            Erc721Error::Unauthorized(
                OwnableUnauthorizedAccount { account: gated_caller(call)->0 },
            ),
        ),
        s.step(call) == s,
{
}

/// A mint that succeeds adds its amount to the caller's count, which stays
/// within the cap, and touches no other count.
pub proof fn theorem_mint_counts(s: ContractState, caller: Address, now: nat, amount: nat)
    requires
        s.mint_error(caller, now, amount) is None,
    ensures
        s.mint(caller, now, amount).sale.minted[caller] == s.sale.minted[caller] + amount,
        s.mint(caller, now, amount).sale.minted[caller] <= s.sale.terms.max_per_address,
        forall|other: Address|
            other != caller ==> #[trigger] s.mint(caller, now, amount).sale.minted[other]
                == s.sale.minted[other],
{
}

/// After any calls, the count of an address is what it was plus the
/// amounts of its mints that succeeded: nothing else moves it, and nothing
/// resets it.
pub proof fn theorem_quota_monotonic(s: ContractState, calls: Seq<Call>, minter: Address)
    ensures
        s.run(calls).sale.minted[minter] == s.sale.minted[minter] + minted_in(s, calls, minter),
    decreases calls.len(),
{
    if calls.len() > 0 {
        theorem_quota_monotonic(s, calls.drop_last(), minter);
    }
}

/// While the sale is open and the cap allows, mints of one token succeed
/// one after the other and the caller's count follows them: after `count`
/// mints it is up by `count`. Once it stands at the cap, the next mint
/// fails as over the cap.
pub proof fn theorem_unit_mints(s: ContractState, caller: Address, now: nat, count: nat)
    requires
        s.sale.terms.phase(now) == SalePhase::Open,
        s.sale.minted[caller] + count <= s.sale.terms.max_per_address,
    ensures
        forall|earlier: nat|
            earlier < count ==> (#[trigger] after_unit_mints(s, caller, now, earlier)).mint_error(
                caller,
                now,
                1,
            ) is None,
        after_unit_mints(s, caller, now, count).sale.terms == s.sale.terms,
        after_unit_mints(s, caller, now, count).sale.minted[caller] == s.sale.minted[caller]
            + count,
        s.sale.minted[caller] + count == s.sale.terms.max_per_address ==> after_unit_mints(
            s,
            caller,
            now,
            count,
        ).mint_error(caller, now, 1) == Some(
            Erc721Error::MaxMintForAddress(MaxMintForAddress {  }),
        ),
    decreases count,
{
    if count > 0 {
        let fewer = (count - 1) as nat;
        theorem_unit_mints(s, caller, now, fewer);
        assert(after_unit_mints(s, caller, now, fewer).mint_error(caller, now, 1) is None);
        assert forall|earlier: nat| earlier < count implies (#[trigger] after_unit_mints(
            s,
            caller,
            now,
            earlier,
        )).mint_error(caller, now, 1) is None by {
            if earlier < fewer {
            }
        }
    }
}

/// While the sale is open, an address whose count has reached the cap
/// cannot mint even one token more.
pub proof fn theorem_quota_exhausted(s: ContractState, caller: Address, now: nat, amount: nat)
    requires
        s.sale.terms.phase(now) == SalePhase::Open,
        s.sale.minted[caller] >= s.sale.terms.max_per_address,
        amount >= 1,
    ensures
        s.mint_error(caller, now, amount) == Some(
            Erc721Error::MaxMintForAddress(MaxMintForAddress {  }),
        ),
        s.mint(caller, now, amount) == s,
{
}

/// A mint before the start time, or at or after the end time, fails as
/// sale not open, whatever the configuration, the caller and the count.
pub proof fn theorem_window_enforcement(s: ContractState, caller: Address, now: nat, amount: nat)
    requires
        now < s.sale.terms.start_time || now >= s.sale.terms.end_time,
    ensures
        s.mint_error(caller, now, amount) == Some(Erc721Error::SaleNotOpen(SaleNotOpen {  })),
        s.mint(caller, now, amount) == s,
{
}

/// The tokens of a mint get ids that no live token has and none ever had:
/// the next ids of the counter, which only moves up.
pub proof fn theorem_minted_ids_fresh(s: ContractState, caller: Address, now: nat, amount: nat)
    requires
        s.ledger.counts_agree(),
        s.mint_error(caller, now, amount) is None,
    ensures
        ({
            let after = s.mint(caller, now, amount);
            &&& after.ledger.next_token_id == s.ledger.next_token_id + amount
            &&& after.ledger.total_supply == s.ledger.total_supply + amount
            &&& forall|id: nat|
                s.ledger.next_token_id <= id < s.ledger.next_token_id + amount ==> {
                    &&& !s.ledger.owners.contains_key(id)
                    &&& #[trigger] after.ledger.owners.contains_key(id)
                    &&& after.ledger.owners[id] == caller
                }
            &&& forall|id: nat| #[trigger]
                s.ledger.owners.contains_key(id) ==> after.ledger.owners.contains_key(id)
                    && after.ledger.owners[id] == s.ledger.owners[id]
        }),
{
    assert forall|id: nat|
        s.ledger.next_token_id <= id < s.ledger.next_token_id
            + amount implies !s.ledger.owners.contains_key(id) by {
        if s.ledger.owners.contains_key(id) {
            assert(id < s.ledger.next_token_id);
        }
    }
}

/// No call brings a dead id back or moves the counter down.
pub proof fn theorem_step_keeps_dead(s: ContractState, call: Call, id: nat)
    requires
        id < s.ledger.next_token_id,
        !s.ledger.owners.contains_key(id),
    ensures
        s.step(call).ledger.next_token_id >= s.ledger.next_token_id,
        !s.step(call).ledger.owners.contains_key(id),
{
}

/// An id that the counter has passed and that is not live, because its
/// token was burned, is never live again, whatever is called.
pub proof fn theorem_burned_ids_never_reassigned(s: ContractState, calls: Seq<Call>, id: nat)
    requires
        id < s.ledger.next_token_id,
        !s.ledger.owners.contains_key(id),
    ensures
        s.run(calls).ledger.next_token_id >= s.ledger.next_token_id,
        !s.run(calls).ledger.owners.contains_key(id),
    decreases calls.len(),
{
    if calls.len() > 0 {
        let earlier = calls.drop_last();
        theorem_burned_ids_never_reassigned(s, earlier, id);
        theorem_step_keeps_dead(s.run(earlier), calls.last(), id);
    }
}

/// Every call keeps the ledger's counts in agreement with its ownership
/// map.
pub proof fn theorem_step_keeps_counts(s: ContractState, call: Call)
    requires
        s.ledger.counts_agree(),
    ensures
        s.step(call).ledger.counts_agree(),
{
    match call {
        Call::Mint { caller, now, amount } => {
            if s.mint_error(caller, now, amount) is None {
                s.ledger.lemma_mint_many(caller, amount);
            }
        },
        Call::RedeemPhysical { caller, token_id } => {
            if s.ledger.burn_error(caller, token_id) is None {
                s.ledger.lemma_without(token_id@);
            }
        },
        Call::AdminRedeemPhysical { caller, user, token_id } => {
            if s.admin_redeem_physical_error(caller, user, token_id) is None {
                s.ledger.lemma_without(token_id@);
            }
        },
        _ => {},
    }
}

/// After any calls the supply is the number of live tokens, each balance
/// the number of live tokens of that address, and every live id is one
/// that the counter has handed out.
pub proof fn theorem_supply_counts_live_tokens(s: ContractState, calls: Seq<Call>)
    requires
        s.ledger.counts_agree(),
    ensures
        s.run(calls).ledger.counts_agree(),
        s.run(calls).ledger.total_supply == s.run(calls).ledger.owners.dom().len(),
        s.run(calls).ledger.total_supply <= s.run(calls).ledger.next_token_id,
    decreases calls.len(),
{
    if calls.len() > 0 {
        theorem_supply_counts_live_tokens(s, calls.drop_last());
        theorem_step_keeps_counts(s.run(calls.drop_last()), calls.last());
    }
    s.run(calls).ledger.lemma_counts_bounded();
}

/// Someone who does not own the live token cannot redeem it: the call
/// fails as not owner, naming the real owner, and changes nothing.
pub proof fn theorem_redeem_by_stranger(s: ContractState, caller: Address, token_id: U256)
    requires
        s.ledger.owners.contains_key(token_id@),
        s.ledger.owners[token_id@] != caller,
    ensures
        s.redeem_physical_error(caller, token_id) == Some(
            Erc721Error::NotOwner(
                NotOwner { from: caller, token_id, real_owner: s.ledger.owners[token_id@] },
            ),
        ),
        s.redeem_physical(caller, token_id) == s,
{
}

/// The owner of a live token redeems it: the token is gone, the supply and
/// the owner's balance are down by exactly one, every other token stays
/// with its owner, and the counter stays.
pub proof fn theorem_redeem_by_owner(s: ContractState, caller: Address, token_id: U256)
    requires
        s.ledger.counts_agree(),
        s.ledger.owners.contains_key(token_id@),
        s.ledger.owners[token_id@] == caller,
    ensures
        s.redeem_physical_error(caller, token_id) is None,
        ({
            let after = s.redeem_physical(caller, token_id);
            &&& after.ledger.counts_agree()
            &&& after.ledger.owners == s.ledger.owners.remove(token_id@)
            &&& after.ledger.total_supply + 1 == s.ledger.total_supply
            &&& after.ledger.balances[caller] + 1 == s.ledger.balances[caller]
            &&& after.ledger.next_token_id == s.ledger.next_token_id
        }),
{
    s.ledger.lemma_without(token_id@);
}

} // verus!
