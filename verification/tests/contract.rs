use physical_redeem::address::Address;
use physical_redeem::erc721::{
    Erc721Error, InvalidSaleSetup, MaxMintForAddress, NonexistentToken, NotOwner, SaleNotOpen,
    Transfer,
};
use physical_redeem::ownable::{
    OwnableAlreadyInitialized, OwnableInvalidOwner, OwnableUnauthorizedAccount,
    OwnershipTransferred,
};
use physical_redeem::uint::U256;
use physical_redeem::PhysicalRedeem;

fn addr(byte: u8) -> Address {
    Address::new([byte; 20])
}

fn n(value: u64) -> U256 {
    U256::from_u64(value)
}

fn owner() -> Address {
    addr(0xAA)
}

fn unauthorized(account: Address) -> Erc721Error {
    Erc721Error::Unauthorized(OwnableUnauthorizedAccount { account })
}

fn sale_not_open() -> Erc721Error {
    Erc721Error::SaleNotOpen(SaleNotOpen {})
}

fn max_mint() -> Erc721Error {
    Erc721Error::MaxMintForAddress(MaxMintForAddress {})
}

fn invalid_setup() -> Erc721Error {
    Erc721Error::InvalidSaleSetup(InvalidSaleSetup {})
}

fn minted(to: Address, id: u64) -> Transfer {
    Transfer { from: Address::zero(), to, token_id: n(id) }
}

/// A contract owned by `owner()` with the window `[100, 200)`, price zero
/// and the given cap.
fn open_sale(cap: u64) -> PhysicalRedeem {
    let mut contract = PhysicalRedeem::new();
    assert!(contract.initialize(owner()).is_ok());
    assert_eq!(contract.set_sale_info(owner(), n(100), n(200), n(0), n(cap)), Ok(()));
    contract
}

#[test]
fn new_contract_is_blank() {
    let mut contract = PhysicalRedeem::new();
    assert_eq!(contract.owner(), Ok(Address::zero()));
    assert_eq!(contract.total_supply(), Ok(n(0)));
    assert_eq!(contract.sale_info(), Ok((n(0), n(0), n(0), n(0))));
    assert_eq!(contract.num_minted_by_address(addr(1)), Ok(n(0)));
}

#[test]
fn initialize_once() {
    let mut contract = PhysicalRedeem::new();
    assert_eq!(
        contract.initialize(owner()),
        Ok(OwnershipTransferred { previous_owner: Address::zero(), new_owner: owner() })
    );
    assert_eq!(contract.owner(), Ok(owner()));
    assert_eq!(
        contract.initialize(addr(2)),
        Err(Erc721Error::AlreadyInitialized(OwnableAlreadyInitialized {}))
    );
    assert_eq!(contract.owner(), Ok(owner()));
}

#[test]
fn initialize_stays_refused_after_other_calls() {
    let mut contract = open_sale(2);
    assert!(contract.mint(addr(1), 150, 1).is_ok());
    assert!(contract.transfer_ownership(owner(), addr(7)).is_ok());
    assert!(contract.renounce_ownership(addr(7)).is_ok());
    assert_eq!(
        contract.initialize(addr(2)),
        Err(Erc721Error::AlreadyInitialized(OwnableAlreadyInitialized {}))
    );
    assert_eq!(contract.owner(), Ok(Address::zero()));
}

#[test]
fn initialize_rejects_the_null_address() {
    let mut contract = PhysicalRedeem::new();
    assert_eq!(
        contract.initialize(Address::zero()),
        Err(Erc721Error::InvalidOwner(OwnableInvalidOwner { owner: Address::zero() }))
    );
    assert_eq!(contract.owner(), Ok(Address::zero()));
    assert!(contract.initialize(owner()).is_ok());
}

#[test]
fn strangers_are_turned_away_from_owner_operations() {
    let mut contract = open_sale(2);
    assert_eq!(contract.mint(addr(1), 150, 1), Ok(vec![minted(addr(1), 0)]));
    let stranger = addr(9);

    assert_eq!(
        contract.set_sale_info(stranger, n(1), n(2), n(3), n(4)),
        Err(unauthorized(stranger))
    );
    assert_eq!(
        contract.admin_redeem_physical(stranger, addr(1), n(0)),
        Err(unauthorized(stranger))
    );
    assert_eq!(contract.transfer_ownership(stranger, stranger), Err(unauthorized(stranger)));
    assert_eq!(contract.renounce_ownership(stranger), Err(unauthorized(stranger)));

    assert_eq!(contract.owner(), Ok(owner()));
    assert_eq!(contract.sale_info(), Ok((n(100), n(200), n(0), n(2))));
    assert_eq!(contract.total_supply(), Ok(n(1)));
    assert_eq!(contract.num_minted_by_address(addr(1)), Ok(n(1)));
}

#[test]
fn unauthorized_comes_before_the_other_errors() {
    let mut contract = open_sale(2);
    let stranger = addr(9);
    assert_eq!(
        contract.set_sale_info(stranger, n(0), n(0), n(0), n(0)),
        Err(unauthorized(stranger))
    );
    assert_eq!(
        contract.admin_redeem_physical(stranger, addr(1), n(42)),
        Err(unauthorized(stranger))
    );
    assert_eq!(
        contract.transfer_ownership(stranger, Address::zero()),
        Err(unauthorized(stranger))
    );
}

#[test]
fn quota_counts_each_mint() {
    let mut contract = open_sale(3);
    for minted_so_far in 0..3u64 {
        assert_eq!(contract.num_minted_by_address(addr(1)), Ok(n(minted_so_far)));
        assert_eq!(
            contract.mint(addr(1), 150, 1),
            Ok(vec![minted(addr(1), minted_so_far)])
        );
    }
    assert_eq!(contract.num_minted_by_address(addr(1)), Ok(n(3)));
    assert_eq!(contract.mint(addr(1), 150, 1), Err(max_mint()));
    assert_eq!(contract.num_minted_by_address(addr(1)), Ok(n(3)));
    assert_eq!(contract.total_supply(), Ok(n(3)));
}

#[test]
fn quota_is_per_address() {
    let mut contract = open_sale(2);
    assert!(contract.mint(addr(1), 150, 2).is_ok());
    assert_eq!(contract.mint(addr(1), 150, 1), Err(max_mint()));
    assert_eq!(contract.mint(addr(2), 150, 2), Ok(vec![minted(addr(2), 2), minted(addr(2), 3)]));
    assert_eq!(contract.num_minted_by_address(addr(1)), Ok(n(2)));
    assert_eq!(contract.num_minted_by_address(addr(2)), Ok(n(2)));
    assert_eq!(contract.num_minted_by_address(addr(3)), Ok(n(0)));
}

#[test]
fn quota_is_not_given_back_by_a_burn() {
    let mut contract = open_sale(2);
    assert!(contract.mint(addr(1), 150, 2).is_ok());
    assert!(contract.redeem_physical(addr(1), n(0)).is_ok());
    assert_eq!(contract.num_minted_by_address(addr(1)), Ok(n(2)));
    assert_eq!(contract.mint(addr(1), 150, 1), Err(max_mint()));
}

#[test]
fn mint_of_several_tokens_is_all_or_nothing() {
    let mut contract = open_sale(3);
    assert_eq!(contract.mint(addr(1), 150, 4), Err(max_mint()));
    assert_eq!(contract.num_minted_by_address(addr(1)), Ok(n(0)));
    assert_eq!(contract.total_supply(), Ok(n(0)));
    assert_eq!(
        contract.mint(addr(1), 150, 3),
        Ok(vec![minted(addr(1), 0), minted(addr(1), 1), minted(addr(1), 2)])
    );
    assert_eq!(contract.num_minted_by_address(addr(1)), Ok(n(3)));
    assert_eq!(contract.total_supply(), Ok(n(3)));
}

#[test]
fn mint_of_no_token_changes_nothing() {
    let mut contract = open_sale(2);
    assert_eq!(contract.mint(addr(1), 150, 0), Ok(vec![]));
    assert_eq!(contract.num_minted_by_address(addr(1)), Ok(n(0)));
    assert_eq!(contract.total_supply(), Ok(n(0)));
    assert!(contract.mint(addr(1), 150, 2).is_ok());
    assert_eq!(contract.mint(addr(1), 150, 0), Ok(vec![]));
    assert_eq!(contract.mint(addr(1), 250, 0), Err(sale_not_open()));
}

#[test]
fn lowering_the_cap_below_a_count_blocks_further_mints() {
    let mut contract = open_sale(5);
    assert!(contract.mint(addr(1), 150, 3).is_ok());
    assert_eq!(contract.set_sale_info(owner(), n(100), n(200), n(0), n(2)), Ok(()));
    assert_eq!(contract.mint(addr(1), 150, 1), Err(max_mint()));
    assert_eq!(contract.mint(addr(1), 150, 0), Err(max_mint()));
    assert_eq!(contract.mint(addr(1), 150, u64::MAX), Err(max_mint()));
    assert_eq!(contract.num_minted_by_address(addr(1)), Ok(n(3)));
    assert_eq!(contract.mint(addr(2), 150, 2), Ok(vec![minted(addr(2), 3), minted(addr(2), 4)]));
    assert_eq!(contract.set_sale_info(owner(), n(100), n(200), n(0), n(4)), Ok(()));
    assert_eq!(contract.mint(addr(1), 150, 1), Ok(vec![minted(addr(1), 5)]));
    assert_eq!(contract.num_minted_by_address(addr(1)), Ok(n(4)));
}

#[test]
fn window_is_enforced() {
    let mut contract = open_sale(5);
    assert_eq!(contract.mint(addr(1), 0, 1), Err(sale_not_open()));
    assert_eq!(contract.mint(addr(1), 99, 1), Err(sale_not_open()));
    assert_eq!(contract.mint(addr(1), 200, 1), Err(sale_not_open()));
    assert_eq!(contract.mint(addr(1), 201, 1), Err(sale_not_open()));
    assert_eq!(contract.mint(addr(1), u64::MAX, 1), Err(sale_not_open()));
    assert_eq!(contract.num_minted_by_address(addr(1)), Ok(n(0)));
    assert_eq!(contract.total_supply(), Ok(n(0)));
    assert_eq!(contract.mint(addr(1), 100, 1), Ok(vec![minted(addr(1), 0)]));
    assert_eq!(contract.mint(addr(1), 199, 1), Ok(vec![minted(addr(1), 1)]));
}

#[test]
fn unconfigured_sale_is_closed() {
    let mut contract = PhysicalRedeem::new();
    assert!(contract.initialize(owner()).is_ok());
    assert_eq!(contract.mint(addr(1), 0, 1), Err(sale_not_open()));
    assert_eq!(contract.mint(addr(1), 150, 1), Err(sale_not_open()));
    assert_eq!(contract.mint(owner(), 150, 0), Err(sale_not_open()));
}

#[test]
fn sale_not_open_comes_before_max_mint() {
    let mut contract = open_sale(1);
    assert!(contract.mint(addr(1), 150, 1).is_ok());
    assert_eq!(contract.mint(addr(1), 150, 1), Err(max_mint()));
    assert_eq!(contract.mint(addr(1), 250, 1), Err(sale_not_open()));
    assert_eq!(contract.mint(addr(1), 50, 1), Err(sale_not_open()));
}

#[test]
fn ids_are_unique_and_never_reused() {
    let mut contract = open_sale(10);
    assert_eq!(
        contract.mint(addr(1), 150, 3),
        Ok(vec![minted(addr(1), 0), minted(addr(1), 1), minted(addr(1), 2)])
    );
    assert!(contract.redeem_physical(addr(1), n(1)).is_ok());
    assert!(contract.redeem_physical(addr(1), n(2)).is_ok());
    assert_eq!(contract.total_supply(), Ok(n(1)));
    assert_eq!(contract.mint(addr(2), 150, 2), Ok(vec![minted(addr(2), 3), minted(addr(2), 4)]));
    assert_eq!(contract.total_supply(), Ok(n(3)));
    assert_eq!(
        contract.redeem_physical(addr(2), n(1)),
        Err(Erc721Error::NonexistentToken(NonexistentToken { token_id: n(1) }))
    );
    assert_eq!(
        contract.redeem_physical(addr(1), n(2)),
        Err(Erc721Error::NonexistentToken(NonexistentToken { token_id: n(2) }))
    );
    assert_eq!(contract.total_supply(), Ok(n(3)));
}

#[test]
fn balances_and_owners_follow_mints_and_burns() {
    let mut contract = open_sale(5);
    assert_eq!(contract.next_token_id(), n(0));
    assert!(contract.mint(addr(1), 150, 2).is_ok());
    assert!(contract.mint(addr(2), 150, 1).is_ok());
    assert_eq!(contract.next_token_id(), n(3));
    assert_eq!(contract.balance_of(addr(1)), Ok(n(2)));
    assert_eq!(contract.balance_of(addr(2)), Ok(n(1)));
    assert_eq!(contract.balance_of(addr(3)), Ok(n(0)));
    assert_eq!(contract.owner_of(n(0)), Ok(addr(1)));
    assert_eq!(contract.owner_of(n(1)), Ok(addr(1)));
    assert_eq!(contract.owner_of(n(2)), Ok(addr(2)));
    assert_eq!(
        contract.owner_of(n(3)),
        Err(Erc721Error::NonexistentToken(NonexistentToken { token_id: n(3) }))
    );
    assert!(contract.redeem_physical(addr(1), n(0)).is_ok());
    assert_eq!(contract.balance_of(addr(1)), Ok(n(1)));
    assert_eq!(
        contract.owner_of(n(0)),
        Err(Erc721Error::NonexistentToken(NonexistentToken { token_id: n(0) }))
    );
    assert_eq!(contract.next_token_id(), n(3));
    assert_eq!(contract.total_supply(), Ok(n(2)));
}

#[test]
fn redeem_physical_by_a_stranger_fails() {
    let mut contract = open_sale(2);
    assert!(contract.mint(addr(1), 150, 1).is_ok());
    assert_eq!(
        contract.redeem_physical(addr(2), n(0)),
        Err(Erc721Error::NotOwner(NotOwner { from: addr(2), token_id: n(0), real_owner: addr(1) }))
    );
    assert_eq!(
        contract.redeem_physical(owner(), n(0)),
        Err(Erc721Error::NotOwner(NotOwner { from: owner(), token_id: n(0), real_owner: addr(1) }))
    );
    assert_eq!(contract.total_supply(), Ok(n(1)));
}

#[test]
fn redeem_physical_by_the_holder_burns_one_token() {
    let mut contract = open_sale(2);
    assert!(contract.mint(addr(1), 150, 2).is_ok());
    assert_eq!(
        contract.redeem_physical(addr(1), n(1)),
        Ok(Transfer { from: addr(1), to: Address::zero(), token_id: n(1) })
    );
    assert_eq!(contract.total_supply(), Ok(n(1)));
    assert_eq!(
        contract.redeem_physical(addr(1), n(1)),
        Err(Erc721Error::NonexistentToken(NonexistentToken { token_id: n(1) }))
    );
    assert_eq!(contract.total_supply(), Ok(n(1)));
}

#[test]
fn redeem_physical_of_an_unminted_id_fails() {
    let mut contract = open_sale(2);
    assert_eq!(
        contract.redeem_physical(addr(1), n(0)),
        Err(Erc721Error::NonexistentToken(NonexistentToken { token_id: n(0) }))
    );
}

#[test]
fn admin_redeem_physical_burns_for_the_user() {
    let mut contract = open_sale(2);
    assert!(contract.mint(addr(1), 150, 2).is_ok());
    assert_eq!(
        contract.admin_redeem_physical(owner(), addr(1), n(0)),
        Ok(Transfer { from: addr(1), to: Address::zero(), token_id: n(0) })
    );
    assert_eq!(contract.total_supply(), Ok(n(1)));
    assert_eq!(
        contract.admin_redeem_physical(owner(), addr(2), n(1)),
        Err(Erc721Error::NotOwner(NotOwner { from: addr(2), token_id: n(1), real_owner: addr(1) }))
    );
    assert_eq!(
        contract.admin_redeem_physical(owner(), addr(1), n(0)),
        Err(Erc721Error::NonexistentToken(NonexistentToken { token_id: n(0) }))
    );
    assert_eq!(contract.total_supply(), Ok(n(1)));
}

#[test]
fn set_sale_info_replaces_all_four_fields() {
    let mut contract = open_sale(2);
    assert_eq!(contract.set_sale_info(owner(), n(300), n(400), n(7), n(9)), Ok(()));
    assert_eq!(contract.sale_info(), Ok((n(300), n(400), n(7), n(9))));
    assert_eq!(contract.mint(addr(1), 150, 1), Err(sale_not_open()));
    assert_eq!(contract.mint(addr(1), 300, 1), Ok(vec![minted(addr(1), 0)]));
}

#[test]
fn set_sale_info_rejects_and_keeps_the_old_terms() {
    let mut contract = open_sale(2);
    assert_eq!(contract.set_sale_info(owner(), n(0), n(200), n(0), n(5)), Err(invalid_setup()));
    assert_eq!(contract.set_sale_info(owner(), n(200), n(100), n(0), n(5)), Err(invalid_setup()));
    assert_eq!(contract.set_sale_info(owner(), n(100), n(0), n(0), n(5)), Err(invalid_setup()));
    assert_eq!(contract.set_sale_info(owner(), n(100), n(200), n(0), n(0)), Err(invalid_setup()));
    assert_eq!(contract.set_sale_info(owner(), n(100), n(100), n(0), n(5)), Err(invalid_setup()));
    assert_eq!(contract.sale_info(), Ok((n(100), n(200), n(0), n(2))));
}

#[test]
fn sale_scenario_with_a_cap_of_two() {
    let mut contract = PhysicalRedeem::new();
    assert!(contract.initialize(owner()).is_ok());
    assert_eq!(contract.set_sale_info(owner(), n(100), n(200), n(0), n(2)), Ok(()));
    let x = addr(0x42);
    assert_eq!(contract.mint(x, 150, 1), Ok(vec![minted(x, 0)]));
    assert_eq!(contract.mint(x, 150, 1), Ok(vec![minted(x, 1)]));
    assert_eq!(contract.num_minted_by_address(x), Ok(n(2)));
    assert_eq!(contract.mint(x, 150, 1), Err(max_mint()));
    assert_eq!(contract.mint(x, 250, 1), Err(sale_not_open()));
    assert_eq!(contract.mint(addr(0x43), 250, 1), Err(sale_not_open()));
    assert_eq!(contract.num_minted_by_address(x), Ok(n(2)));
    assert_eq!(contract.total_supply(), Ok(n(2)));
}

#[test]
fn invalid_sale_setups() {
    let mut contract = PhysicalRedeem::new();
    assert!(contract.initialize(owner()).is_ok());
    assert_eq!(contract.set_sale_info(owner(), n(0), n(200), n(0), n(5)), Err(invalid_setup()));
    assert_eq!(contract.set_sale_info(owner(), n(200), n(100), n(0), n(5)), Err(invalid_setup()));
    assert_eq!(contract.sale_info(), Ok((n(0), n(0), n(0), n(0))));
}

#[test]
fn ownership_moves_the_gate() {
    let mut contract = open_sale(2);
    assert_eq!(
        contract.transfer_ownership(owner(), addr(7)),
        Ok(OwnershipTransferred { previous_owner: owner(), new_owner: addr(7) })
    );
    assert_eq!(contract.owner(), Ok(addr(7)));
    assert_eq!(
        contract.set_sale_info(owner(), n(1), n(2), n(3), n(4)),
        Err(unauthorized(owner()))
    );
    assert_eq!(contract.set_sale_info(addr(7), n(1), n(2), n(3), n(4)), Ok(()));
    assert_eq!(
        contract.transfer_ownership(addr(7), Address::zero()),
        Err(Erc721Error::InvalidOwner(OwnableInvalidOwner { owner: Address::zero() }))
    );
    assert_eq!(contract.owner(), Ok(addr(7)));
}

#[test]
fn renounce_ownership_closes_the_gate_for_good() {
    let mut contract = open_sale(2);
    assert!(contract.mint(addr(1), 150, 1).is_ok());
    assert_eq!(
        contract.renounce_ownership(owner()),
        Ok(OwnershipTransferred { previous_owner: owner(), new_owner: Address::zero() })
    );
    assert_eq!(contract.owner(), Ok(Address::zero()));
    assert_eq!(
        contract.set_sale_info(owner(), n(1), n(2), n(3), n(4)),
        Err(unauthorized(owner()))
    );
    assert_eq!(
        contract.admin_redeem_physical(owner(), addr(1), n(0)),
        Err(unauthorized(owner()))
    );
    assert_eq!(contract.transfer_ownership(owner(), addr(7)), Err(unauthorized(owner())));
    assert_eq!(contract.renounce_ownership(owner()), Err(unauthorized(owner())));
    assert_eq!(contract.mint(addr(1), 150, 1), Ok(vec![minted(addr(1), 1)]));
    assert!(contract.redeem_physical(addr(1), n(0)).is_ok());
}

#[test]
fn cap_beyond_64_bits() {
    let mut contract = PhysicalRedeem::new();
    assert!(contract.initialize(owner()).is_ok());
    let cap = U256::from_limbs([0, 1, 0, 0]);
    assert_eq!(contract.set_sale_info(owner(), n(100), n(200), n(0), cap), Ok(()));
    assert_eq!(contract.sale_info(), Ok((n(100), n(200), n(0), cap)));
    assert_eq!(
        contract.mint(addr(1), 150, 3),
        Ok(vec![minted(addr(1), 0), minted(addr(1), 1), minted(addr(1), 2)])
    );
    assert_eq!(contract.num_minted_by_address(addr(1)), Ok(n(3)));
}
