use physical_redeem::address::Address;
use physical_redeem::ownable::{
    Ownable, OwnableAlreadyInitialized, OwnableError, OwnableInvalidOwner,
    OwnableUnauthorizedAccount, OwnershipTransferred,
};

fn addr(byte: u8) -> Address {
    Address::new([byte; 20])
}

fn unauthorized(account: Address) -> OwnableError {
    OwnableError::OwnableUnauthorizedAccount(OwnableUnauthorizedAccount { account })
}

#[test]
fn new_ownable_has_no_owner() {
    let ownable = Ownable::new();
    assert_eq!(ownable.owner(), Ok(Address::zero()));
    assert!(!ownable.is_initialized());
}

#[test]
fn initialize_sets_the_owner_and_reports_the_handover() {
    let mut ownable = Ownable::new();
    let event = ownable.initialize(addr(1));
    assert_eq!(
        event,
        Ok(OwnershipTransferred { previous_owner: Address::zero(), new_owner: addr(1) })
    );
    assert_eq!(ownable.owner(), Ok(addr(1)));
    assert!(ownable.is_initialized());
}

#[test]
fn initialize_twice_fails_and_keeps_the_owner() {
    let mut ownable = Ownable::new();
    assert!(ownable.initialize(addr(1)).is_ok());
    assert_eq!(
        ownable.initialize(addr(2)),
        Err(OwnableError::OwnableAlreadyInitialized(OwnableAlreadyInitialized {}))
    );
    assert_eq!(ownable.owner(), Ok(addr(1)));
    assert_eq!(
        ownable.initialize(addr(1)),
        Err(OwnableError::OwnableAlreadyInitialized(OwnableAlreadyInitialized {}))
    );
}

#[test]
fn initialize_with_the_null_address_fails() {
    let mut ownable = Ownable::new();
    assert_eq!(
        ownable.initialize(Address::zero()),
        Err(OwnableError::OwnableInvalidOwner(OwnableInvalidOwner { owner: Address::zero() }))
    );
    assert!(!ownable.is_initialized());
    assert_eq!(ownable.owner(), Ok(Address::zero()));
    assert!(ownable.initialize(addr(1)).is_ok());
}

#[test]
fn already_initialized_comes_before_invalid_owner() {
    let mut ownable = Ownable::new();
    assert!(ownable.initialize(addr(1)).is_ok());
    assert_eq!(
        ownable.initialize(Address::zero()),
        Err(OwnableError::OwnableAlreadyInitialized(OwnableAlreadyInitialized {}))
    );
}

#[test]
fn only_owner_lets_the_owner_through() {
    let mut ownable = Ownable::new();
    assert!(ownable.initialize(addr(1)).is_ok());
    assert_eq!(ownable.only_owner(addr(1)), Ok(()));
    assert_eq!(ownable.only_owner(addr(2)), Err(unauthorized(addr(2))));
    assert_eq!(ownable.only_owner(Address::zero()), Err(unauthorized(Address::zero())));
}

#[test]
fn transfer_ownership_by_the_owner() {
    let mut ownable = Ownable::new();
    assert!(ownable.initialize(addr(1)).is_ok());
    assert_eq!(
        ownable.transfer_ownership(addr(1), addr(2)),
        Ok(OwnershipTransferred { previous_owner: addr(1), new_owner: addr(2) })
    );
    assert_eq!(ownable.owner(), Ok(addr(2)));
    assert_eq!(ownable.only_owner(addr(1)), Err(unauthorized(addr(1))));
    assert_eq!(ownable.only_owner(addr(2)), Ok(()));
    assert!(ownable.is_initialized());
}

#[test]
fn transfer_ownership_by_a_stranger_fails() {
    let mut ownable = Ownable::new();
    assert!(ownable.initialize(addr(1)).is_ok());
    assert_eq!(ownable.transfer_ownership(addr(3), addr(2)), Err(unauthorized(addr(3))));
    assert_eq!(ownable.owner(), Ok(addr(1)));
}

#[test]
fn transfer_ownership_to_the_null_address_fails() {
    let mut ownable = Ownable::new();
    assert!(ownable.initialize(addr(1)).is_ok());
    assert_eq!(
        ownable.transfer_ownership(addr(1), Address::zero()),
        Err(OwnableError::OwnableInvalidOwner(OwnableInvalidOwner { owner: Address::zero() }))
    );
    assert_eq!(ownable.owner(), Ok(addr(1)));
}

#[test]
fn unauthorized_comes_before_invalid_owner() {
    let mut ownable = Ownable::new();
    assert!(ownable.initialize(addr(1)).is_ok());
    assert_eq!(
        ownable.transfer_ownership(addr(3), Address::zero()),
        Err(unauthorized(addr(3)))
    );
}

#[test]
fn renounce_ownership_leaves_no_owner() {
    let mut ownable = Ownable::new();
    assert!(ownable.initialize(addr(1)).is_ok());
    assert_eq!(ownable.renounce_ownership(addr(2)), Err(unauthorized(addr(2))));
    assert_eq!(ownable.owner(), Ok(addr(1)));
    assert_eq!(
        ownable.renounce_ownership(addr(1)),
        Ok(OwnershipTransferred { previous_owner: addr(1), new_owner: Address::zero() })
    );
    assert_eq!(ownable.owner(), Ok(Address::zero()));
    assert!(ownable.is_initialized());
    assert_eq!(ownable.only_owner(addr(1)), Err(unauthorized(addr(1))));
    assert_eq!(ownable.transfer_ownership(addr(1), addr(2)), Err(unauthorized(addr(1))));
    assert_eq!(
        ownable.initialize(addr(1)),
        Err(OwnableError::OwnableAlreadyInitialized(OwnableAlreadyInitialized {}))
    );
}

#[test]
fn transfer_ownership_impl_writes_unguarded() {
    let mut ownable = Ownable::new();
    assert_eq!(
        ownable.transfer_ownership_impl(addr(5)),
        OwnershipTransferred { previous_owner: Address::zero(), new_owner: addr(5) }
    );
    assert_eq!(ownable.owner(), Ok(addr(5)));
    assert!(!ownable.is_initialized());
    assert_eq!(
        ownable.transfer_ownership_impl(addr(6)),
        OwnershipTransferred { previous_owner: addr(5), new_owner: addr(6) }
    );
}
