use physical_redeem::address::Address;
use physical_redeem::counters::Counters;
use physical_redeem::table::{Key, Table};
use physical_redeem::uint::U256;

fn max() -> U256 {
    U256::from_limbs([u64::MAX, u64::MAX, u64::MAX, u64::MAX])
}

#[test]
fn from_u64_fills_the_lowest_limb() {
    assert_eq!(U256::from_u64(7).into_limbs(), [7, 0, 0, 0]);
    assert_eq!(U256::from_u64(u64::MAX).into_limbs(), [u64::MAX, 0, 0, 0]);
    assert_eq!(U256::from_limbs([1, 2, 3, 4]).into_limbs(), [1, 2, 3, 4]);
}

#[test]
fn is_zero_only_for_zero() {
    assert!(U256::from_u64(0).is_zero());
    assert!(!U256::from_u64(1).is_zero());
    assert!(!U256::from_limbs([0, 0, 0, 1]).is_zero());
    assert!(!U256::from_limbs([0, 1, 0, 0]).is_zero());
}

#[test]
fn wrapping_add_adds() {
    assert_eq!(U256::from_u64(2).wrapping_add(U256::from_u64(3)), U256::from_u64(5));
    assert_eq!(U256::from_u64(0).wrapping_add(U256::from_u64(9)), U256::from_u64(9));
}

#[test]
fn wrapping_add_carries_into_the_next_limb() {
    let sum = U256::from_u64(u64::MAX).wrapping_add(U256::from_u64(1));
    assert_eq!(sum.into_limbs(), [0, 1, 0, 0]);
    let sum = U256::from_limbs([u64::MAX, u64::MAX, u64::MAX, 0]).wrapping_add(U256::from_u64(1));
    assert_eq!(sum.into_limbs(), [0, 0, 0, 1]);
}

#[test]
fn wrapping_add_wraps_at_two_to_the_256() {
    assert_eq!(max().wrapping_add(U256::from_u64(1)), U256::from_u64(0));
    assert_eq!(max().wrapping_add(U256::from_u64(5)), U256::from_u64(4));
}

#[test]
fn wrapping_sub_subtracts() {
    assert_eq!(U256::from_u64(5).wrapping_sub(U256::from_u64(3)), U256::from_u64(2));
    assert_eq!(U256::from_u64(5).wrapping_sub(U256::from_u64(5)), U256::from_u64(0));
}

#[test]
fn wrapping_sub_borrows_from_the_next_limb() {
    let difference = U256::from_limbs([0, 1, 0, 0]).wrapping_sub(U256::from_u64(1));
    assert_eq!(difference.into_limbs(), [u64::MAX, 0, 0, 0]);
}

#[test]
fn wrapping_sub_wraps_below_zero() {
    assert_eq!(U256::from_u64(0).wrapping_sub(U256::from_u64(1)), max());
    assert_eq!(
        U256::from_u64(2).wrapping_sub(U256::from_u64(5)).into_limbs(),
        [u64::MAX - 2, u64::MAX, u64::MAX, u64::MAX]
    );
}

#[test]
fn lt_orders_by_value() {
    assert!(U256::from_u64(1).lt(&U256::from_u64(2)));
    assert!(!U256::from_u64(2).lt(&U256::from_u64(1)));
    assert!(!U256::from_u64(2).lt(&U256::from_u64(2)));
}

#[test]
fn lt_weighs_the_high_limbs_most() {
    let high = U256::from_limbs([0, 0, 0, 1]);
    let low = U256::from_limbs([u64::MAX, u64::MAX, u64::MAX, 0]);
    assert!(low.lt(&high));
    assert!(!high.lt(&low));
    assert!(U256::from_limbs([5, 1, 0, 0]).lt(&U256::from_limbs([4, 2, 0, 0])));
}

#[test]
fn arithmetic_agrees_with_alloy() {
    let cases: [([u64; 4], [u64; 4]); 4] = [
        ([1, 2, 3, 4], [5, 6, 7, 8]),
        ([u64::MAX, 0, u64::MAX, 0], [1, u64::MAX, 0, 9]),
        ([0, 0, 0, u64::MAX], [0, 0, 0, u64::MAX]),
        ([3, 0, 0, 0], [u64::MAX, u64::MAX, u64::MAX, u64::MAX]),
    ];
    for (a, b) in cases {
        let x = alloy_primitives::U256::from_limbs(a);
        let y = alloy_primitives::U256::from_limbs(b);
        let ours_a = U256::from_limbs(a);
        let ours_b = U256::from_limbs(b);
        assert_eq!(ours_a.wrapping_add(ours_b).into_limbs(), (x + y).into_limbs());
        assert_eq!(ours_a.wrapping_sub(ours_b).into_limbs(), (x - y).into_limbs());
        assert_eq!(ours_a.lt(&ours_b), x < y);
        assert_eq!(ours_b.lt(&ours_a), y < x);
    }
}

#[test]
fn from_u64_agrees_with_alloy() {
    for value in [0u64, 1, 150, u64::MAX] {
        assert_eq!(
            U256::from_u64(value).into_limbs(),
            alloy_primitives::U256::from(value).into_limbs()
        );
    }
}

#[test]
fn same_tells_integers_apart() {
    assert!(U256::from_u64(4).same(&U256::from_u64(4)));
    assert!(!U256::from_u64(4).same(&U256::from_u64(5)));
    assert!(!U256::from_limbs([4, 0, 0, 0]).same(&U256::from_limbs([4, 0, 0, 1])));
    assert!(!U256::from_limbs([4, 1, 0, 0]).same(&U256::from_limbs([4, 0, 0, 0])));
    assert!(!U256::from_limbs([4, 0, 1, 0]).same(&U256::from_limbs([4, 0, 0, 0])));
}

#[test]
fn address_zero_and_same() {
    assert!(Address::zero().is_zero());
    assert_eq!(Address::zero().into_array(), [0u8; 20]);
    let a = Address::new([7u8; 20]);
    assert!(!a.is_zero());
    assert_eq!(a.into_array(), [7u8; 20]);
    assert!(a.same(&Address::new([7u8; 20])));
    let mut bytes = [7u8; 20];
    bytes[19] = 8;
    assert!(!a.same(&Address::new(bytes)));
    let mut bytes = [0u8; 20];
    bytes[19] = 1;
    assert!(!Address::new(bytes).is_zero());
}

#[test]
fn address_agrees_with_alloy() {
    assert_eq!(Address::zero().into_array(), alloy_primitives::Address::ZERO.into_array());
    let theirs = alloy_primitives::Address::repeat_byte(0x11);
    let ours = Address::new(theirs.into_array());
    assert_eq!(alloy_primitives::Address::new(ours.into_array()), theirs);
}

#[test]
fn table_insert_get_remove() {
    let mut table: Table<U256, Address> = Table::new();
    let a = Address::new([1u8; 20]);
    let b = Address::new([2u8; 20]);
    assert_eq!(table.get(&U256::from_u64(1)), None);
    table.insert(U256::from_u64(1), a);
    table.insert(U256::from_u64(2), b);
    assert_eq!(table.get(&U256::from_u64(1)), Some(a));
    assert_eq!(table.get(&U256::from_u64(2)), Some(b));
    table.insert(U256::from_u64(1), b);
    assert_eq!(table.get(&U256::from_u64(1)), Some(b));
    table.remove(&U256::from_u64(1));
    assert_eq!(table.get(&U256::from_u64(1)), None);
    assert_eq!(table.get(&U256::from_u64(2)), Some(b));
    table.remove(&U256::from_u64(9));
    assert_eq!(table.get(&U256::from_u64(2)), Some(b));
}

#[test]
fn counters_start_at_zero() {
    let mut counters = Counters::new();
    let a = Address::new([1u8; 20]);
    let b = Address::new([2u8; 20]);
    assert_eq!(counters.get(a), U256::from_u64(0));
    counters.set(a, U256::from_u64(3));
    assert_eq!(counters.get(a), U256::from_u64(3));
    assert_eq!(counters.get(b), U256::from_u64(0));
    counters.set(a, U256::from_u64(4));
    assert_eq!(counters.get(a), U256::from_u64(4));
}
