//! Unsigned 256-bit integers, held as four 64-bit limbs.
//!
//! The arithmetic is done by `alloy_primitives::U256`; this module states
//! what that arithmetic returns over the mathematical value of the limbs.

use crate::table::Key;
use vstd::prelude::*;

verus! {

/// Two to the power 256: one more than the largest value.
pub open spec fn modulus() -> nat {
    0x1_0000_0000_0000_0000_0000_0000_0000_0000_0000_0000_0000_0000_0000_0000_0000_0000nat
}

/// The number that four limbs stand for, least significant limb first.
pub open spec fn limbs_value(limbs: [u64; 4]) -> nat {
    (limbs[0] as nat) + 0x1_0000_0000_0000_0000nat * (limbs[1] as nat)
        + 0x1_0000_0000_0000_0000_0000_0000_0000_0000nat * (limbs[2] as nat)
        + 0x1_0000_0000_0000_0000_0000_0000_0000_0000_0000_0000_0000_0000nat * (limbs[3] as nat)
}

/// Every four limbs stand for a number below two to the power 256.
pub proof fn lemma_limbs_value_bound(limbs: [u64; 4])
    ensures
        limbs_value(limbs) < modulus(),
{
}

/// Different limbs stand for different numbers.
pub proof fn lemma_limbs_value_injective(a: [u64; 4], b: [u64; 4])
    requires
        limbs_value(a) == limbs_value(b),
    ensures
        a == b,
{
    assert(a[3] == b[3]);
    assert(a[2] == b[2]);
    assert(a[1] == b[1]);
    assert(a[0] == b[0]);
    assert(a@ =~= b@);
}

/// An unsigned 256-bit integer. Its view is the number it stands for.
#[derive(Clone, Copy, Debug, PartialEq, Eq, Hash)]
pub struct U256 {
    pub limbs: [u64; 4],
}

impl View for U256 {
    type V = nat;

    open spec fn view(&self) -> nat {
        limbs_value(self.limbs)
    }
}

impl U256 {
    /// The largest value: two to the power 256, less one.
    pub open spec fn max_value() -> nat {
        (modulus() - 1) as nat
    }

    /// The integer with the given limbs, least significant first.
    pub fn from_limbs(limbs: [u64; 4]) -> (r: U256)
        ensures
            r.limbs == limbs,
    {
        U256 { limbs }
    }

    /// The limbs of the integer, least significant first.
    pub fn into_limbs(self) -> (r: [u64; 4])
        ensures
            r == self.limbs,
    {
        self.limbs
    }

    /// The integer equal to `x`.
    pub fn from_u64(x: u64) -> (r: U256)
        ensures
            r@ == x,
    {
        U256 { limbs: [x, 0, 0, 0] }
    }

    /// Whether the integer is zero.
    pub fn is_zero(&self) -> (r: bool)
        ensures
            r == (self@ == 0),
    {
        self.limbs[0] == 0 && self.limbs[1] == 0 && self.limbs[2] == 0 && self.limbs[3] == 0
    }

    /// Whether the integer is less than `other`.
    pub fn lt(&self, other: &U256) -> (r: bool)
        ensures
            r == (self@ < other@),
    {
        limbs_lt(self.limbs, other.limbs)
    }

    /// The sum of the two integers, reduced modulo two to the power 256.
    pub fn wrapping_add(self, rhs: U256) -> (r: U256)
        ensures
            r@ == (self@ + rhs@) % modulus(),
            self@ + rhs@ < modulus() ==> r@ == self@ + rhs@,
            self@ + rhs@ >= modulus() ==> r@ == self@ + rhs@ - modulus(),
    {
        proof {
            lemma_limbs_value_bound(self.limbs);
            lemma_limbs_value_bound(rhs.limbs);
        }
        U256 { limbs: limbs_wrapping_add(self.limbs, rhs.limbs) }
    }

    /// The difference of the two integers, reduced modulo two to the power 256.
    pub fn wrapping_sub(self, rhs: U256) -> (r: U256)
        ensures
            r@ == (self@ - rhs@) % (modulus() as int),
            rhs@ <= self@ ==> r@ == self@ - rhs@,
            rhs@ > self@ ==> r@ == self@ - rhs@ + modulus(),
    {
        proof {
            lemma_limbs_value_bound(self.limbs);
            lemma_limbs_value_bound(rhs.limbs);
        }
        U256 { limbs: limbs_wrapping_sub(self.limbs, rhs.limbs) }
    }
}

impl Key for U256 {
    fn same(&self, other: &U256) -> (r: bool) {
        let r = self.limbs[0] == other.limbs[0] && self.limbs[1] == other.limbs[1]
            && self.limbs[2] == other.limbs[2] && self.limbs[3] == other.limbs[3];
        proof {
            if r {
                assert(self.limbs@ =~= other.limbs@);
            }
            if self@ == other@ {
                lemma_limbs_value_injective(self.limbs, other.limbs);
            }
        }
        r
    }
}

/// Adds with `alloy_primitives::U256::wrapping_add`, which returns the sum
/// reduced modulo two to the power 256. The limbs go in and come out through
/// `from_limbs` and `into_limbs`, least significant limb first.
#[verifier::external_body]
fn limbs_wrapping_add(a: [u64; 4], b: [u64; 4]) -> (r: [u64; 4])
    ensures
        limbs_value(r) == (limbs_value(a) + limbs_value(b)) % modulus(),
{
    let x = alloy_primitives::U256::from_limbs(a);
    let y = alloy_primitives::U256::from_limbs(b);
    x.wrapping_add(y).into_limbs()
}

/// Subtracts with `alloy_primitives::U256::wrapping_sub`, which returns the
/// difference reduced modulo two to the power 256: where `b` is the larger,
/// two to the power 256 is added to the difference.
#[verifier::external_body]
fn limbs_wrapping_sub(a: [u64; 4], b: [u64; 4]) -> (r: [u64; 4])
    ensures
        limbs_value(r) == (limbs_value(a) - limbs_value(b)) % (modulus() as int),
{
    let x = alloy_primitives::U256::from_limbs(a);
    let y = alloy_primitives::U256::from_limbs(b);
    x.wrapping_sub(y).into_limbs()
}

/// Compares with the `<` of `alloy_primitives::U256`, which orders the
/// integers by the numbers they stand for.
#[verifier::external_body]
fn limbs_lt(a: [u64; 4], b: [u64; 4]) -> (r: bool)
    ensures
        r == (limbs_value(a) < limbs_value(b)),
{
    alloy_primitives::U256::from_limbs(a) < alloy_primitives::U256::from_limbs(b)
}

} // verus!
