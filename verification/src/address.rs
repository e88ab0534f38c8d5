//! Twenty-byte account addresses.

use crate::table::Key;
use vstd::prelude::*;

verus! {

/// An account address: twenty bytes, compared byte by byte.
#[derive(Clone, Copy, Debug, PartialEq, Eq, Hash)]
pub struct Address {
    pub bytes: [u8; 20],
}

impl View for Address {
    type V = Address;

    open spec fn view(&self) -> Address {
        *self
    }
}

impl Address {
    /// The null address, all of whose bytes are zero. No account has it.
    pub open spec fn zero_spec() -> Address {
        Address { bytes: [0u8, 0, 0, 0, 0, 0, 0, 0, 0, 0, 0, 0, 0, 0, 0, 0, 0, 0, 0, 0] }
    }

    /// Whether this is the null address.
    pub open spec fn is_zero_spec(&self) -> bool {
        *self == Address::zero_spec()
    }

    /// The address made of the given bytes.
    pub fn new(bytes: [u8; 20]) -> (r: Address)
        ensures
            r.bytes == bytes,
    {
        Address { bytes }
    }

    /// The null address.
    pub fn zero() -> (r: Address)
        ensures
            r == Address::zero_spec(),
    {
        let r = Address { bytes: [0u8, 0, 0, 0, 0, 0, 0, 0, 0, 0, 0, 0, 0, 0, 0, 0, 0, 0, 0, 0] };
        proof {
            assert(r.bytes@ =~= Address::zero_spec().bytes@);
            assert(r.bytes == Address::zero_spec().bytes);
        }
        r
    }

    /// The bytes of the address.
    pub fn into_array(self) -> (r: [u8; 20])
        ensures
            r == self.bytes,
    {
        self.bytes
    }

    /// The account that a storage slot names: none where the slot holds the
    /// null address, which is what a slot never written holds.
    pub fn recorded(self) -> (r: Option<Address>)
        ensures
            r == (if self.is_zero_spec() {
                None
            } else {
                Some(self)
            }),
    {
        if self.is_zero() {
            None
        } else {
            Some(self)
        }
    }

    /// Whether this is the null address.
    pub fn is_zero(&self) -> (r: bool)
        ensures
            r == self.is_zero_spec(),
    {
        self.same(&Address::zero())
    }
}

impl Key for Address {
    fn same(&self, other: &Address) -> (r: bool) {
        let mut i: usize = 0;
        while i < 20
            invariant
                i <= 20,
                forall|j: int| 0 <= j < i ==> self.bytes[j] == other.bytes[j],
            decreases 20 - i,
        {
            if self.bytes[i] != other.bytes[i] {
                return false;
            }
            i += 1;
        }
        proof {
            assert(self.bytes@ =~= other.bytes@);
            assert(self.bytes == other.bytes);
        }
        true
    }
}

} // verus!
