//! Twenty-byte account addresses, with the all-zero address as the empty sentinel.
use vstd::prelude::*;

verus! {

/// An account or contract address.
#[derive(Clone, Copy, Debug)]
pub struct Address {
    pub bytes: [u8; 20],
}

/// The empty address: twenty zero bytes.
pub open spec fn zero_address() -> Address {
    Address { bytes: vstd::array::spec_array_fill_for_copy_type::<u8, 20>(0u8) }
}

impl Address {
    pub fn zero() -> (r: Address)
        ensures
            r == zero_address(),
    {
        Address { bytes: [0u8; 20] }
    }

    pub fn from_bytes(bytes: [u8; 20]) -> (r: Address)
        ensures
            r.bytes == bytes,
    {
        Address { bytes }
    }

    /// Whether this is the empty address.
    pub fn is_zero(&self) -> (r: bool)
        ensures
            r == (*self == zero_address()),
    {
        let mut i: usize = 0;
        while i < 20
            invariant
                i <= 20,
                forall|j: int| 0 <= j < i ==> self.bytes[j] == 0u8,
            decreases 20 - i,
        {
            if self.bytes[i] != 0 {
                assert(self.bytes[i as int] != zero_address().bytes[i as int]);
                return false;
            }
            i = i + 1;
        }
        assert(self.bytes =~= zero_address().bytes);
        true
    }
}

impl PartialEq for Address {
    fn eq(&self, other: &Address) -> (r: bool) {
        let mut i: usize = 0;
        while i < 20
            invariant
                i <= 20,
                forall|j: int| 0 <= j < i ==> self.bytes[j] == other.bytes[j],
            decreases 20 - i,
        {
            if self.bytes[i] != other.bytes[i] {
                return false;
            }
            i = i + 1;
        }
        assert(self.bytes =~= other.bytes);
        true
    }
}

impl vstd::std_specs::cmp::PartialEqSpecImpl for Address {
    open spec fn obeys_eq_spec() -> bool {
        true
    }

    open spec fn eq_spec(&self, other: &Address) -> bool {
        *self == *other
    }
}

impl Eq for Address {
}

} // verus!
