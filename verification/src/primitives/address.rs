//! Twenty-byte account addresses.

use vstd::prelude::*;
use vstd::std_specs::cmp::PartialEqSpecImpl;

verus! {

/// Length in bytes of an account address.
pub const ADDRESS_BYTES: usize = 20;

/// An account address: twenty bytes, of which the ledger reads nothing but
/// whether two addresses are the same.
#[derive(Clone, Copy, Debug, Eq)]
pub struct Address {
    pub bytes: [u8; 20],
}

impl Address {
    /// The address whose bytes are all zero. It stands for nobody: newly
    /// created tokens are reported as coming from it.
    pub closed spec fn spec_zero() -> Address {
        Address { bytes: vstd::array::spec_array_fill_for_copy_type::<u8, 20>(0u8) }
    }

    /// Every byte of the zero address is zero, and it is the only such
    /// address.
    pub proof fn lemma_zero_bytes(other: Address)
        ensures
            forall|i: int| 0 <= i < ADDRESS_BYTES ==> Address::spec_zero().bytes[i] == 0,
            (forall|i: int| 0 <= i < ADDRESS_BYTES ==> other.bytes[i] == 0) ==> other
                == Address::spec_zero(),
    {
        if forall|i: int| 0 <= i < ADDRESS_BYTES ==> other.bytes[i] == 0 {
            assert(other.bytes =~= Address::spec_zero().bytes);
        }
    }

    /// The address whose bytes are all zero.
    #[verifier::when_used_as_spec(spec_zero)]
    pub fn zero() -> (zero: Address)
        ensures
            zero == Address::spec_zero(),
    {
        Address { bytes: [0u8; 20] }
    }
}

impl PartialEq for Address {
    /// Whether all twenty bytes agree.
    fn eq(&self, other: &Address) -> (same: bool) {
        let mut i: usize = 0;
        while i < ADDRESS_BYTES
            invariant
                i <= ADDRESS_BYTES,
                forall|j: int| 0 <= j < i ==> self.bytes[j] == other.bytes[j],
            decreases ADDRESS_BYTES - i,
        {
            if self.bytes[i] != other.bytes[i] {
                return false;
            }
            i += 1;
        }
        assert(self.bytes =~= other.bytes);
        true
    }
}

impl PartialEqSpecImpl for Address {
    open spec fn obeys_eq_spec() -> bool {
        true
    }

    open spec fn eq_spec(&self, other: &Address) -> bool {
        *self == *other
    }
}

} // verus!
