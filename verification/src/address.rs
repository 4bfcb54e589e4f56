//! Account addresses.

use vstd::prelude::*;

verus! {

/// The address of an account: 32 bytes.
#[derive(Clone, Copy, Debug)]
pub struct Address {
    pub bytes: [u8; 32],
}

impl Address {
    /// The address as a sequence of bytes, the form in which it enters a
    /// derivation.
    pub open spec fn seed(self) -> Seq<u8> {
        self.bytes@
    }

    /// The address with the given bytes.
    pub fn new(bytes: [u8; 32]) -> (address: Address)
        ensures
            address.bytes == bytes,
    {
        Address { bytes }
    }

    /// The bytes of the address.
    pub fn to_bytes(&self) -> (bytes: [u8; 32])
        ensures
            bytes == self.bytes,
    {
        self.bytes
    }

    /// The bytes of the address as a seed of a derivation.
    pub fn to_seed(&self) -> (seed: Vec<u8>)
        ensures
            seed@ == self.seed(),
    {
        vstd::slice::slice_to_vec(self.bytes.as_slice())
    }

    /// Two addresses with the same bytes are the same address.
    pub proof fn lemma_seed_injective(a: Address, b: Address)
        ensures
            a.seed() == b.seed() <==> a == b,
    {
        if a.seed() == b.seed() {
            assert(a.bytes =~= b.bytes);
        }
    }
}

impl PartialEq for Address {
    fn eq(&self, other: &Address) -> (equal: bool) {
        let mut i: usize = 0;
        while i < 32
            invariant
                i <= 32,
                forall|j: int| 0 <= j < i ==> self.bytes[j] == other.bytes[j],
            decreases 32 - i,
        {
            if self.bytes[i] != other.bytes[i] {
                return false;
            }
            i += 1;
        }
        assert(self.bytes =~= other.bytes);
        true
    }
}

impl Eq for Address {

}

impl vstd::std_specs::cmp::PartialEqSpecImpl for Address {
    open spec fn obeys_eq_spec() -> bool {
        true
    }

    open spec fn eq_spec(&self, other: &Address) -> bool {
        *self == *other
    }
}

} // verus!
