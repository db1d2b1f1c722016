//! Account identities of the host ledger, held as their 32 raw bytes.

use vstd::prelude::*;

verus! {

/// A ledger identity: a participant, an authority or a vault address.
#[derive(Clone, Copy, Debug, PartialEq, Eq)]
pub struct Identity {
    pub bytes: [u8; 32],
}

impl Identity {
    /// The identity with the given raw bytes.
    pub fn new(bytes: [u8; 32]) -> (r: Identity)
        ensures
            r.bytes == bytes,
    {
        Identity { bytes }
    }

    /// The all-zero identity, which a fresh ledger account holds before it
    /// is written.
    pub fn zeroed() -> (r: Identity)
        ensures
            forall|i: int| 0 <= i < 32 ==> r.bytes[i] == 0u8,
    {
        Identity { bytes: [0u8; 32] }
    }

    /// Whether two identities are the same, byte for byte.
    pub fn same(&self, other: &Identity) -> (r: bool)
        ensures
            r == (*self == *other),
    {
        let mut i: usize = 0;
        while i < 32
            invariant
                0 <= i <= 32,
                forall|j: int| 0 <= j < i ==> self.bytes[j] == other.bytes[j],
            decreases 32 - i,
        {
            if self.bytes[i] != other.bytes[i] {
                return false;
            }
            i = i + 1;
        }
        proof {
            assert(self.bytes =~= other.bytes);
        }
        true
    }
}

} // verus!
