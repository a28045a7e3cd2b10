//! Account identities.

use vstd::prelude::*;

verus! {

/// The identity of an account on the ledger: thirty-two opaque bytes.
///
/// Two identities are the same account exactly when all their bytes agree.
#[derive(Clone, Copy, Debug, Eq, Hash)]
pub struct AccountId {
    pub bytes: [u8; 32],
}

impl AccountId {
    /// The identity made of the given bytes.
    pub fn new(bytes: [u8; 32]) -> (id: AccountId)
        ensures
            id == (AccountId { bytes }),
    {
        AccountId { bytes }
    }

    /// The bytes of this identity.
    pub fn to_bytes(&self) -> (bytes: [u8; 32])
        ensures
            bytes == self.bytes,
    {
        self.bytes
    }
}

impl PartialEq for AccountId {
    /// Compares the two identities byte by byte.
    fn eq(&self, other: &AccountId) -> (same: bool) {
        let mut i: usize = 0;
        while i < 32
            invariant
                i <= 32,
                forall|k: int| 0 <= k < i ==> self.bytes[k] == other.bytes[k],
            decreases 32 - i,
        {
            if self.bytes[i] != other.bytes[i] {
                return false;
            }
            i += 1;
        }
        assert(self.bytes =~= other.bytes);
        true
    }
}

impl vstd::std_specs::cmp::PartialEqSpecImpl for AccountId {
    open spec fn obeys_eq_spec() -> bool {
        true
    }

    open spec fn eq_spec(&self, other: &AccountId) -> bool {
        *self == *other
    }
}

} // verus!
