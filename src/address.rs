//! Account identities: 32-byte public keys and the signer flag the host
//! attaches to an account supplied with a request.
use vstd::prelude::*;

verus! {

/// A 32-byte account identity.
#[derive(Clone, Copy, Debug, PartialEq, Eq)]
pub struct Address {
    pub bytes: [u8; 32],
}

impl Address {
    /// The identity with the given key bytes.
    pub fn new(bytes: [u8; 32]) -> (r: Address)
        ensures
            r.bytes == bytes,
    {
        Address { bytes }
    }

    /// Whether every byte of the key is zero.
    pub open spec fn is_zero(&self) -> bool {
        forall|i: int| 0 <= i < 32 ==> self.bytes[i] == 0
    }

    /// The all-zero identity, the value of an identity field never set.
    pub open spec fn spec_zero() -> Address {
        choose|a: Address| a.is_zero()
    }

    /// The all-zero identity.
    pub fn zero() -> (r: Address)
        ensures
            r.is_zero(),
            r == Address::spec_zero(),
    {
        let r = Address { bytes: [0u8; 32] };
        assert(r.is_zero());
        proof {
            let z = Address::spec_zero();
            assert(z.bytes =~= r.bytes);
        }
        r
    }

    /// Whether two identities are the same key.
    pub fn same(&self, other: &Address) -> (r: bool)
        ensures
            r == (*self == *other),
    {
        let mut i: usize = 0;
        while i < 32
            invariant
                0 <= i <= 32,
                forall|j: int| 0 <= j < i ==> self.bytes[j] == other.bytes[j],
            decreases 32 - i,
        {
            if self.bytes[i] != other.bytes[i] {
                return false;
            }
            i = i + 1;
        }
        assert(self.bytes =~= other.bytes);
        true
    }
}

/// An account supplied with a request: its key, and whether the host found
/// its signature on the request.
#[derive(Clone, Copy, Debug, PartialEq, Eq)]
pub struct AccountKey {
    pub key: Address,
    pub is_signer: bool,
}

} // verus!
