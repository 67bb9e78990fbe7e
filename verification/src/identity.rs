//! Account identities and the two levels of trust they come with.

use vstd::prelude::*;

verus! {

/// A 32-byte ledger address.
#[derive(Clone, Copy, Debug, PartialEq, Eq)]
pub struct Identity {
    pub bytes: [u8; 32],
}

/// An identity taken as given: nobody signed for it.
#[derive(Clone, Copy, Debug, PartialEq, Eq)]
pub struct UnverifiedIdentity {
    pub key: Identity,
}

/// An identity whose signature the ledger has verified for this transaction.
#[derive(Clone, Copy, Debug, PartialEq, Eq)]
pub struct VerifiedSigner {
    pub key: Identity,
}

impl Identity {
    pub fn new(bytes: [u8; 32]) -> (id: Identity)
        ensures
            id.bytes == bytes,
    {
        Identity { bytes }
    }

    /// The raw address bytes.
    pub fn to_bytes(&self) -> (bytes: [u8; 32])
        ensures
            bytes == self.bytes,
    {
        self.bytes
    }

    /// The address bytes as a growable buffer.
    pub fn to_vec(&self) -> (bytes: Vec<u8>)
        ensures
            bytes@ == self.bytes@,
    {
        let mut bytes: Vec<u8> = Vec::new();
        let mut i: usize = 0;
        while i < 32
            invariant
                i <= 32,
                bytes@ == self.bytes@.subrange(0, i as int),
            decreases 32 - i,
        {
            bytes.push(self.bytes[i]);
            i += 1;
            assert(bytes@ =~= self.bytes@.subrange(0, i as int));
        }
        assert(self.bytes@.subrange(0, 32) =~= self.bytes@);
        bytes
    }

    /// Two identities are the same exactly when all their bytes agree.
    pub fn same(&self, other: &Identity) -> (r: bool)
        ensures
            r == (*self == *other),
    {
        let mut i: usize = 0;
        while i < 32
            invariant
                i <= 32,
                forall|j: int| 0 <= j < i ==> self.bytes[j] == other.bytes[j],
            decreases 32 - i,
        {
            if self.bytes[i] != other.bytes[i] {
                return false;
            }
            i += 1;
        }
        assert(self.bytes =~= other.bytes);
        true
    }
}

impl UnverifiedIdentity {
    pub fn new(key: Identity) -> (id: UnverifiedIdentity)
        ensures
            id.key == key,
    {
        UnverifiedIdentity { key }
    }
}

impl VerifiedSigner {
    pub fn new(key: Identity) -> (signer: VerifiedSigner)
        ensures
            signer.key == key,
    {
        VerifiedSigner { key }
    }
}

} // verus!
