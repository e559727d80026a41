//! Identities of the parties of a campaign: fixed-length byte strings.

use vstd::prelude::*;
use crate::error::LedgerError;

verus! {

/// The number of bytes in an identity.
pub const IDENTITY_LEN: usize = 32;

/// Who calls, contributes or owns: an address of `IDENTITY_LEN` bytes.
/// Its view is the sequence of those bytes, and two identities are the same
/// party exactly when their views are equal.
#[derive(Clone, Copy, Debug, PartialEq, Eq)]
pub struct Identity {
    pub bytes: [u8; 32],
}

impl View for Identity {
    type V = Seq<u8>;

    open spec fn view(&self) -> Seq<u8> {
        self.bytes@
    }
}

impl Identity {
    /// The identity with the given bytes.
    pub fn new(bytes: [u8; 32]) -> (id: Identity)
        ensures
            id@ == bytes@,
            id@.len() == IDENTITY_LEN,
    {
        Identity { bytes }
    }

    /// Reads an identity from raw bytes. Anything but `IDENTITY_LEN` bytes is
    /// malformed.
    pub fn from_bytes(raw: &[u8]) -> (r: Result<Identity, LedgerError>)
        ensures
            raw@.len() == IDENTITY_LEN ==> r is Ok && r->Ok_0@ == raw@,
            raw@.len() != IDENTITY_LEN ==> r == Err::<Identity, LedgerError>(
                LedgerError::InvalidInput,
            ),
    {
        if raw.len() != IDENTITY_LEN {
            return Err(LedgerError::InvalidInput);
        }
        let mut bytes = [0u8; 32];
        let mut i: usize = 0;
        while i < IDENTITY_LEN
            invariant
                i <= IDENTITY_LEN,
                raw@.len() == IDENTITY_LEN,
                forall|j: int| 0 <= j < i ==> bytes@[j] == raw@[j],
            decreases IDENTITY_LEN - i,
        {
            bytes[i] = raw[i];
            i += 1;
        }
        assert(bytes@ =~= raw@);
        Ok(Identity { bytes })
    }

    /// The bytes of this identity.
    pub fn to_bytes(&self) -> (bytes: [u8; 32])
        ensures
            bytes@ == self@,
    {
        self.bytes
    }

    /// Whether `self` and `other` are the same party.
    pub fn same(&self, other: &Identity) -> (r: bool)
        ensures
            r == (self@ == other@),
    {
        let mut i: usize = 0;
        while i < IDENTITY_LEN
            invariant
                i <= IDENTITY_LEN,
                forall|j: int| 0 <= j < i ==> self.bytes@[j] == other.bytes@[j],
            decreases IDENTITY_LEN - i,
        {
            if self.bytes[i] != other.bytes[i] {
                return false;
            }
            i += 1;
        }
        assert(self.bytes@ =~= other.bytes@);
        true
    }
}

} // verus!
