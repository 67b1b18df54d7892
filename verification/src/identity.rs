//! Identities of accounts, collectibles and record owners.

use vstd::prelude::*;

verus! {

/// A 32-byte identifier of an account holder or of a collectible.
///
/// The identity of 32 zero bytes is the default one.  It names nobody: a
/// record holds it where no party is recorded, and no ledger entry is kept
/// under it.
#[derive(Clone, Copy, Debug, Eq, Hash)]
pub struct Identity {
    pub bytes: [u8; 32],
}

impl Identity {
    /// The identity of 32 zero bytes.
    pub open spec fn spec_default() -> Identity {
        Identity { bytes: vstd::array::spec_array_fill_for_copy_type::<u8, 32>(0u8) }
    }

    /// Whether this is the default identity, the one whose bytes are all zero.
    pub open spec fn is_default(self) -> bool {
        self == Self::spec_default()
    }

    /// An identity is the default one exactly if each of its bytes is zero.
    pub proof fn lemma_default_is_all_zero(self)
        ensures
            self.is_default() <==> forall|i: int| 0 <= i < 32 ==> self.bytes[i] == 0u8,
    {
        broadcast use vstd::array::group_array_axioms;

        let zero = Self::spec_default();
        assert(forall|i: int| 0 <= i < 32 ==> zero.bytes[i] == 0u8);
        if forall|i: int| 0 <= i < 32 ==> self.bytes[i] == 0u8 {
            assert(self.bytes =~= zero.bytes);
        }
    }

    /// Builds an identity from its 32 bytes.
    pub fn new(bytes: [u8; 32]) -> (id: Identity)
        ensures
            id.bytes == bytes,
    {
        Identity { bytes }
    }

    /// The 32 bytes of the identity.
    pub fn to_bytes(&self) -> (bytes: [u8; 32])
        ensures
            bytes == self.bytes,
    {
        self.bytes
    }

    /// Decides whether this is the default identity.
    pub fn is_nobody(&self) -> (r: bool)
        ensures
            r == self.is_default(),
    {
        let zero = Identity::default();
        *self == zero
    }
}

impl Default for Identity {
    fn default() -> (id: Identity)
        ensures
            id == Identity::spec_default(),
    {
        Identity { bytes: [0u8; 32] }
    }
}

impl PartialEq for Identity {
    fn eq(&self, other: &Identity) -> (r: bool) {
        let mut i: usize = 0;
        while i < 32
            invariant
                i <= 32,
                forall|k: int| 0 <= k < i ==> self.bytes[k] == other.bytes[k],
            decreases 32 - i,
        {
            if self.bytes[i] != other.bytes[i] {
                return false;
            }
            i += 1;
        }
        proof {
            assert(self.bytes@ =~= other.bytes@);
            assert(self.bytes == other.bytes);
        }
        true
    }
}

impl vstd::std_specs::cmp::PartialEqSpecImpl for Identity {
    open spec fn obeys_eq_spec() -> bool {
        true
    }

    open spec fn eq_spec(&self, other: &Identity) -> bool {
        *self == *other
    }
}

} // verus!
