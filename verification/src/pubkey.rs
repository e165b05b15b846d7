//! Identities: of principals, of asset kinds and of holdings.

use vstd::prelude::*;
use vstd::std_specs::cmp::PartialEqSpecImpl;

verus! {

/// The number of bytes in a `Pubkey`.
pub const PUBKEY_BYTES: usize = 32;

/// An identity, told apart from every other by its bytes.
#[derive(Clone, Copy, Debug, Eq)]
pub struct Pubkey {
    /// The bytes that make the identity.
    pub bytes: [u8; PUBKEY_BYTES],
}

impl View for Pubkey {
    type V = Seq<u8>;

    /// The bytes of the identity, in order.
    open spec fn view(&self) -> Seq<u8> {
        self.bytes@
    }
}

impl Pubkey {
    /// The identity made of `bytes`.
    pub fn new_from_array(bytes: [u8; PUBKEY_BYTES]) -> (key: Pubkey)
        ensures
            key.bytes == bytes,
    {
        Pubkey { bytes }
    }

    /// The bytes that the identity is made of.
    pub fn to_bytes(&self) -> (bytes: [u8; PUBKEY_BYTES])
        ensures
            bytes == self.bytes,
    {
        self.bytes
    }

    /// Two identities are one identity exactly where their bytes are the
    /// same, one by one.
    pub proof fn lemma_told_apart_by_bytes(a: Pubkey, b: Pubkey)
        ensures
            a == b <==> a@ == b@,
            a == b <==> forall|i: int| 0 <= i < PUBKEY_BYTES ==> a.bytes[i] == b.bytes[i],
    {
        if forall|i: int| 0 <= i < PUBKEY_BYTES ==> a.bytes[i] == b.bytes[i] {
            assert(a.bytes =~= b.bytes);
        }
        if a@ == b@ {
            assert forall|i: int| 0 <= i < PUBKEY_BYTES implies a.bytes[i] == b.bytes[i] by {
                assert(a@[i] == b@[i]);
            }
        }
    }
}

impl PartialEq for Pubkey {
    fn eq(&self, other: &Pubkey) -> (same: bool) {
        let mut i: usize = 0;
        while i < PUBKEY_BYTES
            invariant
                i <= PUBKEY_BYTES,
                forall|j: int| 0 <= j < i ==> self.bytes[j] == other.bytes[j],
            decreases PUBKEY_BYTES - i,
        {
            if self.bytes[i] != other.bytes[i] {
                return false;
            }
            i += 1;
        }
        proof {
            assert(self.bytes =~= other.bytes);
        }
        true
    }
}

impl PartialEqSpecImpl for Pubkey {
    open spec fn obeys_eq_spec() -> bool {
        true
    }

    open spec fn eq_spec(&self, other: &Pubkey) -> bool {
        *self == *other
    }
}

} // verus!
