//! Account identities.

use vstd::prelude::*;

verus! {

/// The identity of an account: 32 bytes.
#[derive(Clone, Copy, Debug, Eq)]
pub struct Pubkey {
    bytes: [u8; 32],
}

impl View for Pubkey {
    type V = Seq<u8>;

    closed spec fn view(&self) -> Seq<u8> {
        self.bytes@
    }
}

impl PartialEq for Pubkey {
    /// Identities are equal when all their bytes are.
    fn eq(&self, other: &Pubkey) -> (r: bool) {
        let mut i: usize = 0;
        while i < 32
            invariant
                0 <= i <= 32,
                forall|j: int| 0 <= j < i ==> self.bytes@[j] == other.bytes@[j],
            decreases 32 - i,
        {
            if self.bytes[i] != other.bytes[i] {
                return false;
            }
            i += 1;
        }
        assert(self.bytes =~= other.bytes);
        true
    }
}

impl vstd::std_specs::cmp::PartialEqSpecImpl for Pubkey {
    open spec fn obeys_eq_spec() -> bool {
        true
    }

    open spec fn eq_spec(&self, other: &Pubkey) -> bool {
        *self == *other
    }
}

/// The bytes of `anchor_lang::prelude::Pubkey::default()`, which is derived
/// for a tuple struct over `[u8; 32]`: the contract claims that all 32 bytes
/// are zero.
#[verifier::external_body]
fn default_key_bytes() -> (bytes: [u8; 32])
    ensures
        forall|i: int| 0 <= i < 32 ==> bytes@[i] == 0u8,
{
    anchor_lang::prelude::Pubkey::default().to_bytes()
}

impl Default for Pubkey {
    /// The null identity.
    fn default() -> (key: Pubkey)
        ensures
            key.is_zero(),
    {
        let key = Pubkey { bytes: default_key_bytes() };
        assert(key@ =~= Pubkey::zero());
        key
    }
}

impl Pubkey {
    /// The bytes of the null identity: 32 zeros.
    pub open spec fn zero() -> Seq<u8> {
        Seq::new(32, |i: int| 0u8)
    }

    /// Whether this is the null identity.
    pub open spec fn is_zero(&self) -> bool {
        self@ == Self::zero()
    }

    /// An identity has 32 bytes, and identities with the same bytes are the
    /// same identity.
    pub proof fn lemma_view(a: Pubkey, b: Pubkey)
        ensures
            a@.len() == 32,
            a@ == b@ <==> a == b,
    {
        assert(a@ == b@ ==> a.bytes =~= b.bytes);
    }

    /// The identity with the given bytes.
    pub fn new_from_array(bytes: [u8; 32]) -> (key: Pubkey)
        ensures
            key@ == bytes@,
    {
        Pubkey { bytes }
    }

    /// The bytes of this identity.
    pub fn to_bytes(&self) -> (bytes: [u8; 32])
        ensures
            bytes@ == self@,
    {
        self.bytes
    }
}

} // verus!
