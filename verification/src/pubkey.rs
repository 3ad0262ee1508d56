//! Identities of sellers, bidders, auctions and assets.

use vstd::prelude::*;
use vstd::std_specs::cmp::PartialEqSpecImpl;

verus! {

/// A 32-byte public identity. The all-zero key is the sentinel that stands
/// for "no identity".
#[derive(Clone, Copy, Debug, Eq, Hash)]
pub struct Pubkey {
    pub bytes: [u8; 32],
}

impl PartialEq for Pubkey {
    /// Two keys are equal when all their bytes are.
    fn eq(&self, other: &Self) -> (r: bool) {
        let mut i: usize = 0;
        while i < 32
            invariant
                i <= 32,
                forall|j: int| 0 <= j < i ==> self.bytes[j] == other.bytes[j],
            decreases 32 - i,
        {
            if self.bytes[i] != other.bytes[i] {
                return false;
            }
            i += 1;
        }
        assert(self.bytes =~= other.bytes);
        true
    }
}

impl PartialEqSpecImpl for Pubkey {
    open spec fn obeys_eq_spec() -> bool {
        true
    }

    open spec fn eq_spec(&self, other: &Self) -> bool {
        *self == *other
    }
}

impl Pubkey {
    /// The sentinel key: thirty-two zero bytes.
    pub open spec fn sentinel() -> Pubkey {
        Pubkey { bytes: vstd::array::spec_array_fill_for_copy_type::<u8, 32>(0u8) }
    }

    /// Whether this key is the sentinel.
    pub open spec fn is_sentinel(self) -> bool {
        self == Pubkey::sentinel()
    }

    /// Whether this key is the sentinel.
    pub fn is_default(&self) -> (sentinel: bool)
        ensures
            sentinel == self.is_sentinel(),
    {
        *self == Pubkey::default()
    }

    /// The key made of the given bytes.
    pub fn new_from_array(bytes: [u8; 32]) -> (key: Pubkey)
        ensures
            key.bytes == bytes,
    {
        Pubkey { bytes }
    }

    /// The bytes of the key.
    pub fn to_bytes(&self) -> (bytes: [u8; 32])
        ensures
            bytes == self.bytes,
    {
        self.bytes
    }
}

impl Default for Pubkey {
    /// The default key is the sentinel.
    fn default() -> (key: Pubkey)
        ensures
            key == Pubkey::sentinel(),
    {
        let key = Pubkey { bytes: [0u8; 32] };
        assert(key.bytes =~= Pubkey::sentinel().bytes);
        key
    }
}

/// A key is the sentinel exactly when every one of its bytes is zero.
pub proof fn lemma_sentinel_is_all_zero(key: Pubkey)
    ensures
        key.is_sentinel() <==> (forall|i: int| 0 <= i < 32 ==> key.bytes[i] == 0),
{
    if forall|i: int| 0 <= i < 32 ==> key.bytes[i] == 0 {
        assert(key.bytes =~= Pubkey::sentinel().bytes);
    }
}

} // verus!
