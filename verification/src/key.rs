//! 32-byte account addresses.
use vstd::prelude::*;

verus! {

/// A 32-byte account address (public key).
#[derive(Clone, Copy, PartialEq, Eq, Debug)]
pub struct Pubkey(pub [u8; 32]);

impl Pubkey {
    /// Whether every byte of the address is zero (the default key, which is
    /// also the system program's id).
    pub open spec fn is_zero(self) -> bool {
        forall|i: int| 0 <= i < 32 ==> self.0[i] == 0
    }

    /// The all-zero address.
    pub fn default_key() -> (k: Pubkey)
        ensures
            k.is_zero(),
    {
        Pubkey([0u8; 32])
    }

    /// Whether this is the all-zero address.
    pub fn is_default(&self) -> (r: bool)
        ensures
            r == self.is_zero(),
    {
        let mut i: usize = 0;
        while i < 32
            invariant
                i <= 32,
                forall|j: int| 0 <= j < i ==> self.0[j] == 0,
            decreases 32 - i,
        {
            if self.0[i] != 0 {
                return false;
            }
            i = i + 1;
        }
        true
    }

    /// Byte-wise comparison of two addresses.
    pub fn same(&self, other: &Pubkey) -> (r: bool)
        ensures
            r == (*self == *other),
    {
        let mut i: usize = 0;
        while i < 32
            invariant
                i <= 32,
                forall|j: int| 0 <= j < i ==> self.0[j] == other.0[j],
            decreases 32 - i,
        {
            if self.0[i] != other.0[i] {
                return false;
            }
            i = i + 1;
        }
        assert(self.0 =~= other.0);
        true
    }
}

} // verus!
