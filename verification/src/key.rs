//! Account addresses as plain bytes.
use vstd::prelude::*;

verus! {

broadcast use vstd::array::group_array_axioms;

/// The 32-byte address of an on-chain account (a wallet, a mint, a program
/// or a program-derived address).
#[derive(Clone, Copy, Debug, PartialEq, Eq)]
pub struct AccountKey {
    pub bytes: [u8; 32],
}

impl View for AccountKey {
    type V = Seq<u8>;

    open spec fn view(&self) -> Seq<u8> {
        self.bytes@
    }
}

impl AccountKey {
    /// Wraps 32 raw bytes as an address.
    pub fn new(bytes: [u8; 32]) -> (k: AccountKey)
        ensures
            k.bytes == bytes,
            k@ == bytes@,
    {
        AccountKey { bytes }
    }

    /// Two addresses name the same account exactly when all their bytes agree.
    pub fn same_as(&self, other: &AccountKey) -> (r: bool)
        ensures
            r == (*self == *other),
            r == (self@ == other@),
    {
        let mut i: usize = 0;
        while i < 32
            invariant
                0 <= i <= 32,
                forall|j: int| 0 <= j < i ==> self.bytes[j] == other.bytes[j],
            decreases 32 - i,
        {
            if self.bytes[i] != other.bytes[i] {
                assert(self@[i as int] != other@[i as int]);
                return false;
            }
            i = i + 1;
        }
        assert(self.bytes =~= other.bytes);
        assert(self@ =~= other@);
        true
    }
}

} // verus!
