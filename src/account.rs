use vstd::prelude::*;

verus! {

/// An opaque account identifier supplied by the environment: it can be copied
/// and compared, and nothing else is assumed of its structure.
pub trait AccountId: Copy + Sized {
    /// Whether two identifiers name the same account.
    fn same(&self, other: &Self) -> (r: bool)
        ensures
            r == (*self == *other),
    ;
}

impl AccountId for u64 {
    fn same(&self, other: &u64) -> (r: bool) {
        *self == *other
    }
}

/// The 32-byte identifiers of substrate-style chains.
impl AccountId for [u8; 32] {
    fn same(&self, other: &[u8; 32]) -> (r: bool) {
        let mut i: usize = 0;
        while i < 32
            invariant
                i <= 32,
                forall|j: int| 0 <= j < i ==> self[j] == other[j],
            decreases 32 - i,
        {
            if self[i] != other[i] {
                return false;
            }
            i = i + 1;
        }
        assert(*self =~= *other);
        true
    }
}

impl AccountId for u32 {
    fn same(&self, other: &u32) -> (r: bool) {
        *self == *other
    }
}

} // verus!
