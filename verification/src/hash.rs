//! Transaction hashes: the fixed-width identifiers that key the ledger graph.

use vstd::prelude::*;

verus! {

/// Number of trits in a transaction hash.
pub const HASH_LENGTH: usize = 243;

/// The identifier of a transaction. The graph treats it as an opaque key:
/// two hashes name the same vertex exactly when all their trits agree.
#[derive(Clone, Copy, Debug, Eq)]
pub struct TxHash(pub [i8; HASH_LENGTH]);

impl PartialEq for TxHash {
    fn eq(&self, other: &TxHash) -> (r: bool) {
        let mut i: usize = 0;
        while i < HASH_LENGTH
            invariant
                i <= HASH_LENGTH,
                forall|j: int| 0 <= j < i ==> self.0[j] == other.0[j],
            decreases HASH_LENGTH - i,
        {
            if self.0[i] != other.0[i] {
                return false;
            }
            i += 1;
        }
        assert(self.0 =~= other.0);
        true
    }
}

impl vstd::std_specs::cmp::PartialEqSpecImpl for TxHash {
    open spec fn obeys_eq_spec() -> bool {
        true
    }

    open spec fn eq_spec(&self, other: &TxHash) -> bool {
        *self == *other
    }
}

impl TxHash {
    /// Every trit of the hash is zero.
    pub open spec fn is_zero(self) -> bool {
        forall|i: int| 0 <= i < HASH_LENGTH ==> self.0[i] == 0
    }

    /// The hash whose trits are all zero.
    pub fn zeros() -> (hash: TxHash)
        ensures
            hash.is_zero(),
    {
        TxHash([0i8; HASH_LENGTH])
    }
}

/// Whether `hash` occurs in `list`.
pub fn list_contains(list: &Vec<TxHash>, hash: &TxHash) -> (found: bool)
    ensures
        found == list@.contains(*hash),
{
    let mut i: usize = 0;
    while i < list.len()
        invariant
            i <= list.len(),
            forall|j: int| 0 <= j < i ==> list@[j] != *hash,
        decreases list.len() - i,
    {
        if list[i] == *hash {
            return true;
        }
        i += 1;
    }
    false
}

} // verus!
