//! The input of the proof of work: the trits of one transaction.

use vstd::prelude::*;

verus! {

/// Number of trits in a transaction.
pub const TRANSACTION_TRIT_LEN: usize = 8019;

/// The trits of a transaction, one per element.
pub struct InputTrits(pub [i8; TRANSACTION_TRIT_LEN]);

impl std::ops::Deref for InputTrits {
    type Target = [i8; TRANSACTION_TRIT_LEN];

    fn deref(&self) -> (trits: &[i8; TRANSACTION_TRIT_LEN])
        ensures
            *trits == self.0,
    {
        &self.0
    }
}

} // verus!
