//! What travels on the propagation queue.

use vstd::prelude::*;
use crate::hash::TxHash;

verus! {

/// One entry of the propagation queue: either a hash whose ancestry may
/// have changed, or the signal to stop. The two are distinct variants, so
/// "no more work" can never be mistaken for a hash.
#[derive(Clone, Copy, Debug, PartialEq, Eq)]
pub enum Request {
    /// Propagate solidity forward from this hash.
    Work(TxHash),
    /// Stop consuming requests.
    Stop,
}

} // verus!
