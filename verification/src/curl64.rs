//! The state of the Curl hash function with 64 hashes computed side by
//! side: every trit of the state is held as one bit in each of two words.

use vstd::prelude::*;

verus! {

/// Number of trits in the state of Curl.
pub const STATE_LEN: usize = 729;

/// Whether an addition carried over.
pub type WithCarry = bool;

/// The state as a mathematical value: the high and the low word of each
/// position.
pub struct Curl64View {
    pub hi: Seq<u64>,
    pub lo: Seq<u64>,
}

/// The interleaved state: position `i` holds bit `k` of the `k`-th of 64
/// states in `hi[i]` and `lo[i]`.
pub struct Curl64State {
    hi: [u64; STATE_LEN],
    lo: [u64; STATE_LEN],
}

impl View for Curl64State {
    type V = Curl64View;

    closed spec fn view(&self) -> Curl64View {
        Curl64View { hi: self.hi@, lo: self.lo@ }
    }
}

impl Curl64State {
    /// A state with `init_value` in every word.
    pub fn new(init_value: u64) -> (state: Curl64State)
        ensures
            state@.hi == Seq::new(STATE_LEN as nat, |i: int| init_value),
            state@.lo == Seq::new(STATE_LEN as nat, |i: int| init_value),
    {
        let state = Curl64State { hi: [init_value;STATE_LEN], lo: [init_value;STATE_LEN] };
        assert(state@.hi =~= Seq::new(STATE_LEN as nat, |i: int| init_value));
        assert(state@.lo =~= Seq::new(STATE_LEN as nat, |i: int| init_value));
        state
    }

    /// Writes both words of position `index`.
    pub fn set(&mut self, index: usize, hi: u64, lo: u64)
        requires
            index < STATE_LEN,
        ensures
            final(self)@.hi == old(self)@.hi.update(index as int, hi),
            final(self)@.lo == old(self)@.lo.update(index as int, lo),
    {
        self.hi[index] = hi;
        self.lo[index] = lo;
    }

    /// Both words of position `index`, the high one first.
    pub fn get(&self, index: usize) -> (words: (u64, u64))
        requires
            index < STATE_LEN,
        ensures
            words == (self@.hi[index as int], self@.lo[index as int]),
    {
        (self.hi[index], self.lo[index])
    }

    /// Adds one to each of the 64 trits at position `index`: the low word is
    /// moved to the high word and the low word becomes the exclusive or of
    /// the two. The result tells whether any of the 64 trits carried over,
    /// which is the case where its high bit was set and its low bit was not.
    pub fn bit_add(&mut self, index: usize) -> (carry: WithCarry)
        requires
            index < STATE_LEN,
        ensures
            final(self)@.hi == old(self)@.hi.update(index as int, old(self)@.lo[index as int]),
            final(self)@.lo == old(self)@.lo.update(
                index as int,
                old(self)@.hi[index as int] ^ old(self)@.lo[index as int],
            ),
            carry == ((old(self)@.hi[index as int] & !old(self)@.lo[index as int]) != 0),
    {
        let hi = self.hi[index];
        let lo = self.lo[index];

        self.hi[index] = lo;
        self.lo[index] = hi ^ lo;

        (hi & !lo) != 0
    }

    /// A word with a one for each of the 64 trits at position `index` whose
    /// two bits are equal.
    pub fn bit_equal(&self, index: usize) -> (equal: u64)
        requires
            index < STATE_LEN,
        ensures
            equal == !(self@.hi[index as int] ^ self@.lo[index as int]),
    {
        !(self.hi[index] ^ self.lo[index])
    }
}

impl Clone for Curl64State {
    fn clone(&self) -> (copy: Curl64State)
        ensures
            copy@ == self@,
    {
        Curl64State { hi: self.hi, lo: self.lo }
    }
}

} // verus!
