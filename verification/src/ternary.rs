//! Trits, and the interface of the buffers that hold them in some encoding.

use vstd::prelude::*;
use std::fmt::Debug;

verus! {

/// A ternary digit of some system: balanced or unbalanced.
pub trait Trit: Copy + Sized + Debug + From<i8> + Into<i8> + PartialEq + ToggleTernary {
    /// The trit that `x` stands for, if it stands for one.
    fn try_from(x: i8) -> Result<Self, ()>;

    /// The next trit, or `None` for the largest.
    fn checked_increment(self) -> Option<Self>;

    /// The trit zero.
    fn zero() -> Self;
}

/// Conversion between the balanced and the unbalanced system.
pub trait ToggleTernary: Sized {
    /// The same digit in the other system.
    type Target;

    /// This trit in the other system.
    fn toggle(self) -> Self::Target;
}

/// A borrowed sequence of trits in some encoding.
pub trait RawEncoding {
    /// The trits of this encoding.
    type Trit: Trit;

    /// An empty sequence of this encoding.
    fn empty() -> &'static Self;

    /// The number of trits in this sequence.
    fn len(&self) -> usize;

    /// The bytes that hold the trits.
    fn as_i8_slice(&self) -> &[i8];

    /// Whether a byte is a valid series of trits in this encoding.
    fn is_valid(repr: &i8) -> bool;
}

/// An owned, growable sequence of trits in some encoding.
pub trait RawEncodingBuf: Sized {
    /// The borrowed form of this buffer.
    type Slice: RawEncoding + ?Sized;

    /// The trits that the buffer holds, first to last. An implementation
    /// says here what its representation stands for.
    open spec fn trits(&self) -> Seq<<Self::Slice as RawEncoding>::Trit> {
        arbitrary()
    }

    /// An empty buffer.
    fn new() -> (buf: Self)
        ensures
            buf.trits() == Seq::<<Self::Slice as RawEncoding>::Trit>::empty(),
    ;

    /// A buffer that holds the given trits, in their order.
    fn from_trits(trits: &[<Self::Slice as RawEncoding>::Trit]) -> (buf: Self)
        ensures
            buf.trits() == trits@,
    {
        let mut this = Self::new();
        let mut i: usize = 0;
        while i < trits.len()
            invariant
                i <= trits.len(),
                this.trits() == trits@.take(i as int),
            decreases trits.len() - i,
        {
            this.push(trits[i]);
            assert(trits@.take(i as int).push(trits@[i as int]) =~= trits@.take(i + 1));
            i += 1;
        }
        assert(trits@.take(trits@.len() as int) =~= trits@);
        this
    }

    /// Adds a trit at the back.
    fn push(&mut self, trit: <Self::Slice as RawEncoding>::Trit)
        ensures
            final(self).trits() == old(self).trits().push(trit),
    ;

    /// Takes the last trit off the back, if there is one.
    fn pop(&mut self) -> (trit: Option<<Self::Slice as RawEncoding>::Trit>)
        ensures
            old(self).trits().len() == 0 ==> trit is None && final(self).trits() == old(self).trits(),
            old(self).trits().len() > 0 ==> trit == Some(old(self).trits().last()) && final(self).trits() == old(
                self,
            ).trits().drop_last(),
    ;

    /// The trits of the buffer as a borrowed sequence.
    fn as_slice(&self) -> &Self::Slice;

    /// The trits of the buffer as a borrowed sequence that can be written to.
    fn as_slice_mut(&mut self) -> &mut Self::Slice;
}

} // verus!
