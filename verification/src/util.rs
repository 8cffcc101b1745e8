//! Splitting a word into its two halves.

use vstd::prelude::*;

verus! {

/// A value that splits into a low and a high half.
pub trait LoHi {
    type Output;

    /// The low half, as a number.
    spec fn spec_lo(&self) -> Self::Output;

    /// The high half, as a number.
    spec fn spec_hi(&self) -> Self::Output;

    fn lo(&self) -> (half: Self::Output)
        ensures
            half == self.spec_lo(),
    ;

    fn hi(&self) -> (half: Self::Output)
        ensures
            half == self.spec_hi(),
    ;
}

impl LoHi for u16 {
    type Output = u8;

    open spec fn spec_lo(&self) -> u8 {
        (*self % 256) as u8
    }

    open spec fn spec_hi(&self) -> u8 {
        (*self / 256) as u8
    }

    fn lo(&self) -> (half: u8) {
        (*self % 256) as u8
    }

    fn hi(&self) -> (half: u8) {
        (*self / 256) as u8
    }
}

/// The two halves of a word put together give the word back.
pub proof fn lemma_lo_hi_rejoin(word: u16)
    ensures
        word.spec_hi() * 256 + word.spec_lo() == word,
{
}

} // verus!
