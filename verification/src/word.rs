//! Words: pairs of trytes, used for addresses and two-tryte operands.

use vstd::prelude::*;
use crate::tryte::{lemma_of_int_in_range, lemma_tryte_value_range, Tryte};

verus! {

/// Twelve trits: a high and a low tryte.
#[derive(Clone, Copy, Debug, PartialEq, Eq, Structural)]
pub struct Word {
    pub hi: Tryte,
    pub lo: Tryte,
}

impl Word {
    /// The number that the word stands for, between -265720 and 265720.
    pub open spec fn value(self) -> int {
        729 * self.hi.value() + self.lo.value()
    }

    /// The word that a conversion from the number `n` gives: `n` split into
    /// a high and a low part by 729, the low part between -364 and 364, and
    /// each part converted to a tryte. It stands for `n` where `n` lies
    /// between -265720 and 265720.
    pub open spec fn of_int(n: int) -> Word {
        Word { hi: Tryte::of_int((n + 364) / 729), lo: Tryte::of_int((n + 364) % 729 - 364) }
    }

    /// A word from its high and its low tryte.
    pub fn from_trytes(hi: Tryte, lo: Tryte) -> (word: Word)
        ensures
            word == (Word { hi, lo }),
    {
        Word { hi, lo }
    }

    /// The high tryte.
    pub fn hi_tryte(&self) -> (tryte: &Tryte)
        ensures
            *tryte == self.hi,
    {
        &self.hi
    }

    /// The low tryte.
    pub fn lo_tryte(&self) -> (tryte: &Tryte)
        ensures
            *tryte == self.lo,
    {
        &self.lo
    }

    /// Calls `bct::Word::from` on an `i32`. It splits the number into a
    /// quotient and a remainder by 729, moves the remainder into the range
    /// from -364 to 364, and converts both as `bct::Tryte::from` does. The
    /// bounds are those of the numbers that a word stands for.
    #[verifier::external_body]
    pub(crate) fn from_integer(n: i32) -> (word: Word)
        requires
            -265720 <= n <= 265720,
        ensures
            word == Word::of_int(n as int),
    {
        let word = bct::Word::from(n);
        let (hi, lo) = (word.hi_tryte(), word.lo_tryte());
        Word {
            hi: Tryte { hi: hi.hi_bct(), lo: hi.lo_bct() },
            lo: Tryte { hi: lo.hi_bct(), lo: lo.lo_bct() },
        }
    }

    /// Calls the conversion of a `bct::Word` into an `i32`, which returns 729
    /// times the value of the high tryte plus the value of the low one.
    #[verifier::external_body]
    pub(crate) fn to_integer(&self) -> (value: i32)
        ensures
            value == self.value(),
    {
        let hi = bct::Tryte::from_bct_trybbles(self.hi.hi, self.hi.lo);
        let lo = bct::Tryte::from_bct_trybbles(self.lo.hi, self.lo.lo);
        bct::Word::from_trytes(hi, lo).into()
    }
}

/// Every word stands for a number between -265720 and 265720.
pub proof fn lemma_word_value_range(word: Word)
    ensures
        -265720 <= word.value() <= 265720,
{
    lemma_tryte_value_range(word.hi);
    lemma_tryte_value_range(word.lo);
}

/// A number between -265720 and 265720 becomes a word that stands for it.
pub proof fn lemma_word_of_int_in_range(n: int)
    requires
        -265720 <= n <= 265720,
    ensures
        Word::of_int(n).value() == n,
{
    lemma_of_int_in_range((n + 364) / 729);
    lemma_of_int_in_range((n + 364) % 729 - 364);
}

} // verus!
