//! The six-digit seven-segment display.
//!
//! The display is multiplexed: the processor addresses one digit position at
//! a time, and the controller retains the last pattern written to each
//! position independently.

use vstd::prelude::*;

verus! {

/// Number of digit positions on the board.
pub const DIGIT_COUNT: usize = 6;

/// The display controller.  Each digit holds the seven-segment bit pattern
/// most recently written to it.
pub struct Display {
    pub digits: Vec<u8>,
}

impl View for Display {
    type V = Seq<u8>;

    open spec fn view(&self) -> Seq<u8> {
        self.digits@
    }
}

impl Display {
    /// The display is well formed when it has exactly one pattern byte per
    /// digit position.
    pub open spec fn wf(&self) -> bool {
        self@.len() == DIGIT_COUNT
    }

    /// A blank display: every segment of every digit is off.
    pub fn new() -> (d: Display)
        ensures
            d.wf(),
            d@ == Seq::new(DIGIT_COUNT as nat, |i: int| 0u8),
    {
        let mut digits: Vec<u8> = Vec::new();
        let mut i: usize = 0;
        while i < DIGIT_COUNT
            invariant
                i <= DIGIT_COUNT,
                digits@.len() == i,
                forall|j: int| 0 <= j < i ==> digits@[j] == 0u8,
            decreases DIGIT_COUNT - i,
        {
            digits.push(0);
            i += 1;
        }
        proof {
            assert(digits@ =~= Seq::new(DIGIT_COUNT as nat, |i: int| 0u8));
        }
        Display { digits }
    }

    /// Store `pattern` at digit position `index`.  No other digit changes.
    pub fn write_digit(&mut self, index: usize, pattern: u8)
        requires
            old(self).wf(),
            index < DIGIT_COUNT,
        ensures
            final(self).wf(),
            final(self)@ == old(self)@.update(index as int, pattern),
    {
        self.digits.set(index, pattern);
    }

    /// The pattern currently shown at digit position `index`.
    pub fn read_digit(&self, index: usize) -> (pattern: u8)
        requires
            self.wf(),
            index < DIGIT_COUNT,
        ensures
            pattern == self@[index as int],
    {
        self.digits[index]
    }
}

/// Writing one digit is read back exactly, and no other position is
/// disturbed: after storing `pattern` at `index`, reading `index` yields
/// `pattern` and every other position still holds its old pattern.
pub proof fn lemma_write_digit_isolated(digits: Seq<u8>, index: int, pattern: u8)
    requires
        digits.len() == DIGIT_COUNT,
        0 <= index < DIGIT_COUNT,
    ensures
        digits.update(index, pattern)[index] == pattern,
        forall|j: int|
            0 <= j < DIGIT_COUNT && j != index ==> digits.update(index, pattern)[j] == digits[j],
{
}

} // verus!
