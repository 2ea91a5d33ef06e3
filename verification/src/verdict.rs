//! The three-valued per-letter verdict and its strength order.

use vstd::prelude::*;

verus! {

/// Outcome for one letter of a guess: the letter is absent from the
/// secret, present but misplaced, or in the correct position.
///
/// Verdicts are totally ordered by strength: `Absent < Present < Correct`.
#[derive(Clone, Copy, Debug, PartialEq, Eq, Structural)]
pub enum LetterPosition {
    Absent,
    Present,
    Correct,
}

impl LetterPosition {
    /// Position of this verdict in the strength order
    /// (`Absent` is 0, `Present` is 1, `Correct` is 2).
    pub open spec fn strength(self) -> int {
        match self {
            LetterPosition::Absent => 0,
            LetterPosition::Present => 1,
            LetterPosition::Correct => 2,
        }
    }

    /// The square used for this verdict in the shareable result grid.
    pub fn emoji(self) -> (c: char)
        ensures
            self == LetterPosition::Absent ==> c == '\u{2B1C}',
            self == LetterPosition::Present ==> c == '\u{1F7E8}',
            self == LetterPosition::Correct ==> c == '\u{1F7E9}',
    {
        match self {
            LetterPosition::Absent => '\u{2B1C}',
            LetterPosition::Present => '\u{1F7E8}',
            LetterPosition::Correct => '\u{1F7E9}',
        }
    }
}

} // verus!
