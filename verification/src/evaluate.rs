//! Scoring a guess against the secret word.
//!
//! The evaluation is the classic two-pass scheme: the first pass awards
//! `Correct` to every exact positional match and reserves that occurrence
//! of the letter; the second pass walks the remaining positions left to
//! right and awards `Present` while unreserved occurrences of the letter
//! remain in the secret, `Absent` once they are used up. This is what
//! keeps duplicate letters honest: a letter is never credited more often
//! than it occurs in the secret.

use vstd::prelude::*;

use crate::verdict::LetterPosition;

verus! {

/// One letter of a guess together with its verdict.
#[derive(Clone, Copy, Debug, PartialEq, Eq, Structural)]
pub struct ScoredLetter {
    /// The guessed letter, an uppercase ASCII byte.
    pub letter: u8,
    /// The verdict the evaluation assigned to this position.
    pub verdict: LetterPosition,
}

/// One fully scored guess: its letters in typing order, each with its
/// verdict. A well-formed guess has exactly [`WORD_LENGTH`] letters.
#[derive(Clone, Debug)]
pub struct Guess {
    /// The scored letters, left to right.
    pub letters: Vec<ScoredLetter>,
}

/// Every word in the game is exactly this many letters long.
pub const WORD_LENGTH: usize = 5;

impl View for Guess {
    type V = Seq<ScoredLetter>;

    open spec fn view(&self) -> Seq<ScoredLetter> {
        self.letters@
    }
}

impl Guess {
    /// A guess is well formed when it scores a full five-letter word.
    pub open spec fn wf(self) -> bool {
        self@.len() == WORD_LENGTH
    }

    /// Whether every position of this guess was scored `Correct`.
    pub open spec fn is_all_correct(self) -> bool {
        forall|i: int| 0 <= i < self@.len() ==> self@[i].verdict == LetterPosition::Correct
    }

    /// Read access to the scored letters for rendering.
    pub fn letters(&self) -> (letters: &Vec<ScoredLetter>)
        ensures
            letters@ == self@,
    {
        &self.letters
    }

    /// Whether the whole word was placed correctly, i.e. the guess won.
    pub fn all_correct(&self) -> (r: bool)
        ensures
            r == self.is_all_correct(),
    {
        let mut i: usize = 0;
        while i < self.letters.len()
            invariant
                i <= self@.len(),
                forall|j: int| 0 <= j < i ==> self@[j].verdict == LetterPosition::Correct,
            decreases self@.len() - i,
        {
            if !(self.letters[i].verdict == LetterPosition::Correct) {
                return false;
            }
            i = i + 1;
        }
        true
    }
}

/// Number of occurrences of the letter `c` among the first `n` letters
/// of the word `w`.
pub open spec fn letter_count_before(w: Seq<u8>, c: u8, n: int) -> nat
    decreases n,
{
    if n <= 0 {
        0
    } else {
        letter_count_before(w, c, n - 1) + (if w[n - 1] == c {
            1nat
        } else {
            0nat
        })
    }
}

/// Number of occurrences of the letter `c` in the word `w`: the letter's
/// multiplicity in the secret's multiset of letters.
pub open spec fn letter_count(w: Seq<u8>, c: u8) -> nat {
    letter_count_before(w, c, w.len() as int)
}

/// Number of positions `i < n` where the guess has the letter `c` and it
/// matches the secret exactly — the occurrences the first pass reserves.
pub open spec fn exact_matches_before(secret: Seq<u8>, guess: Seq<u8>, c: u8, n: int) -> nat
    decreases n,
{
    if n <= 0 {
        0
    } else {
        exact_matches_before(secret, guess, c, n - 1) + (if guess[n - 1] == c && guess[n - 1]
            == secret[n - 1] {
            1nat
        } else {
            0nat
        })
    }
}

/// Number of positions `i < n` where the guess has the letter `c` without
/// an exact match there — the earlier claimants the second pass serves
/// first when it hands out the letter's leftover occurrences.
pub open spec fn misplaced_before(secret: Seq<u8>, guess: Seq<u8>, c: u8, n: int) -> nat
    decreases n,
{
    if n <= 0 {
        0
    } else {
        misplaced_before(secret, guess, c, n - 1) + (if guess[n - 1] == c && guess[n - 1]
            != secret[n - 1] {
            1nat
        } else {
            0nat
        })
    }
}

/// The verdict the two-pass evaluation assigns at position `i`.
///
/// An exact match is `Correct`. Otherwise the letter is `Present` exactly
/// when the occurrences reserved by exact matches together with the
/// letter's earlier misplaced positions have not yet consumed every
/// occurrence of the letter in the secret, and `Absent` once they have.
pub open spec fn verdict_at(secret: Seq<u8>, guess: Seq<u8>, i: int) -> LetterPosition {
    if guess[i] == secret[i] {
        LetterPosition::Correct
    } else if exact_matches_before(secret, guess, guess[i], guess.len() as int)
        + misplaced_before(secret, guess, guess[i], i) < letter_count(secret, guess[i]) {
        LetterPosition::Present
    } else {
        LetterPosition::Absent
    }
}

/// The fully scored guess: the guessed letters in order, each with the
/// verdict of [`verdict_at`].
pub open spec fn scored_guess(secret: Seq<u8>, guess: Seq<u8>) -> Seq<ScoredLetter> {
    Seq::new(
        guess.len(),
        |i: int| ScoredLetter { letter: guess[i], verdict: verdict_at(secret, guess, i) },
    )
}

/// Counts the occurrences of `c` in `w`.
fn count_letter(w: &Vec<u8>, c: u8) -> (n: usize)
    ensures
        n == letter_count(w@, c),
        n <= w@.len(),
{
    let mut n: usize = 0;
    let mut i: usize = 0;
    while i < w.len()
        invariant
            i <= w@.len(),
            n <= i,
            n == letter_count_before(w@, c, i as int),
        decreases w@.len() - i,
    {
        if w[i] == c {
            n = n + 1;
        }
        i = i + 1;
    }
    n
}

/// Counts the exact positional matches of the letter `c` over the whole
/// guess.
fn count_exact_matches(secret: &Vec<u8>, guess: &Vec<u8>, c: u8) -> (n: usize)
    requires
        secret@.len() == guess@.len(),
    ensures
        n == exact_matches_before(secret@, guess@, c, guess@.len() as int),
        n <= guess@.len(),
{
    let mut n: usize = 0;
    let mut i: usize = 0;
    while i < guess.len()
        invariant
            secret@.len() == guess@.len(),
            i <= guess@.len(),
            n <= i,
            n == exact_matches_before(secret@, guess@, c, i as int),
        decreases guess@.len() - i,
    {
        if guess[i] == c && secret[i] == c {
            n = n + 1;
        }
        i = i + 1;
    }
    n
}

/// Counts the misplaced occurrences of the letter `c` among the guess
/// positions before `upto`.
fn count_misplaced_before(secret: &Vec<u8>, guess: &Vec<u8>, c: u8, upto: usize) -> (n: usize)
    requires
        secret@.len() == guess@.len(),
        upto <= guess@.len(),
    ensures
        n == misplaced_before(secret@, guess@, c, upto as int),
        n <= upto,
{
    let mut n: usize = 0;
    let mut i: usize = 0;
    while i < upto
        invariant
            secret@.len() == guess@.len(),
            upto <= guess@.len(),
            i <= upto,
            n <= i,
            n == misplaced_before(secret@, guess@, c, i as int),
        decreases upto - i,
    {
        if guess[i] == c && !(secret[i] == c) {
            n = n + 1;
        }
        i = i + 1;
    }
    n
}

/// Scores `guess` against `secret`.
///
/// The first pass marks every exact positional match `Correct`; the
/// second pass, left to right, marks a remaining position `Present`
/// while the letter still has unreserved occurrences in the secret and
/// `Absent` otherwise. Both inputs must already be validated: exactly
/// five letters each, case-normalized by the caller.
pub fn evaluate(secret: &Vec<u8>, guess: &Vec<u8>) -> (scored: Guess)
    requires
        secret@.len() == WORD_LENGTH,
        guess@.len() == WORD_LENGTH,
    ensures
        scored.wf(),
        scored@ == scored_guess(secret@, guess@),
{
    let mut letters: Vec<ScoredLetter> = Vec::new();

    // Pass 1: award `Correct` to exact matches, `Absent` provisionally
    // to everything else.
    let mut i: usize = 0;
    while i < guess.len()
        invariant
            secret@.len() == WORD_LENGTH,
            guess@.len() == WORD_LENGTH,
            i <= WORD_LENGTH,
            letters@.len() == i as int,
            forall|j: int|
                0 <= j < i ==> letters@[j].letter == guess@[j] && letters@[j].verdict == (
                if guess@[j] == secret@[j] {
                    LetterPosition::Correct
                } else {
                    LetterPosition::Absent
                }),
        decreases guess@.len() - i,
    {
        let verdict = if guess[i] == secret[i] {
            LetterPosition::Correct
        } else {
            LetterPosition::Absent
        };
        letters.push(ScoredLetter { letter: guess[i], verdict });
        i = i + 1;
    }

    // Pass 2: hand the letters' leftover occurrences to the misplaced
    // positions in ascending order.
    let mut i: usize = 0;
    while i < guess.len()
        invariant
            secret@.len() == WORD_LENGTH,
            guess@.len() == WORD_LENGTH,
            i <= WORD_LENGTH,
            letters@.len() == WORD_LENGTH,
            forall|j: int| 0 <= j < WORD_LENGTH ==> letters@[j].letter == guess@[j],
            forall|j: int| 0 <= j < i ==> letters@[j].verdict == verdict_at(secret@, guess@, j),
            forall|j: int|
                i <= j < WORD_LENGTH ==> letters@[j].verdict == (if guess@[j] == secret@[j] {
                    LetterPosition::Correct
                } else {
                    LetterPosition::Absent
                }),
        decreases guess@.len() - i,
    {
        if !(guess[i] == secret[i]) {
            let c = guess[i];
            let reserved = count_exact_matches(secret, guess, c);
            let earlier = count_misplaced_before(secret, guess, c, i);
            let available = count_letter(secret, c);
            if reserved + earlier < available {
                letters[i] = ScoredLetter { letter: c, verdict: LetterPosition::Present };
            }
        }
        i = i + 1;
    }

    proof {
        assert(letters@ =~= scored_guess(secret@, guess@));
    }
    Guess { letters }
}

/// A guess identical to the secret is scored `Correct` at every position.
pub proof fn lemma_guess_equal_to_secret_all_correct(secret: Seq<u8>)
    ensures
        forall|i: int|
            0 <= i < secret.len() ==> #[trigger] verdict_at(secret, secret, i)
                == LetterPosition::Correct,
{
}

/// Number of positions `i < n` whose guess letter is `c` and whose
/// verdict credits the letter, i.e. is `Correct` or `Present`.
pub open spec fn credited_before(secret: Seq<u8>, guess: Seq<u8>, c: u8, n: int) -> nat
    decreases n,
{
    if n <= 0 {
        0
    } else {
        credited_before(secret, guess, c, n - 1) + (if guess[n - 1] == c && verdict_at(
            secret,
            guess,
            n - 1,
        ) != LetterPosition::Absent {
            1nat
        } else {
            0nat
        })
    }
}

proof fn lemma_exact_le_count(secret: Seq<u8>, guess: Seq<u8>, c: u8, n: int)
    requires
        secret.len() == guess.len(),
        0 <= n <= guess.len(),
    ensures
        exact_matches_before(secret, guess, c, n) <= letter_count_before(secret, c, n),
    decreases n,
{
    if n > 0 {
        lemma_exact_le_count(secret, guess, c, n - 1);
    }
}

proof fn lemma_credited_bounds(secret: Seq<u8>, guess: Seq<u8>, c: u8, n: int)
    requires
        secret.len() == guess.len(),
        0 <= n <= guess.len(),
    ensures
        credited_before(secret, guess, c, n) <= exact_matches_before(secret, guess, c, n)
            + misplaced_before(secret, guess, c, n),
        credited_before(secret, guess, c, n) + exact_matches_before(
            secret,
            guess,
            c,
            guess.len() as int,
        ) <= exact_matches_before(secret, guess, c, n) + letter_count(secret, c),
    decreases n,
{
    lemma_exact_le_count(secret, guess, c, guess.len() as int);
    if n > 0 {
        lemma_credited_bounds(secret, guess, c, n - 1);
        let k = n - 1;
        if guess[k] == c && guess[k] != secret[k] {
            // Unfold the verdict at the newly counted position so its
            // `Present` condition is available to the step.
            assert(verdict_at(secret, guess, k) != LetterPosition::Correct);
        }
    }
}

/// Letter-count conservation: over a whole scored guess, the positions
/// where a letter is credited (`Correct` or `Present`) never outnumber
/// that letter's occurrences in the secret.
pub proof fn lemma_letter_conservation(secret: Seq<u8>, guess: Seq<u8>, c: u8)
    requires
        secret.len() == guess.len(),
    ensures
        credited_before(secret, guess, c, guess.len() as int) <= letter_count(secret, c),
{
    lemma_credited_bounds(secret, guess, c, guess.len() as int);
}

} // verus!
