//! Folding the scored guesses of a session into the best known verdict
//! for a letter typed at a position, used to color unsubmitted input.
//!
//! The fold is monotone in the strength order `Absent < Present <
//! Correct`: a `Correct` is attributable only where some guess placed
//! the letter correctly at the queried position itself; a `Correct`
//! seen at another position still proves the letter occurs in the
//! secret, so elsewhere it counts as `Present`. A letter never guessed
//! yields no verdict at all, which is distinct from `Absent`.

use vstd::prelude::*;

use crate::evaluate::Guess;
use crate::verdict::LetterPosition;

verus! {

/// Whether some guess in the history scored the letter `c` as `Correct`
/// at position `p` itself.
pub open spec fn correct_known_at(history: Seq<Guess>, c: u8, p: int) -> bool {
    exists|k: int|
        0 <= k < history.len() && 0 <= p < history[k]@.len() && history[k]@[p].letter == c
            && history[k]@[p].verdict == LetterPosition::Correct
}

/// Whether some guess in the history scored the letter `c` as at least
/// `Present` at any position — either verdict above `Absent` shows the
/// letter occurs in the secret.
pub open spec fn present_known(history: Seq<Guess>, c: u8) -> bool {
    exists|k: int, j: int|
        0 <= k < history.len() && 0 <= j < history[k]@.len() && history[k]@[j].letter == c
            && history[k]@[j].verdict != LetterPosition::Absent
}

/// Whether the letter `c` occurs anywhere in the history.
pub open spec fn letter_seen(history: Seq<Guess>, c: u8) -> bool {
    exists|k: int, j: int|
        0 <= k < history.len() && 0 <= j < history[k]@.len() && history[k]@[j].letter == c
}

/// The best known verdict for typing the letter `c` at position `p`,
/// given the scored guesses so far: `Correct` where the position itself
/// was once correct, otherwise `Present` where the letter is known to
/// occur in the secret, otherwise `Absent` where it was guessed and
/// never credited, and no verdict where it was never guessed.
pub open spec fn known_verdict_spec(history: Seq<Guess>, c: u8, p: int) -> Option<
    LetterPosition,
> {
    if correct_known_at(history, c, p) {
        Some(LetterPosition::Correct)
    } else if present_known(history, c) {
        Some(LetterPosition::Present)
    } else if letter_seen(history, c) {
        Some(LetterPosition::Absent)
    } else {
        None
    }
}

/// Strength of a best-known verdict, ranking a never-guessed letter
/// below every verdict.
pub open spec fn known_strength(v: Option<LetterPosition>) -> int {
    match v {
        Option::None => -1,
        Option::Some(w) => w.strength(),
    }
}

/// Whether this guess scored the letter `c` as `Correct` at position `p`.
fn guess_correct_at(g: &Guess, c: u8, p: usize) -> (r: bool)
    ensures
        r == (p < g@.len() && g@[p as int].letter == c && g@[p as int].verdict
            == LetterPosition::Correct),
{
    p < g.letters.len() && g.letters[p].letter == c && g.letters[p].verdict
        == LetterPosition::Correct
}

/// Whether this guess scored the letter `c` above `Absent` anywhere.
fn guess_credits(g: &Guess, c: u8) -> (r: bool)
    ensures
        r == exists|j: int|
            0 <= j < g@.len() && g@[j].letter == c && g@[j].verdict != LetterPosition::Absent,
{
    let mut j: usize = 0;
    while j < g.letters.len()
        invariant
            j <= g@.len(),
            forall|i: int|
                0 <= i < j ==> !(g@[i].letter == c && g@[i].verdict != LetterPosition::Absent),
        decreases g@.len() - j,
    {
        if g.letters[j].letter == c && !(g.letters[j].verdict == LetterPosition::Absent) {
            return true;
        }
        j = j + 1;
    }
    false
}

/// Whether the letter `c` occurs in this guess.
fn guess_has_letter(g: &Guess, c: u8) -> (r: bool)
    ensures
        r == exists|j: int| 0 <= j < g@.len() && g@[j].letter == c,
{
    let mut j: usize = 0;
    while j < g.letters.len()
        invariant
            j <= g@.len(),
            forall|i: int| 0 <= i < j ==> g@[i].letter != c,
        decreases g@.len() - j,
    {
        if g.letters[j].letter == c {
            return true;
        }
        j = j + 1;
    }
    false
}

/// The best known verdict for typing the letter `c` at position `p`,
/// recomputed as a pure function of the whole guess history.
pub fn known_verdict(history: &Vec<Guess>, c: u8, p: usize) -> (r: Option<LetterPosition>)
    ensures
        r == known_verdict_spec(history@, c, p as int),
{
    let mut found_correct = false;
    let mut found_present = false;
    let mut seen = false;
    let mut k: usize = 0;
    while k < history.len()
        invariant
            k <= history@.len(),
            found_correct == (exists|k2: int|
                0 <= k2 < k && 0 <= p < history@[k2]@.len() && history@[k2]@[p as int].letter == c
                    && history@[k2]@[p as int].verdict == LetterPosition::Correct),
            found_present == (exists|k2: int, j: int|
                0 <= k2 < k && 0 <= j < history@[k2]@.len() && history@[k2]@[j].letter == c
                    && history@[k2]@[j].verdict != LetterPosition::Absent),
            seen == (exists|k2: int, j: int|
                0 <= k2 < k && 0 <= j < history@[k2]@.len() && history@[k2]@[j].letter == c),
        decreases history@.len() - k,
    {
        let g = &history[k];
        if guess_correct_at(g, c, p) {
            found_correct = true;
        }
        if guess_credits(g, c) {
            found_present = true;
        }
        if guess_has_letter(g, c) {
            seen = true;
        }
        k = k + 1;
    }
    if found_correct {
        Some(LetterPosition::Correct)
    } else if found_present {
        Some(LetterPosition::Present)
    } else if seen {
        Some(LetterPosition::Absent)
    } else {
        None
    }
}

/// Knowledge is monotone: appending one more scored guess to the
/// history never weakens the best known verdict of any letter at any
/// position.
pub proof fn lemma_knowledge_monotone(history: Seq<Guess>, g: Guess, c: u8, p: int)
    ensures
        known_strength(known_verdict_spec(history.push(g), c, p)) >= known_strength(
            known_verdict_spec(history, c, p),
        ),
{
    let extended = history.push(g);
    assert(forall|k: int| 0 <= k < history.len() ==> extended[k] == history[k]);
    if correct_known_at(history, c, p) {
        let k = choose|k: int|
            0 <= k < history.len() && 0 <= p < history[k]@.len() && history[k]@[p].letter == c
                && history[k]@[p].verdict == LetterPosition::Correct;
        assert(extended[k] == history[k]);
        assert(correct_known_at(extended, c, p));
    }
    if present_known(history, c) {
        let (k, j) = choose|k: int, j: int|
            0 <= k < history.len() && 0 <= j < history[k]@.len() && history[k]@[j].letter == c
                && history[k]@[j].verdict != LetterPosition::Absent;
        assert(extended[k] == history[k]);
        assert(present_known(extended, c));
    }
    if letter_seen(history, c) {
        let (k, j) = choose|k: int, j: int|
            0 <= k < history.len() && 0 <= j < history[k]@.len() && history[k]@[j].letter == c;
        assert(extended[k] == history[k]);
        assert(letter_seen(extended, c));
    }
}

} // verus!
