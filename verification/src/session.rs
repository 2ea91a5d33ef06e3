//! The game session: the secret, the word list, the scored guesses so
//! far, the in-progress input buffer, and the win/loss state machine.

use vstd::prelude::*;

use crate::evaluate::Guess;
use crate::evaluate::WORD_LENGTH;
use crate::evaluate::evaluate;
use crate::evaluate::scored_guess;
use crate::knowledge::known_verdict;
use crate::knowledge::known_verdict_spec;
use crate::verdict::LetterPosition;

verus! {

/// A session allows at most this many guesses.
pub const MAX_GUESSES: usize = 6;

/// Where the session stands: still accepting input, won by placing the
/// whole word, or lost by running out of guesses. `Won` and `Lost` are
/// terminal: a finished session rejects every further transition.
#[derive(Clone, Copy, Debug, PartialEq, Eq, Structural)]
pub enum SessionStatus {
    InProgress,
    Won,
    Lost,
}

/// ASCII code of `'A'`.
pub const ASCII_UPPER_A: u8 = 65;

/// ASCII code of `'Z'`.
pub const ASCII_UPPER_Z: u8 = 90;

/// ASCII code of `'a'`.
pub const ASCII_LOWER_A: u8 = 97;

/// ASCII code of `'z'`.
pub const ASCII_LOWER_Z: u8 = 122;

/// Distance between a lowercase ASCII letter and its uppercase form.
pub const ASCII_CASE_OFFSET: u8 = 32;

/// Whether `c` is an ASCII letter.
pub open spec fn is_ascii_letter(c: u8) -> bool {
    (ASCII_UPPER_A <= c && c <= ASCII_UPPER_Z) || (ASCII_LOWER_A <= c && c <= ASCII_LOWER_Z)
}

/// `c` with a lowercase ASCII letter mapped to its uppercase form.
pub open spec fn to_uppercase(c: u8) -> u8 {
    if ASCII_LOWER_A <= c && c <= ASCII_LOWER_Z {
        (c - ASCII_CASE_OFFSET) as u8
    } else {
        c
    }
}

/// The views of the words in a word list.
pub open spec fn word_views(words: Seq<Vec<u8>>) -> Seq<Seq<u8>> {
    Seq::new(words.len(), |i: int| words[i]@)
}

/// Whether `w` is a member of the word list.
pub open spec fn contains_word(list: Seq<Seq<u8>>, w: Seq<u8>) -> bool {
    exists|i: int| 0 <= i < list.len() && list[i] == w
}

/// Whether the two words are letter-for-letter equal.
fn words_equal(a: &Vec<u8>, b: &Vec<u8>) -> (r: bool)
    ensures
        r == (a@ == b@),
{
    if a.len() != b.len() {
        return false;
    }
    let mut i: usize = 0;
    while i < a.len()
        invariant
            a@.len() == b@.len(),
            i <= a@.len(),
            forall|j: int| 0 <= j < i ==> a@[j] == b@[j],
        decreases a@.len() - i,
    {
        if a[i] != b[i] {
            return false;
        }
        i = i + 1;
    }
    proof {
        assert(a@ =~= b@);
    }
    true
}

/// Whether the word list contains `w`.
fn list_contains(list: &Vec<Vec<u8>>, w: &Vec<u8>) -> (r: bool)
    ensures
        r == contains_word(word_views(list@), w@),
{
    let mut i: usize = 0;
    while i < list.len()
        invariant
            i <= list@.len(),
            forall|j: int| 0 <= j < i ==> word_views(list@)[j] != w@,
        decreases list@.len() - i,
    {
        if words_equal(&list[i], w) {
            proof {
                assert(word_views(list@)[i as int] == w@);
            }
            return true;
        }
        i = i + 1;
    }
    false
}

/// One game: the secret word, the set of accepted guess words, the
/// guesses scored so far, the unsubmitted input buffer, and the
/// win/loss state.
pub struct App {
    secret: Vec<u8>,
    word_list: Vec<Vec<u8>>,
    guesses: Vec<Guess>,
    pending_input: Vec<u8>,
    status: SessionStatus,
}

impl App {
    /// The secret word.
    pub closed spec fn secret_spec(self) -> Seq<u8> {
        self.secret@
    }

    /// The words a submission is checked against.
    pub closed spec fn word_list_spec(self) -> Seq<Seq<u8>> {
        word_views(self.word_list@)
    }

    /// The guesses accepted and scored so far, oldest first.
    pub closed spec fn guesses_spec(self) -> Seq<Guess> {
        self.guesses@
    }

    /// The unsubmitted input buffer.
    pub closed spec fn pending_spec(self) -> Seq<u8> {
        self.pending_input@
    }

    /// The session's state-machine position.
    pub closed spec fn status_spec(self) -> SessionStatus {
        self.status
    }

    /// Whether the session has ended, by a win or by the last guess.
    pub open spec fn finished(self) -> bool {
        self.status_spec() != SessionStatus::InProgress
    }

    /// The session invariant: a five-letter secret, at most six scored
    /// five-letter guesses, at most five buffered letters, and a status
    /// that says `Won` exactly when the last guess placed every letter
    /// and `Lost` exactly when all six guesses are spent without a win.
    pub open spec fn wf(self) -> bool {
        &&& self.secret_spec().len() == WORD_LENGTH
        &&& self.guesses_spec().len() <= MAX_GUESSES
        &&& self.pending_spec().len() <= WORD_LENGTH
        &&& forall|k: int| 0 <= k < self.guesses_spec().len() ==> (#[trigger] self.guesses_spec()[k]).wf()
        &&& (self.status_spec() == SessionStatus::Won <==> self.guesses_spec().len() > 0
            && self.guesses_spec().last().is_all_correct())
        &&& (self.status_spec() == SessionStatus::Lost <==> self.guesses_spec().len() == MAX_GUESSES
            && !self.guesses_spec().last().is_all_correct())
    }

    /// Starts a session on the given secret and word list, with no
    /// guesses, an empty input buffer, and the game in progress.
    pub fn new(secret: Vec<u8>, word_list: Vec<Vec<u8>>) -> (session: App)
        requires
            secret@.len() == WORD_LENGTH,
        ensures
            session.wf(),
            session.secret_spec() == secret@,
            session.word_list_spec() == word_views(word_list@),
            session.guesses_spec().len() == 0,
            session.pending_spec().len() == 0,
            session.status_spec() == SessionStatus::InProgress,
    {
        App {
            secret,
            word_list,
            guesses: Vec::new(),
            pending_input: Vec::new(),
            status: SessionStatus::InProgress,
        }
    }

    /// Whether the session accepts typing `c` now: it is in progress,
    /// the buffer is not full, and `c` is a letter.
    pub open spec fn accepts_letter(self, c: u8) -> bool {
        &&& self.status_spec() == SessionStatus::InProgress
        &&& self.pending_spec().len() < WORD_LENGTH
        &&& is_ascii_letter(c)
    }

    /// Appends the letter `c`, normalized to uppercase, to the input
    /// buffer; anything else — a full buffer, a non-letter, a finished
    /// session — leaves the session unchanged.
    pub fn type_character(&mut self, c: u8)
        requires
            old(self).wf(),
        ensures
            final(self).wf(),
            final(self).secret_spec() == old(self).secret_spec(),
            final(self).word_list_spec() == old(self).word_list_spec(),
            final(self).guesses_spec() == old(self).guesses_spec(),
            final(self).status_spec() == old(self).status_spec(),
            old(self).accepts_letter(c) ==> final(self).pending_spec() == old(
                self,
            ).pending_spec().push(to_uppercase(c)),
            !old(self).accepts_letter(c) ==> *final(self) == *old(self),
    {
        if self.status == SessionStatus::InProgress && self.pending_input.len() < WORD_LENGTH {
            if c >= ASCII_UPPER_A && c <= ASCII_UPPER_Z {
                self.pending_input.push(c);
            } else if c >= ASCII_LOWER_A && c <= ASCII_LOWER_Z {
                self.pending_input.push(c - ASCII_CASE_OFFSET);
            }
        }
    }

    /// Whether the session accepts a backspace now: it is in progress
    /// and the buffer is not empty.
    pub open spec fn accepts_backspace(self) -> bool {
        self.status_spec() == SessionStatus::InProgress && self.pending_spec().len() > 0
    }

    /// Removes the last buffered letter; on an empty buffer or a
    /// finished session, leaves the session unchanged.
    pub fn backspace(&mut self)
        requires
            old(self).wf(),
        ensures
            final(self).wf(),
            final(self).secret_spec() == old(self).secret_spec(),
            final(self).word_list_spec() == old(self).word_list_spec(),
            final(self).guesses_spec() == old(self).guesses_spec(),
            final(self).status_spec() == old(self).status_spec(),
            old(self).accepts_backspace() ==> final(self).pending_spec() == old(
                self,
            ).pending_spec().drop_last(),
            !old(self).accepts_backspace() ==> *final(self) == *old(self),
    {
        if self.status == SessionStatus::InProgress && self.pending_input.len() > 0 {
            let _ = self.pending_input.pop();
            proof {
                assert(self.pending_input@ =~= old(self).pending_input@.drop_last());
            }
        }
    }

    /// Whether the session accepts a submission now: it is in progress,
    /// the buffer holds a full word, and that word is in the word list.
    pub open spec fn accepts_submission(self) -> bool {
        &&& self.status_spec() == SessionStatus::InProgress
        &&& self.pending_spec().len() == WORD_LENGTH
        &&& contains_word(self.word_list_spec(), self.pending_spec())
    }

    /// Submits the buffered word. An unacceptable submission — wrong
    /// length, unknown word, finished session — is silently rejected
    /// and changes nothing, so repeating it changes nothing either. An
    /// accepted one appends the scored guess, clears the buffer, and
    /// moves to `Won` exactly when the word is the secret, to `Lost`
    /// exactly when the sixth guess misses, and stays in progress
    /// otherwise.
    pub fn submit_guess(&mut self)
        requires
            old(self).wf(),
        ensures
            final(self).wf(),
            final(self).secret_spec() == old(self).secret_spec(),
            final(self).word_list_spec() == old(self).word_list_spec(),
            !old(self).accepts_submission() ==> *final(self) == *old(self),
            old(self).accepts_submission() ==> {
                &&& final(self).guesses_spec().len() == old(self).guesses_spec().len() + 1
                &&& forall|k: int|
                    0 <= k < old(self).guesses_spec().len() ==> final(self).guesses_spec()[k]
                        == old(self).guesses_spec()[k]
                &&& final(self).guesses_spec().last()@ == scored_guess(
                    old(self).secret_spec(),
                    old(self).pending_spec(),
                )
                &&& final(self).pending_spec().len() == 0
                &&& (final(self).status_spec() == SessionStatus::Won <==> old(self).pending_spec()
                    == old(self).secret_spec())
                &&& (final(self).status_spec() == SessionStatus::Lost <==> old(
                    self,
                ).pending_spec() != old(self).secret_spec() && final(self).guesses_spec().len()
                    == MAX_GUESSES)
                &&& (final(self).status_spec() == SessionStatus::InProgress <==> old(
                    self,
                ).pending_spec() != old(self).secret_spec() && final(self).guesses_spec().len()
                    < MAX_GUESSES)
            },
    {
        if !(self.status == SessionStatus::InProgress) {
            return;
        }
        if self.pending_input.len() != WORD_LENGTH {
            return;
        }
        if !list_contains(&self.word_list, &self.pending_input) {
            return;
        }
        let scored = evaluate(&self.secret, &self.pending_input);
        let won = scored.all_correct();
        proof {
            if won {
                assert forall|i: int| 0 <= i < WORD_LENGTH implies self.pending_input@[i]
                    == self.secret@[i] by {
                    assert(scored@[i].verdict == LetterPosition::Correct);
                }
                assert(self.pending_input@ =~= self.secret@);
            } else {
                if self.pending_input@ == self.secret@ {
                    assert forall|i: int| 0 <= i < scored@.len() implies scored@[i].verdict
                        == LetterPosition::Correct by {}
                }
            }
        }
        self.guesses.push(scored);
        self.pending_input.clear();
        if won {
            self.status = SessionStatus::Won;
        } else if self.guesses.len() == MAX_GUESSES {
            self.status = SessionStatus::Lost;
        }
    }

    /// The guesses accepted and scored so far, oldest first, for
    /// rendering and for the end-of-game summary.
    pub fn guesses(&self) -> (guesses: &Vec<Guess>)
        ensures
            guesses@ == self.guesses_spec(),
    {
        &self.guesses
    }

    /// The unsubmitted input buffer, for rendering.
    pub fn pending_input(&self) -> (pending: &Vec<u8>)
        ensures
            pending@ == self.pending_spec(),
    {
        &self.pending_input
    }

    /// The secret word, for the end-of-game summary.
    pub fn secret(&self) -> (secret: &Vec<u8>)
        ensures
            secret@ == self.secret_spec(),
    {
        &self.secret
    }

    /// The session's state-machine position.
    pub fn status(&self) -> (status: SessionStatus)
        ensures
            status == self.status_spec(),
    {
        self.status
    }

    /// Whether the session has ended, by a win or by the last guess.
    pub fn is_finished(&self) -> (r: bool)
        ensures
            r == self.finished(),
    {
        !(self.status == SessionStatus::InProgress)
    }

    /// A well-formed session is finished exactly when every guess is
    /// spent or the last guess placed every letter.
    pub proof fn lemma_finished_characterization(self)
        requires
            self.wf(),
        ensures
            self.finished() <==> (self.guesses_spec().len() == MAX_GUESSES || (
            self.guesses_spec().len() > 0 && self.guesses_spec().last().is_all_correct())),
    {
    }

    /// The best known verdict for typing the letter `c` at position
    /// `p`, folded over all accepted guesses; used to color the input
    /// buffer while it is typed.
    pub fn known_verdict(&self, c: u8, p: usize) -> (r: Option<LetterPosition>)
        ensures
            r == known_verdict_spec(self.guesses_spec(), c, p as int),
    {
        known_verdict(&self.guesses, c, p)
    }
}

} // verus!
