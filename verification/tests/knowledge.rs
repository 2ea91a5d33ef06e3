use wordle::Guess;
use wordle::LetterPosition;
use wordle::ScoredLetter;
use wordle::knowledge::known_verdict;

fn scored(word: &str, verdicts: [LetterPosition; 5]) -> Guess {
    let letters = word
        .bytes()
        .zip(verdicts)
        .map(|(letter, verdict)| ScoredLetter { letter, verdict })
        .collect();
    Guess { letters }
}

use LetterPosition::Absent;
use LetterPosition::Correct;
use LetterPosition::Present;

fn strength(v: Option<LetterPosition>) -> i32 {
    match v {
        None => -1,
        Some(Absent) => 0,
        Some(Present) => 1,
        Some(Correct) => 2,
    }
}

#[test]
fn unseen_letter_has_no_verdict() {
    let history = vec![scored("SLATE", [Absent, Absent, Present, Absent, Correct])];
    assert_eq!(known_verdict(&history, b'Q', 0), None);
    assert_eq!(known_verdict(&vec![], b'A', 2), None);
}

#[test]
fn correct_is_attributed_at_its_own_position_only() {
    let history = vec![scored("SLATE", [Absent, Absent, Present, Absent, Correct])];
    // E was correct at position 4: green there, but only yellow elsewhere.
    assert_eq!(known_verdict(&history, b'E', 4), Some(Correct));
    assert_eq!(known_verdict(&history, b'E', 0), Some(Present));
    assert_eq!(known_verdict(&history, b'E', 3), Some(Present));
}

#[test]
fn absent_letter_stays_absent_at_every_position() {
    let history = vec![
        scored("SLATE", [Absent, Absent, Present, Absent, Correct]),
        scored("POUND", [Absent, Absent, Absent, Absent, Absent]),
    ];
    for p in 0..5 {
        assert_eq!(known_verdict(&history, b'S', p), Some(Absent));
        assert_eq!(known_verdict(&history, b'P', p), Some(Absent));
    }
}

#[test]
fn present_letter_is_present_wherever_typed() {
    let history = vec![scored("SLATE", [Absent, Absent, Present, Absent, Correct])];
    for p in 0..5 {
        assert_eq!(known_verdict(&history, b'A', p), Some(Present));
    }
}

#[test]
fn appending_a_guess_never_weakens_knowledge() {
    let shorter = vec![scored("SLATE", [Absent, Absent, Present, Absent, Correct])];
    let mut longer = shorter.clone();
    longer.push(scored("CRANE", [Correct, Correct, Present, Absent, Correct]));
    for letter in b'A'..=b'Z' {
        for p in 0..5 {
            assert!(
                strength(known_verdict(&longer, letter, p))
                    >= strength(known_verdict(&shorter, letter, p))
            );
        }
    }
}

#[test]
fn a_later_correct_upgrades_an_earlier_present() {
    let history_before = vec![scored("SLATE", [Absent, Absent, Present, Absent, Correct])];
    let mut history_after = history_before.clone();
    history_after.push(scored("ABACK", [Correct, Absent, Present, Absent, Absent]));
    assert_eq!(known_verdict(&history_before, b'A', 0), Some(Present));
    assert_eq!(known_verdict(&history_after, b'A', 0), Some(Correct));
}
