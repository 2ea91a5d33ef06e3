use wordle::LetterPosition;
use wordle::evaluate::evaluate;

fn word(s: &str) -> Vec<u8> {
    s.bytes().collect()
}

fn verdicts(secret: &str, guess: &str) -> Vec<LetterPosition> {
    let scored = evaluate(&word(secret), &word(guess));
    scored.letters().iter().map(|sl| sl.verdict).collect()
}

#[test]
fn evaluate_returns_one_verdict_per_position() {
    let scored = evaluate(&word("CRANE"), &word("SLATE"));
    assert_eq!(scored.letters().len(), 5);
    for (i, sl) in scored.letters().iter().enumerate() {
        assert_eq!(sl.letter, word("SLATE")[i]);
    }
}

#[test]
fn guessing_the_secret_is_all_correct() {
    assert_eq!(verdicts("CRANE", "CRANE"), vec![LetterPosition::Correct; 5]);
    assert_eq!(verdicts("ALLOY", "ALLOY"), vec![LetterPosition::Correct; 5]);
}

#[test]
fn duplicate_letters_alloy_llama() {
    // Secret ALLOY, guess LLAMA. The exact match L at position 1 reserves
    // one of the secret's two Ls; the L at position 0 takes the leftover
    // one. The A at position 2 takes the secret's only A, which leaves
    // the A at position 4 uncredited, and M does not occur at all.
    assert_eq!(
        verdicts("ALLOY", "LLAMA"),
        vec![
            LetterPosition::Present,
            LetterPosition::Correct,
            LetterPosition::Present,
            LetterPosition::Absent,
            LetterPosition::Absent,
        ]
    );
}

#[test]
fn duplicate_letters_abbey_babes() {
    assert_eq!(
        verdicts("ABBEY", "BABES"),
        vec![
            LetterPosition::Present,
            LetterPosition::Present,
            LetterPosition::Correct,
            LetterPosition::Correct,
            LetterPosition::Absent,
        ]
    );
}

#[test]
fn repeated_letter_credited_at_most_its_multiplicity() {
    // CRANE holds one E: only the exact match at position 4 is credited.
    assert_eq!(
        verdicts("CRANE", "EEEEE"),
        vec![
            LetterPosition::Absent,
            LetterPosition::Absent,
            LetterPosition::Absent,
            LetterPosition::Absent,
            LetterPosition::Correct,
        ]
    );
}

#[test]
fn letter_count_conservation_on_samples() {
    let cases = [
        ("ALLOY", "LLAMA"),
        ("ABBEY", "BABES"),
        ("CRANE", "EEEEE"),
        ("CRANE", "SLATE"),
        ("OTTER", "TOTEM"),
    ];
    for (secret, guess) in cases {
        let vs = verdicts(secret, guess);
        for letter in guess.bytes() {
            let credited = guess
                .bytes()
                .zip(vs.iter())
                .filter(|(g, v)| *g == letter && **v != LetterPosition::Absent)
                .count();
            let in_secret = secret.bytes().filter(|s| *s == letter).count();
            assert!(credited <= in_secret);
        }
    }
}

#[test]
fn emoji_squares_match_verdicts() {
    assert_eq!(LetterPosition::Absent.emoji(), '\u{2B1C}');
    assert_eq!(LetterPosition::Present.emoji(), '\u{1F7E8}');
    assert_eq!(LetterPosition::Correct.emoji(), '\u{1F7E9}');
}
