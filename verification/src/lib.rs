//! Core of a terminal word-guessing game: scoring a five-letter guess
//! against a secret word, folding scored guesses into the best known
//! verdict per letter and position, and driving the game session state
//! machine. All logic here is verified; terminal rendering and network
//! fetching live outside the library.

pub mod evaluate;
pub mod knowledge;
pub mod session;
pub mod verdict;

pub use evaluate::Guess;
pub use evaluate::ScoredLetter;
pub use session::App;
pub use session::SessionStatus;
pub use verdict::LetterPosition;
