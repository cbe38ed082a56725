//! An interactive drill for memorizing Japanese kana characters and their
//! romanized readings.
//!
//! The crate's core is the quiz session state machine: it owns the round
//! pool, the current prompt, the per-prompt attempt counter and the
//! cumulative score and round counters. All console interaction, flag
//! parsing and dictionary loading live outside the library; the session
//! itself performs no I/O.

pub mod laws;
pub mod session;

pub use session::Game;
pub use session::Kana;
pub use session::Outcome;
pub use session::QuizError;
