//! Core of a terminal typing-speed test.
//!
//! A user reproduces a fixed reference text; every keystroke is judged against
//! the character at the current position, a backspace retracts the previous
//! verdict, and the typing speed in words per minute is computed from the
//! number of correct keystrokes and the elapsed time.
//!
//! The crate holds the decision logic only: the evaluator state machine
//! ([`logic`]), the request/response timer state machine ([`timer`]) and the
//! words-per-minute formula ([`wpm`]). Input capture, terminal rendering and
//! the worker threads that carry messages between the parts live outside and
//! drive these functions through plain values.

pub mod logic;
pub mod timer;
pub mod wpm;
