//! Engine of a terminal typing-speed test: a countdown, a queue of target
//! words, a cursor-addressed input line and the score derived from them.
//!
//! Everything here is plain state and verified transitions. Terminal input,
//! drawing, sleeping and threads belong to the program around this library.

pub mod input;
pub mod laws;
pub mod queue;
pub mod score;
pub mod session;
pub mod snapshot;
pub mod text;
pub mod timer;
