//! The decision logic of `retry`: classifying how a command attempt ended,
//! deciding whether to try again, parsing the retry constraint, and the
//! state machine that drives attempts until they succeed or run out.
pub mod task;
pub mod decider;
pub mod cli;
pub mod executor;
