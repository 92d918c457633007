//! A text-processing assistant: a task described in words is turned into a
//! candidate script, reviewed by the user, and run against piped or file input.
//!
//! The library holds the decisions: the session's state machine, the decoding
//! of keys into commands, the assembly of the completion prompt, the finishing
//! of a returned script, and the classification and normalisation of what a
//! run produces.
pub mod text;
pub mod normalize;
pub mod command;
pub mod execute;
pub mod session;
pub mod synth;
pub mod sandbox;
pub mod input;
pub mod config;
