//! Synchronises secrets between a remote secrets manager and local files.
//!
//! The crate holds the decisions of a run and leaves every effect to its
//! caller: it says which command to start, reads what the command answered,
//! and says which file to write or read next.

pub mod client;
pub mod error;
pub mod json;
pub mod laws;
pub mod mapping;
pub mod push;
mod run;
pub mod sync;
pub mod text;
