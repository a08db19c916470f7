//! A power-weighted, tamper-evident voting protocol: a factory that creates
//! and tracks polls, and a poll that runs one voting round to completion.

pub mod crypto;
pub mod types;
pub mod error;
pub mod challenge;
pub mod tally;
pub mod poll;
pub mod factory;
