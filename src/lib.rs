//! Backend-agnostic harness for running proving games inside a zkVM.
//!
//! A proving game pairs an in-circuit program with an input/output contract:
//! the harness captures a comparison value from the decoded input before the
//! backend consumes it, stages the raw input, executes or proves, decodes the
//! committed public output and checks it against the game's invariant.

pub mod abi;
pub mod error;
pub mod game;
pub mod output;
pub mod harness;
pub mod solidity;
