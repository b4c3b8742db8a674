//! A time-locked escrow transfer program: instruction and record codecs, and a
//! processor that turns a command and the accounts handed to it into the
//! ordered list of ledger actions it requires, or the error that aborts it.

pub mod bytes;
pub mod error;
pub mod state;
pub mod instruction;
pub mod authority;
pub mod processor;
