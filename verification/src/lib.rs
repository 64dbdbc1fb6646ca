//! A single-writer state actor: one process owns a state value and applies
//! queued commands to it in order; any number of handles submit commands.

pub mod error;
pub mod channel;
pub mod state;
pub mod call;
pub mod actor;
pub mod process;
pub mod reply;
pub mod toggle;
pub mod counter;
pub mod laws;
pub mod signal;
