//! Decision logic of a plain-RPC transaction submitter: the fixed submission
//! settings, the step functions that say what to do after each network
//! outcome, the diagnostic log that a failed confirmation produces, and the
//! sequential batch rule. The network calls themselves belong to the caller.

pub mod batch;
pub mod client;
pub mod config;
pub mod diagnostics;
pub mod kinds;
pub mod send;
pub mod text;
pub mod transaction;
