//! Second-factor decision engine for a pluggable authentication module.
//!
//! The crate resolves the module's `key=value` directives into a
//! configuration, applies the bypass rule, builds the token-status query and
//! turns the remote answer, or the failure to obtain one, into a verdict.
//! It performs no I/O: the host adapter sends the query and writes the log
//! lines that the engine hands out.

pub mod config;
pub mod directive;
pub mod engine;
pub mod error;
pub mod escape;
pub mod guarantees;
pub mod hooks;
pub mod log;
pub mod request;
pub mod verdict;
