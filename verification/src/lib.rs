//! Orchestration logic for a media download tool: filename sanitization,
//! bootstrap of the two external executables, construction of the exact
//! argument lists handed to them, and interpretation of their exit codes.
//!
//! The actual process spawning, network access and terminal rendering live
//! outside this crate; everything here is plain computation with contracts.

pub mod bootstrap;
pub mod cli;
pub mod dispatch;
pub mod errors;
pub mod fsscan;
pub mod naming;
pub mod sanitize;
pub mod strutil;
