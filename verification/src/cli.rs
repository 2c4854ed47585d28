//! The command-line surface of the tool, as plain data.

pub mod args;
