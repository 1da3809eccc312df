//! Verified core of a command-line image tool: a fixed registry of
//! subcommands, positional-argument binding against per-command schemas,
//! and the typed operation plans that the unverified shell executes.

pub mod laws;
pub mod ops;
pub mod parser;
pub mod report;
pub mod text;
