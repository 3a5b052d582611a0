//! A verified core for a command-line translation client.
//!
//! The library holds the logic of the tool: resolving the configuration
//! file path, reading and updating the persisted configuration document,
//! building the translation request, decoding the provider's response,
//! and planning what a command-line invocation should do.  File and
//! network I/O stay outside, handing the library plain values.

pub mod cli;
pub mod config;
pub mod deepl;
pub mod directories;
pub mod error;
