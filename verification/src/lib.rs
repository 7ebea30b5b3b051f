//! Verified core of an MCP adapter around an external AI command line.
//!
//! The library holds the logic worth proving: splitting a configured command
//! string into a program and its leading arguments, building the child
//! process's argument list, interpreting the captured output (a structured
//! envelope, plain text, or a diagnosed failure), the prompt capability's
//! decision logic around a spawn outcome, and the pure formatting of the
//! filesystem capabilities.  The process spawning and the protocol transport
//! themselves are ordinary unverified code around this crate.

pub mod envelope;
pub mod fsops;
pub mod interpret;
pub mod invoke;
pub mod json;
pub mod text;
pub mod tools;
