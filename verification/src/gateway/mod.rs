//! Initiator Gateway: what a tool call asks of the daemon.

pub mod client;
pub mod error;
pub mod mcp;
pub mod session;
pub mod tool_laws;
