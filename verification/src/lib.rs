//! Verified core of the MCP system daemon: the tool model, the risk engine,
//! registry integrity signing, and the request-handling state machine.
pub mod common;
pub mod config;
pub mod crypto;
pub mod daemon;
pub mod properties;
pub mod registry;
pub mod risk_engine;
pub mod runs;
pub mod security;
pub mod string_map;
