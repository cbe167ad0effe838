//! A resilient one-way pump: it reads a periodically rewritten telemetry file
//! and forwards its contents over a persistent connection, reconnecting forever.
//!
//! The decisions of the pump (when to connect, read, send, skip or reconnect)
//! are a verified state machine in [`pump`]; the caller performs each action
//! and hands back what happened as an event.
pub mod error;
pub mod config;
pub mod pump;
pub mod payload;
pub mod laws;
pub mod supervisor;
