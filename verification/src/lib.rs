//! Core logic of an agent session engine.
//!
//! The engine launches an external agent process, drives a request/response
//! protocol with it, and answers the capability requests the agent issues
//! back against the host: permission prompts, sandboxed file reads and
//! writes, and pseudo-terminals for agent-initiated commands.  This crate
//! holds the verified decision logic of that engine: path containment,
//! bounded output buffering, the permission auto-selection policy, line
//! windowing for file reads, the terminal registry, agent configuration
//! validation and the single-session state machine.  Process spawning and
//! the actual byte I/O live outside, and report their outcomes to the
//! functions here as plain values.

pub mod buffer;
pub mod config;
pub mod events;
pub mod files;
pub mod manager;
pub mod permission;
pub mod rpc;
pub mod sandbox;
pub mod terminals;
pub mod text;
