//! Thread engine and protocol correlation layer of an agent host.
//!
//! The crate holds the sequential core of the host: the per-thread
//! submission/event pipeline with its status cell, the registry of threads,
//! the table that pairs engine-initiated requests with the peer's answers,
//! and the handshake gate of the protocol front door. Everything that waits,
//! reads or writes is left to the caller, which feeds this core with plain
//! values and performs the actions it returns.

pub mod text;
pub mod config_types;
pub mod protocol;
pub mod identity;
pub mod status;
pub mod pipeline;
pub mod codex;
pub mod trill_thread;
pub mod thread_manager;
pub mod framing;
pub mod outgoing;
pub mod message_processor;
pub mod agent;
pub mod models_manager;
pub mod web_search;
pub mod bootstrap;
