//! Command-dispatch and remote-synchronization core of a terminal client for a
//! music-streaming account.
//!
//! The dispatcher is written sans-IO: it is a verified state machine that maps
//! each user command to the remote requests it needs, and merges the typed
//! responses into the shared application state. The embedding owns the HTTP
//! client and the async runtime; it performs each [`request::RemoteRequest`]
//! the machine hands out and feeds the typed result back in. Every decision
//! and every state write is made here, under contract.

pub mod model;
pub mod pagination;
pub mod state;
pub mod request;
pub mod network;
pub mod driver;
pub mod laws;






