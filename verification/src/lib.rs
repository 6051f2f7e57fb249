//! Runtime core of a fixed-tick multiplayer simulation server.
//!
//! The crate owns the shared server state, admits and hands off network
//! connections into a single-threaded simulation loop, and coordinates a
//! race-free shutdown. Wire encoding, the accept loop and the simulation
//! world itself are external collaborators reached through narrow
//! interfaces; what is here is the concurrency and lifecycle contract.

pub mod clock;
pub mod keys;
pub mod limiter;
pub mod queue;
pub mod registry;
pub mod server;
pub mod types;
pub mod web;
