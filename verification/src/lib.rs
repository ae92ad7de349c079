//! Presence and broadcast coordination engine for session-scoped rooms.
//!
//! Clients connect over a persistent bidirectional channel, join a room, and
//! receive live updates (who is online, shared word list) as other members
//! act.  This crate holds the verified core of that engine: the connection
//! registry, the per-connection liveness protocol, the room-scoped fan-out
//! and exclusion logic, and the cache-backed presence reconciliation.  The
//! durable Room/Word/User Store and the ephemeral Presence Cache are outside
//! collaborators: their calls happen at the edge, and the functions here take
//! their results as plain values, so every decision made on those results is
//! verified for every outcome the collaborators can produce.

pub mod coordinator;
pub mod errors;
pub mod laws;
pub mod liveness;
pub mod messages;
pub mod models;
pub mod registry;
pub mod validators;
