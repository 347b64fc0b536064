//! Decision logic of a reverse tunnel: one multiplexed session between a
//! client behind a restrictive network and a public server carries the
//! client's IP packets and the server's public connections as logical streams.
//!
//! Every loop of the tunnel is a state machine here. A driver performs the
//! action that a machine asks for (a read, a write, an accept, opening a
//! stream) and hands the outcome back as an event; the machine answers with
//! its next state and the next action.

pub mod bridge;
pub mod buffer;
pub mod config;
pub mod drain;
pub mod forwarder;
pub mod inbound;
pub mod listener;
pub mod machine;
pub mod relay;
