//! A bidirectional WebSocket relay: one remote partner on one side, one local
//! WebSocket channel (outbound to a server, or inbound from a client) on the
//! other, with single-message buffering per direction and exponential backoff
//! for outbound reconnection.
//!
//! The library is the relay's decision logic. Every handler takes the current
//! state and one event, updates the state, and returns the effects that the
//! surrounding event loop must carry out.
pub mod backoff;
pub mod protocol;
pub mod wire;
pub mod relay;
pub mod events;
pub mod router;
pub mod persist;
pub mod laws;
