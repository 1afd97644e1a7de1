//! A chat-relay library: per-conversation transcript history with
//! append/clear semantics, message routing decisions, and the wire
//! formats spoken to a hosted completion endpoint.

pub mod completion;
pub mod laws;
pub mod router;
pub mod store;
pub mod transcript;
pub mod wire;
