//! Signaling relay core: the wire messages, the registry of live peers and the
//! per-connection session state machine that routes signals between peers.

pub mod outbound;
pub mod protocol;
pub mod registry;
pub mod session;
