//! Verified decision logic of an Embassy tailnet node.
//!
//! The tasks of the node (direct UDP, DERP relay, WireGuard tunnel, HTTP
//! service) alternate between outside work and decisions. Everything that
//! decides stands here, on plain values and with its contract; the executor,
//! the sockets, the TLS sessions and the protocol engine stay with the caller.

pub mod bytes;
pub mod clock;
pub mod keys;
pub mod net;
pub mod tailnet;
pub mod tls;
