//! The tailnet side of the node: peers, datagrams, tasks and the HTTP service.

pub mod control;
pub mod datagram;
pub mod derp;
pub mod direct;
pub mod disco;
pub mod http;
pub mod packet_io;
pub mod peers;
pub mod reason;
pub mod state;
pub mod tunnel;
