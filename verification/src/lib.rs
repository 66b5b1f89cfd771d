//! A TCP relay whose data path is offloaded to an in-kernel socket map.
//!
//! Userspace accepts a connection, builds the outbound half (directly or
//! through a SOCKS5 proxy), and enrolls the socket pair in two kernel maps:
//! a lookup map from an endpoint key to a small slot index, and a socket map
//! from that slot to a socket. A stream-verdict program then redirects
//! segments kernel-to-kernel. This crate holds the verified control logic:
//! the flow-key encoding, the shared map controller with its slot allocator,
//! the verdict decision, and the per-connection lifecycle.

pub mod config;
pub mod key;
pub mod lifecycle;
pub mod shared;
pub mod verdict;
