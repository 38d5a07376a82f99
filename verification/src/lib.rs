//! Control-plane message bus core: hierarchical service-path addresses,
//! a longest-prefix route table, local/remote next-hop forwarding with TTL
//! loop prevention, and a thin client facade for actor mailboxes.

pub mod connection;
pub mod edge_runtime;
pub mod laws;
pub mod message;
pub mod multiplexer;
pub mod nexthop;
pub mod result;
pub mod service_path;
pub mod simple_client;
