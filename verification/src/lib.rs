//! The core of an asynchronous TCP server framework with a pluggable transport.
//!
//! The crate holds the rules of the framework as ordinary, synchronous
//! functions with contracts: what a per-connection peer allows while it is
//! connected and after it was disconnected, when a builder holds a complete
//! configuration, how a server goes from idle to running exactly once, and what
//! the accept loop does with each outcome of an accept. Awaiting the sockets is
//! left to the caller, which hands every outcome back to these functions.
pub mod addr;
pub mod builder;
pub mod connection;
pub mod error;
pub mod peer;
pub mod tcpserver;
pub mod transport;

pub use addr::SocketAddress;
pub use builder::{Builder, ServerConfig, Setting};
pub use connection::{finish, negotiated, Connection, Negotiated};
pub use error::Error;
pub use peer::{teardown, TCPPeer};
pub use tcpserver::{block_result, AcceptLoop, AcceptStep, ConnectFilter, TCPServer};
