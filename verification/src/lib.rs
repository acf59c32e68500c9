//! A verified SOCKS5 protocol engine.
//!
//! The library holds the pure protocol logic of a toggleable SOCKS5 proxy:
//! the address codec for the three wire address forms, authentication method
//! selection, the username/password subnegotiation, the server session state
//! machine, the client-role handshake used when chaining through an upstream
//! proxy, and the proxy's configuration values. All I/O (sockets, the
//! credential store, files) stays with the caller, which feeds bytes and
//! events in and writes the returned bytes out.

pub mod addr;
pub mod auth;
pub mod client;
pub mod config;
pub mod session;
pub mod socks;
