//! Tunnels TCP connections to a peer over an authenticated peer-to-peer
//! transport, with SOCKS5 at the egress side.
//!
//! Each module holds one part of the logic as verified state machines and
//! functions; the I/O around them is left to the caller.
pub mod access;
pub mod config;
pub mod dialer;
pub mod identity;
pub mod relay;
pub mod session;
