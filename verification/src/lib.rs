//! The core of an HTTP CONNECT tunnelling proxy, free of I/O.
//!
//! Every decision the proxy takes is a function from plain values to plain
//! values: which requests open a tunnel, what the handshake answers, in which
//! order a tunnel's background task upgrades, dials and relays, and how bytes
//! move between the two streams of a tunnel. The program around this library
//! owns the sockets; it performs what the library asks for and reports back
//! what happened.

pub mod config;
pub mod proxy;
pub mod relay;
pub mod session;
pub mod target;
