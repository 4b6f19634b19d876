//! The decision logic of a local port forwarder.
//!
//! The forwarder listens on a loopback port and relays what arrives there to
//! one fixed destination, over TCP, over UDP, or over both. This crate holds
//! every decision of that engine as verified functions on plain values; the
//! sockets, the tasks and the threads belong to the program that drives it.

pub mod coordinator;
pub mod datagram;
pub mod endpoint;
pub mod fault;
pub mod features;
pub mod listener;
pub mod pool;
pub mod relay;
