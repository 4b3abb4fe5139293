//! A DNS forwarding relay, as a verified core.
//!
//! The relay takes DNS queries from local clients over UDP and TCP, sends an
//! equivalent query to one upstream resolver, and hands the upstream's answer
//! back to the client that asked. This crate holds the decisions of that
//! relay: what to send upstream for an inbound message, which replies may be
//! relayed and to whom, how messages are framed on a stream, who may use the
//! shared upstream connection, and when the listeners stop. Sockets, threads
//! and signals are left to the program that drives these functions.

pub mod codec;
pub mod connection;
pub mod datagram;
pub mod error;
pub mod exchange;
pub mod framing;
pub mod lifecycle;
pub mod session;
pub mod upstream;
pub mod wire;
