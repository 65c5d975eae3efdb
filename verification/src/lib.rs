//! UDP-over-TCP tunnelling for SOCKS5 UDP ASSOCIATE.
//!
//! A front agent accepts SOCKS5 clients and a back agent owns real UDP
//! egress; the two are joined by one TCP connection that carries addressed,
//! length-prefixed datagrams.  This crate holds the protocol: the wire
//! format of a tunnel frame, the per-datagram decisions of the relay pumps,
//! the bookkeeping of an association and the order of steps of a session.
//! Sockets, tasks and the command line belong to the program around it.

pub mod address;
pub mod allocator;
pub mod back;
pub mod config;
pub mod datagram;
pub mod error;
pub mod frame;
pub mod front;
pub mod hostport;
pub mod session;
pub mod wire;
