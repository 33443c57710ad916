//! Tunnel engine of a point-to-point VPN that carries IPv4 packets over a single
//! UDP flow.
//!
//! The crate holds the logic of the tunnel and proves it against contracts: the
//! wire format of the messages, the sealed frame around them, the table of
//! clients a server keeps, and the decisions both ends take for every datagram
//! and every packet. Reading from and writing to sockets and devices is left to
//! the program that drives the engine.

pub mod bytes;
pub mod cli;
pub mod client;
pub mod compress;
pub mod crypto;
pub mod device;
pub mod frame;
pub mod message;
pub mod packet;
pub mod registry;
pub mod server;
pub mod utils;
