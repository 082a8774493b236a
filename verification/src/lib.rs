//! A small QUIC echo service: a server that echoes every message, and two
//! clients that send lines of text to it.
//!
//! The library holds what the programs decide and compute. It performs no
//! network, file or terminal access: where a procedure alternates such work
//! with decisions, the library offers one step of it, from an event to the next
//! action, and the program around it performs the action.

pub mod cert;
pub mod client;
pub mod client_layered;
pub mod config;
pub mod connection;
pub mod echo;
pub mod error;
pub mod handshake;
pub mod header;
pub mod input;
pub mod outgoing;
pub mod packets;
pub mod server;
pub mod streams;
pub mod table;
pub mod text;

pub use cert::{generate_cert_and_key, generate_cert_and_key_for_domain};
pub use config::create_simple_config;
