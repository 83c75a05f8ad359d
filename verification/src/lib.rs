//! Verified core of a TUIC proxy: configuration options, the TUIC wire
//! format, address handling and the decisions taken by the relay.

pub mod text;
pub mod options;
pub mod net;
pub mod address;
pub mod header;
pub mod server_addr;
pub mod socks5;
pub mod udp_session;
pub mod relay;
pub mod camouflage;
pub mod transfer;
pub mod certs;
pub mod log_file;
