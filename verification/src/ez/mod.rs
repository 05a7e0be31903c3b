//! The QUIC layer: per-stream state, the driver that moves bytes between the streams and the
//! connection, and the record of how a connection ended.

pub mod allowance;
pub mod client;
pub mod closing;
pub mod connection;
pub mod delivery;
pub mod driver;
pub mod error;
pub mod opening;
pub mod receiving;
pub mod recv;
pub mod schedule;
pub mod send;
pub mod sending;
pub mod server;
pub mod settings;
pub mod stream;
pub mod wakeup;
