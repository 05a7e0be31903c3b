//! WebTransport sessions and streams as verified state machines.
//!
//! The library decides; it performs no I/O. Each machine takes an event, updates its state and
//! says which call to make next on the QUIC connection.

pub mod address;
pub mod buffer;
pub mod building;
pub mod client;
pub mod codes;
pub mod connect;
pub mod driver;
pub mod error;
pub mod ez;
pub mod proto;
pub mod quinn;
pub mod recv;
pub mod send;
pub mod server;
pub mod session;
pub mod sharing;
pub mod state;
pub mod task;
pub mod tauri;
pub mod text;
pub mod wasm;
