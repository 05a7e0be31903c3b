//! The desktop plugin: sessions and streams behind numbers.

pub mod desktop;
pub mod error;
pub mod keeping;
pub mod rpc;
