//! Streams of a browser.

pub mod recv;
pub mod send;
