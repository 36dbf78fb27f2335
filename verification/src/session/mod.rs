//! The registry of connected peers.

pub mod registry;
pub mod fanout;
