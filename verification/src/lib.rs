//! A signaling server for a WebRTC selective forwarding unit: SDP offer and
//! answer exchange, trickle ICE over a WebSocket, track fan-out to every peer
//! and a public chat over data channels.

pub mod error;
pub mod operations;
pub mod types;
pub mod handles;
pub mod session;
pub mod signaling;
pub mod peer;
pub mod laws;
pub mod config;
