//! The signaling endpoints' decisions: the offer exchange and the ICE socket.

pub mod ice_socket;
pub mod offer;
