//! The values that travel between the browser, the signaling endpoints and the
//! session registry.

use vstd::prelude::*;

verus! {

/// Identifier handed to a browser when its offer is accepted.
///
/// It holds the 128 bits of a UUID, most significant byte first.
#[derive(Clone, Copy, Debug, PartialEq, Eq, Hash, Structural)]
pub struct PeerId(pub u128);

/// The bits that mark a randomly generated (version 4, RFC 4122 variant) UUID:
/// the version nibble reads 4 and the two variant bits read `10`.
pub open spec fn is_random_uuid(bits: u128) -> bool {
    bits & 0xf000_c000_0000_0000_0000u128 == 0x4000_8000_0000_0000_0000u128
}

/// Draws a fresh random UUID with `uuid::Uuid::new_v4` and returns its bits.
///
/// The value itself comes from the operating system's random source, so
/// nothing is claimed of it but the version and variant bits that
/// `new_v4` always sets.
#[verifier::external_body]
fn random_uuid_bits() -> (bits: u128)
    ensures
        is_random_uuid(bits),
{
    uuid::Uuid::new_v4().as_u128()
}

impl PeerId {
    /// A new identifier made of a random (version 4) UUID.
    pub fn new() -> (id: PeerId)
        ensures
            is_random_uuid(id.0),
    {
        PeerId(random_uuid_bits())
    }
}

/// The answer to `POST /offer`: the identifier given to the new peer and the
/// server's SDP answer.
#[derive(Debug)]
pub struct OfferResponse {
    pub peer_id: PeerId,
    pub sdp: String,
}

/// A chat line fanned out over the data channels, stamped with its sender.
#[derive(Debug)]
pub struct ChatMessage {
    pub from: PeerId,
    pub text: String,
}

/// An SDP offer.
#[derive(Debug)]
pub struct SdpOffer {
    pub sdp: String,
}

/// An SDP answer.
#[derive(Debug)]
pub struct SdpAnswer {
    pub sdp: String,
}

/// A trickled ICE candidate.
#[derive(Debug, Clone)]
pub struct IceCandidate {
    pub candidate: String,
    pub sdp_mid: Option<String>,
    pub sdp_mline_index: Option<u16>,
}

/// A message on the ICE WebSocket, in either direction.
#[derive(Debug)]
pub enum IceWsMessage {
    Candidate(IceCandidate),
    Done,
    Offer(SdpOffer),
    Answer(SdpAnswer),
}

} // verus!
