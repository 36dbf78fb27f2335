//! The server's WebRTC peer and the chat messages it relays.

use std::sync::Arc;

use vstd::prelude::*;
use vstd::utf8::{decode_utf8, valid_utf8};
use webrtc::peer_connection::sdp::session_description::RTCSessionDescription;
use webrtc::peer_connection::RTCPeerConnection;

use crate::error::AppError;
use crate::handles::share;
use crate::types::{ChatMessage, PeerId, SdpAnswer, SdpOffer};

verus! {

/// The STUN servers a peer connection is configured with.
pub open spec fn stun_urls() -> Seq<Seq<char>> {
    seq!["stun:stun.l.google.com:19302"@, "stun:stun1.l.google.com:19302"@]
}

/// An ICE server entry of a connection's configuration.
pub struct IceServer {
    pub urls: Vec<String>,
    pub username: String,
    pub credential: String,
}

/// The server side of the WebRTC exchange: one peer connection.
pub struct WebRtcPeer {
    pc: Arc<RTCPeerConnection>,
}

impl WebRtcPeer {
    /// The peer connection this peer drives.
    pub closed spec fn connection(self) -> Arc<RTCPeerConnection> {
        self.pc
    }

    /// A peer driving the connection `pc`.
    pub fn from_connection(pc: Arc<RTCPeerConnection>) -> (p: WebRtcPeer)
        ensures
            p.connection() == pc,
    {
        WebRtcPeer { pc }
    }

    /// A handle on the peer's connection.
    pub fn peer_connection(&self) -> (pc: Arc<RTCPeerConnection>)
        ensures
            pc == self.connection(),
    {
        share(&self.pc)
    }

    /// The peer built from what creating its connection gave: a peer driving
    /// the new connection, or a `PeerConnectionFailed` error carrying the
    /// failure's text.
    pub fn from_connection_outcome(outcome: Result<RTCPeerConnection, String>) -> (r: Result<
        WebRtcPeer,
        AppError,
    >)
        ensures
            match outcome {
                Ok(pc) => r matches Ok(p) && *p.connection() == pc,
                Err(e) => r matches Err(AppError::PeerConnectionFailed(m)) && m@ == e@,
            },
    {
        match outcome {
            Ok(pc) => Ok(WebRtcPeer { pc: Arc::new(pc) }),
            Err(e) => Err(AppError::PeerConnectionFailed(e)),
        }
    }

    /// The ICE server record the connection is configured with: the STUN
    /// URLs, with no username and no credential.
    pub fn ice_server() -> (server: IceServer)
        ensures
            server.urls@.len() == stun_urls().len(),
            forall|i: int| 0 <= i < server.urls@.len() ==> #[trigger] server.urls@[i]@ == stun_urls()[i],
            server.username@ == Seq::<char>::empty(),
            server.credential@ == Seq::<char>::empty(),
    {
        IceServer { urls: Self::ice_server_urls(), username: String::new(), credential: String::new() }
    }

    /// The URLs of the STUN servers the connection is configured with.
    pub fn ice_server_urls() -> (urls: Vec<String>)
        ensures
            urls@.len() == stun_urls().len(),
            forall|i: int| 0 <= i < urls@.len() ==> #[trigger] urls@[i]@ == stun_urls()[i],
    {
        let mut urls: Vec<String> = Vec::new();
        urls.push(String::from_str("stun:stun.l.google.com:19302"));
        urls.push(String::from_str("stun:stun1.l.google.com:19302"));
        urls
    }
}

/// What `webrtc::peer_connection::sdp::session_description::RTCSessionDescription::offer`
/// makes of the given SDP text: the offer description built from it, or the
/// text of the error when it does not parse.
pub uninterp spec fn offer_description_outcome(sdp: Seq<char>) -> Result<RTCSessionDescription, Seq<char>>;

/// Wraps an SDP offer for a peer connection (`RTCSessionDescription::offer`),
/// keeping the error's text on failure.
#[verifier::external_body]
fn offer_description(sdp: String) -> (desc: Result<RTCSessionDescription, String>)
    ensures
        match desc {
            Ok(d) => offer_description_outcome(sdp@) matches Ok(x) && x == d,
            Err(e) => offer_description_outcome(sdp@) matches Err(t) && t == e@,
        },
{
    match RTCSessionDescription::offer(sdp) {
        Ok(d) => Ok(d),
        Err(e) => Err(e.to_string()),
    }
}

/// The outcome of wrapping SDP text for a peer connection: the description,
/// or an `SdpParseFailed` error carrying the parser's text.
pub fn description_or_parse_error(desc: Result<RTCSessionDescription, String>) -> (r: Result<
    RTCSessionDescription,
    AppError,
>)
    ensures
        match desc {
            Ok(d) => r == Ok::<RTCSessionDescription, AppError>(d),
            Err(e) => r matches Err(AppError::SdpParseFailed(m)) && m@ == e@,
        },
{
    match desc {
        Ok(d) => Ok(d),
        Err(e) => Err(AppError::SdpParseFailed(e)),
    }
}

/// The remote description for the browser's offer: the offer description
/// webrtc builds from the offer's own SDP text, or an `SdpParseFailed` error
/// carrying the parser's text when webrtc cannot parse it.
pub fn remote_offer_description(offer: SdpOffer) -> (r: Result<RTCSessionDescription, AppError>)
    ensures
        match offer_description_outcome(offer.sdp@) {
            Ok(d) => r matches Ok(x) && x == d,
            Err(text) => r matches Err(AppError::SdpParseFailed(m)) && m@ == text,
        },
{
    description_or_parse_error(offer_description(offer.sdp))
}

/// The outcome of applying a session description to the connection: a
/// failure becomes an `SdpParseFailed` error carrying its text.
pub fn description_applied(outcome: Result<(), String>) -> (r: Result<(), AppError>)
    ensures
        match outcome {
            Ok(()) => r is Ok,
            Err(e) => r matches Err(AppError::SdpParseFailed(m)) && m@ == e@,
        },
{
    match outcome {
        Ok(()) => Ok(()),
        Err(e) => Err(AppError::SdpParseFailed(e)),
    }
}

/// The answer once it was created and made the local description (its SDP
/// text), or the first failure's text: the answer carries that SDP; a failure
/// becomes an `SdpParseFailed` error carrying its text.
pub fn answer_from_steps(applied: Result<String, String>) -> (r: Result<SdpAnswer, AppError>)
    ensures
        match applied {
            Ok(sdp) => r matches Ok(a) && a.sdp == sdp,
            Err(e) => r matches Err(AppError::SdpParseFailed(m)) && m@ == e@,
        },
{
    match applied {
        Ok(sdp) => Ok(SdpAnswer { sdp }),
        Err(e) => Err(AppError::SdpParseFailed(e)),
    }
}

/// The outcome of adding a browser candidate to the connection: a failure
/// becomes an `IceCandidateFailed` error carrying its text.
pub fn candidate_added(outcome: Result<(), String>) -> (r: Result<(), AppError>)
    ensures
        match outcome {
            Ok(()) => r is Ok,
            Err(e) => r matches Err(AppError::IceCandidateFailed(m)) && m@ == e@,
        },
{
    match outcome {
        Ok(()) => Ok(()),
        Err(e) => Err(AppError::IceCandidateFailed(e)),
    }
}

/// What `String::from_utf8_lossy` makes of the given bytes.
pub uninterp spec fn lossy_utf8(bytes: Seq<u8>) -> Seq<char>;

/// Decodes `bytes` as UTF-8, replacing invalid sequences with U+FFFD
/// (`String::from_utf8_lossy`); valid UTF-8 is decoded as it stands.
#[verifier::external_body]
fn decode_lossy(bytes: &[u8]) -> (text: String)
    ensures
        text@ == lossy_utf8(bytes@),
        valid_utf8(bytes@) ==> text@ == decode_utf8(bytes@),
{
    String::from_utf8_lossy(bytes).to_string()
}

/// The chat message that a data channel message from `from` becomes: a text
/// message is relayed with its text, stamped with the channel owner's
/// identifier whatever the text claims; a binary message is not relayed.
pub fn chat_message(from: PeerId, is_string: bool, data: &[u8]) -> (m: Option<ChatMessage>)
    ensures
        m is Some <==> is_string,
        m matches Some(msg) ==> msg.from == from && msg.text@ == lossy_utf8(data@),
{
    if is_string {
        Some(ChatMessage { from, text: decode_lossy(data) })
    } else {
        None
    }
}

} // verus!
