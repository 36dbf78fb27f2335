//! The connection, channel and sender handles that the registry keeps for
//! each peer, and the few synchronous calls made on them.
//!
//! These values belong to `webrtc` and `tokio`; the library carries them
//! without looking inside.

use std::sync::Arc;

use vstd::prelude::*;

use crate::types::IceWsMessage;

verus! {

/// A WebRTC peer connection (`webrtc::peer_connection::RTCPeerConnection`).
#[verifier::external_type_specification]
#[verifier::external_body]
pub struct ExRTCPeerConnection(webrtc::peer_connection::RTCPeerConnection);

/// A WebRTC data channel (`webrtc::data_channel::RTCDataChannel`).
#[verifier::external_type_specification]
#[verifier::external_body]
pub struct ExRTCDataChannel(webrtc::data_channel::RTCDataChannel);

/// The sender side of a track added to a peer connection
/// (`webrtc::rtp_transceiver::rtp_sender::RTCRtpSender`).
#[verifier::external_type_specification]
#[verifier::external_body]
pub struct ExRTCRtpSender(webrtc::rtp_transceiver::rtp_sender::RTCRtpSender);

/// A session description ready to be applied to a peer connection
/// (`webrtc::peer_connection::sdp::session_description::RTCSessionDescription`).
#[verifier::external_type_specification]
#[verifier::external_body]
pub struct ExRTCSessionDescription(
    webrtc::peer_connection::sdp::session_description::RTCSessionDescription,
);

/// The sending half of an unbounded channel (`tokio::sync::mpsc::UnboundedSender`).
#[verifier::external_type_specification]
#[verifier::external_body]
#[verifier::reject_recursive_types(T)]
pub struct ExUnboundedSender<T>(tokio::sync::mpsc::UnboundedSender<T>);

/// The sending half of a one-shot channel (`tokio::sync::oneshot::Sender`).
#[verifier::external_type_specification]
#[verifier::external_body]
#[verifier::reject_recursive_types(T)]
pub struct ExOneshotSender<T>(tokio::sync::oneshot::Sender<T>);

/// A second handle on the value an `Arc` points to (`Arc::clone`): it is the
/// same value.
#[verifier::external_body]
pub(crate) fn share<T>(a: &Arc<T>) -> (b: Arc<T>)
    ensures
        b == *a,
{
    Arc::clone(a)
}

/// A second sender on the same channel (`UnboundedSender::clone`): it
/// feeds the same queue, so it stands for the same sender.
#[verifier::external_body]
pub(crate) fn another_sender(tx: &tokio::sync::mpsc::UnboundedSender<IceWsMessage>) -> (copy:
    tokio::sync::mpsc::UnboundedSender<IceWsMessage>)
    ensures
        copy == *tx,
{
    tx.clone()
}

} // verus!
