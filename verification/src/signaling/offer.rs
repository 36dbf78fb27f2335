//! The decisions of `POST /offer`: validate the browser's offer, apply it,
//! answer it, register the new peer and hook its data channel and tracks.
//!
//! Each step on the peer connection is asynchronous and is carried out by
//! the caller, which reports its outcome to an [`OfferFlow`].

use std::sync::Arc;

use tokio::sync::oneshot;
use vstd::prelude::*;
use webrtc::peer_connection::RTCPeerConnection;

use crate::error::AppError;
use crate::operations::{empty_sdp_text, parse_sdp_offer, sdp_unmarshal_failure};
use crate::session::registry::{PeerHandle, SessionRegistry};
use crate::types::{is_random_uuid, OfferResponse, PeerId, SdpAnswer, SdpOffer};

verus! {

/// Where an offer exchange stands.
pub enum OfferStage {
    /// The validated offer is being applied as the remote description.
    ApplyingOffer(SdpOffer),
    /// The answer is being created.
    Answering,
    /// The new peer is registered; its data channel hook is being installed.
    HookingDataChannel(PeerId, String),
    /// The peer's track hook is being installed.
    HookingTrack(PeerId, String),
    /// The exchange is over, with this outcome.
    Done(Result<OfferResponse, AppError>),
}

/// What the caller is to do next.
pub enum OfferStep {
    /// Apply this offer as the remote description, then report the outcome.
    SetRemoteDescription(SdpOffer),
    /// Create the answer, then report it along with the peer connection.
    CreateAnswer,
    /// Install the data channel hook for this peer, then report the outcome.
    HookDataChannel(PeerId),
    /// Install the track hook for this peer, then report the outcome.
    HookTrack(PeerId),
    /// The exchange is over; its outcome is given by `finish`.
    Done,
}

/// The state of one `POST /offer` exchange.
pub struct OfferFlow {
    pub stage: OfferStage,
}

/// The step that goes with a stage.
pub open spec fn step_of(stage: OfferStage, step: OfferStep) -> bool {
    match stage {
        OfferStage::ApplyingOffer(o) => step matches OfferStep::SetRemoteDescription(x) && x.sdp@
            == o.sdp@,
        OfferStage::Answering => step is CreateAnswer,
        OfferStage::HookingDataChannel(id, _) => step == OfferStep::HookDataChannel(id),
        OfferStage::HookingTrack(id, _) => step == OfferStep::HookTrack(id),
        OfferStage::Done(_) => step is Done,
    }
}

/// The stage once applying the offer gave `outcome`: a failure ends the
/// exchange with that error; otherwise the answer is to be created. Outside
/// that stage nothing changes.
pub open spec fn after_remote_set(stage: OfferStage, outcome: Result<(), AppError>) -> OfferStage {
    match stage {
        OfferStage::ApplyingOffer(_) => match outcome {
            Ok(()) => OfferStage::Answering,
            Err(e) => OfferStage::Done(Err(e)),
        },
        _ => stage,
    }
}

/// The stage and registry once creating the answer gave `outcome`, from
/// `stage` and `registry`: a failure ends the exchange with that error and
/// registers nobody; an answer registers a new peer with a random
/// identifier, with `connection` and `disconnect_tx`, before its data channel
/// hook is installed. Outside that stage nothing changes.
pub open spec fn answered(
    stage: OfferStage,
    outcome: Result<SdpAnswer, AppError>,
    registry: Map<u128, PeerHandle>,
    connection: Arc<RTCPeerConnection>,
    disconnect_tx: oneshot::Sender<()>,
    new_stage: OfferStage,
    new_registry: Map<u128, PeerHandle>,
) -> bool {
    if stage is Answering {
        match outcome {
            Ok(answer) => new_stage matches OfferStage::HookingDataChannel(id, sdp) && {
                &&& sdp@ == answer.sdp@
                &&& is_random_uuid(id.0)
                &&& new_registry == registry.insert(
                    id.0,
                    PeerHandle {
                        data_channel: None,
                        peer_connection: Some(connection),
                        ws_tx: None,
                        disconnect_tx,
                    },
                )
            },
            Err(e) => new_stage == OfferStage::Done(Err::<OfferResponse, AppError>(e))
                && new_registry == registry,
        }
    } else {
        new_stage == stage && new_registry == registry
    }
}

/// The stage once installing the data channel hook gave `outcome`: a failure
/// ends the exchange with that error (the peer stays registered); otherwise
/// the track hook is to be installed. Outside that stage nothing changes.
pub open spec fn after_data_channel_hooked(stage: OfferStage, outcome: Result<(), AppError>) -> OfferStage {
    match stage {
        OfferStage::HookingDataChannel(id, sdp) => match outcome {
            Ok(()) => OfferStage::HookingTrack(id, sdp),
            Err(e) => OfferStage::Done(Err(e)),
        },
        _ => stage,
    }
}

/// The stage once installing the track hook gave `outcome`: a failure ends
/// the exchange with that error; otherwise it succeeds, answering with the
/// peer's identifier and the SDP answer. Outside that stage nothing changes.
pub open spec fn after_track_hooked(stage: OfferStage, outcome: Result<(), AppError>) -> OfferStage {
    match stage {
        OfferStage::HookingTrack(id, sdp) => match outcome {
            Ok(()) => OfferStage::Done(Ok(OfferResponse { peer_id: id, sdp })),
            Err(e) => OfferStage::Done(Err(e)),
        },
        _ => stage,
    }
}

impl OfferFlow {
    /// Starts the exchange for the offer in `body`.
    ///
    /// An offer that `parse_sdp_offer` refuses ends the exchange with its
    /// error before the peer connection is touched; an accepted one is to be
    /// applied unchanged.
    pub fn begin(body: SdpOffer) -> (r: (OfferFlow, OfferStep))
        ensures
            step_of(r.0.stage, r.1),
            body.sdp@.len() == 0 ==> (r.0.stage matches OfferStage::Done(Err(AppError::SdpParseFailed(m)))
                && m@ == empty_sdp_text()),
            body.sdp@.len() > 0 ==> match sdp_unmarshal_failure(body.sdp@) {
                None => r.0.stage matches OfferStage::ApplyingOffer(o) && o.sdp@ == body.sdp@,
                Some(text) => r.0.stage matches OfferStage::Done(Err(AppError::SdpParseFailed(m)))
                    && m@ == text,
            },
    {
        let flow = match parse_sdp_offer(body.sdp.as_str()) {
            Ok(validated) => OfferFlow { stage: OfferStage::ApplyingOffer(validated) },
            Err(e) => OfferFlow { stage: OfferStage::Done(Err(e)) },
        };
        let step = flow.current_step();
        (flow, step)
    }

    /// Takes in the outcome of applying the offer: a failure ends the
    /// exchange with that error; otherwise the answer is to be created.
    /// Outside that stage nothing changes.
    pub fn remote_description_set(&mut self, outcome: Result<(), AppError>) -> (step: OfferStep)
        ensures
            step_of(final(self).stage, step),
            final(self).stage == after_remote_set(old(self).stage, outcome),
    {
        if let OfferStage::ApplyingOffer(_) = self.stage {
            match outcome {
                Ok(()) => {
                    self.stage = OfferStage::Answering;
                },
                Err(e) => {
                    self.stage = OfferStage::Done(Err(e));
                },
            }
        }
        self.current_step()
    }

    /// Takes in the created answer. A failure ends the exchange with that
    /// error. Otherwise a new peer identifier is drawn and the peer is
    /// registered with `connection` and `disconnect_tx`, before its data
    /// channel hook is installed. Outside that stage nothing changes.
    pub fn answer_created(
        &mut self,
        outcome: Result<SdpAnswer, AppError>,
        registry: &mut SessionRegistry,
        connection: Arc<RTCPeerConnection>,
        disconnect_tx: oneshot::Sender<()>,
    ) -> (step: OfferStep)
        ensures
            step_of(final(self).stage, step),
            answered(
                old(self).stage,
                outcome,
                old(registry)@,
                connection,
                disconnect_tx,
                final(self).stage,
                final(registry)@,
            ),
    {
        if let OfferStage::Answering = self.stage {
            match outcome {
                Ok(answer) => {
                    let peer_id = PeerId::new();
                    let handle = PeerHandle {
                        data_channel: None,
                        peer_connection: Some(connection),
                        ws_tx: None,
                        disconnect_tx,
                    };
                    let _replaced = registry.register(peer_id, handle);
                    self.stage = OfferStage::HookingDataChannel(peer_id, answer.sdp);
                },
                Err(e) => {
                    self.stage = OfferStage::Done(Err(e));
                },
            }
        }
        self.current_step()
    }

    /// Takes in the outcome of installing the data channel hook: a failure
    /// ends the exchange with that error (the peer stays registered);
    /// otherwise the track hook is to be installed. Outside that stage nothing
    /// changes.
    pub fn data_channel_hooked(&mut self, outcome: Result<(), AppError>) -> (step: OfferStep)
        ensures
            step_of(final(self).stage, step),
            final(self).stage == after_data_channel_hooked(old(self).stage, outcome),
    {
        let mut stage = OfferStage::Answering;
        std::mem::swap(&mut stage, &mut self.stage);
        self.stage = match stage {
            OfferStage::HookingDataChannel(id, sdp) => match outcome {
                Ok(()) => OfferStage::HookingTrack(id, sdp),
                Err(e) => OfferStage::Done(Err(e)),
            },
            other => other,
        };
        self.current_step()
    }

    /// Takes in the outcome of installing the track hook: a failure ends the
    /// exchange with that error; otherwise the exchange succeeds, answering
    /// with the peer's identifier and the SDP answer. Outside that stage
    /// nothing changes.
    pub fn track_hooked(&mut self, outcome: Result<(), AppError>) -> (step: OfferStep)
        ensures
            step_of(final(self).stage, step),
            final(self).stage == after_track_hooked(old(self).stage, outcome),
    {
        let mut stage = OfferStage::Answering;
        std::mem::swap(&mut stage, &mut self.stage);
        self.stage = match stage {
            OfferStage::HookingTrack(id, sdp) => match outcome {
                Ok(()) => OfferStage::Done(Ok(OfferResponse { peer_id: id, sdp })),
                Err(e) => OfferStage::Done(Err(e)),
            },
            other => other,
        };
        self.current_step()
    }

    /// The step that goes with the current stage.
    pub fn current_step(&self) -> (step: OfferStep)
        ensures
            step_of(self.stage, step),
    {
        match &self.stage {
            OfferStage::ApplyingOffer(o) => OfferStep::SetRemoteDescription(
                SdpOffer { sdp: o.sdp.clone() },
            ),
            OfferStage::Answering => OfferStep::CreateAnswer,
            OfferStage::HookingDataChannel(id, _) => OfferStep::HookDataChannel(*id),
            OfferStage::HookingTrack(id, _) => OfferStep::HookTrack(*id),
            OfferStage::Done(_) => OfferStep::Done,
        }
    }

    /// The outcome of a finished exchange.
    pub fn finish(self) -> (r: Result<OfferResponse, AppError>)
        requires
            self.stage is Done,
        ensures
            self.stage == OfferStage::Done(r),
    {
        match self.stage {
            OfferStage::Done(r) => r,
            _ => {
                proof {
                    assert(false);
                }
                Err(AppError::SignalingError(String::new()))
            },
        }
    }
}

} // verus!
