//! Adding a newly published track to every other peer.
//!
//! The work on each connection is asynchronous (adding the track, creating and
//! applying a renegotiation offer), so it is done by the caller; this module
//! decides what comes next from what each step reported, and which offer goes
//! to which peer's WebSocket.

use std::sync::Arc;

use vstd::prelude::*;
use webrtc::peer_connection::RTCPeerConnection;
use webrtc::rtp_transceiver::rtp_sender::RTCRtpSender;

use crate::error::AppError;
use crate::handles::share;
use crate::session::registry::{receives_track, SessionRegistry, TrackTarget, WsDelivery};
use crate::types::{IceWsMessage, PeerId, SdpOffer};

verus! {

/// Where a fan-out stands.
#[derive(PartialEq, Eq, Structural, Clone, Copy)]
pub enum FanoutPhase {
    /// The track is to be added to the current target's connection.
    AddingTrack,
    /// The track was added; the current target is to be sent a new offer.
    Renegotiating,
    /// Nothing is left to do.
    Finished,
}

/// What the caller is to do next.
pub enum FanoutStep {
    /// Add the track to this connection and report the sender
    /// (`RTCPeerConnection::add_track`).
    AddTrack(Arc<RTCPeerConnection>),
    /// Create an offer on this connection, make it the local description and
    /// report the offer's SDP (`create_offer`, then `set_local_description`).
    Renegotiate(Arc<RTCPeerConnection>),
    /// The fan-out is over; its outcome is given by `finish`.
    Finished,
}

/// What a fan-out amounts to: the targets in the order they are served, where
/// it stands, the sender waiting for its renegotiation, the sender obtained
/// for each target served so far, and the error that ended it, if one did.
pub struct FanoutModel {
    pub plan: Seq<TrackTarget>,
    pub phase: FanoutPhase,
    pub pending: Option<Arc<RTCRtpSender>>,
    pub senders: Seq<(PeerId, Arc<RTCRtpSender>)>,
    pub failure: Option<AppError>,
}

/// The phase in which `served` of `n` targets have been served and the next,
/// if any, is to receive the track.
pub open spec fn phase_after(served: nat, n: nat) -> FanoutPhase {
    if served < n {
        FanoutPhase::AddingTrack
    } else {
        FanoutPhase::Finished
    }
}

impl FanoutModel {
    /// The target being served.
    pub open spec fn current(self) -> TrackTarget {
        self.plan[self.senders.len() as int]
    }

    /// The fan-out once adding the track to the current target gave `added`.
    ///
    /// A failure ends it with a `SignalingError` carrying its text. A sender
    /// either completes the target (when it has no WebSocket to be told of the
    /// change) or waits for the renegotiation. Outside the `AddingTrack` phase
    /// nothing changes.
    pub open spec fn after_track_added(self, added: Result<Arc<RTCRtpSender>, String>) -> FanoutModel {
        if self.phase != FanoutPhase::AddingTrack {
            self
        } else {
            match added {
                Err(e) => FanoutModel {
                    phase: FanoutPhase::Finished,
                    failure: Some(AppError::SignalingError(e)),
                    ..self
                },
                Ok(s) => if self.current().ws_tx is Some {
                    FanoutModel { phase: FanoutPhase::Renegotiating, pending: Some(s), ..self }
                } else {
                    FanoutModel {
                        phase: phase_after(self.senders.len() + 1, self.plan.len()),
                        senders: self.senders.push((self.current().peer, s)),
                        ..self
                    }
                },
            }
        }
    }

    /// The fan-out once renegotiating with the current target gave `offer`.
    ///
    /// A failure ends it with an `SdpParseFailed` error carrying its text; an
    /// offer completes the target with the sender that was waiting. Outside
    /// the `Renegotiating` phase nothing changes.
    pub open spec fn after_renegotiated(self, offer: Result<String, String>) -> FanoutModel {
        if self.phase != FanoutPhase::Renegotiating {
            self
        } else {
            match offer {
                Err(e) => FanoutModel {
                    phase: FanoutPhase::Finished,
                    failure: Some(AppError::SdpParseFailed(e)),
                    ..self
                },
                Ok(_) => FanoutModel {
                    phase: phase_after(self.senders.len() + 1, self.plan.len()),
                    pending: None,
                    senders: self.senders.push((self.current().peer, self.pending.unwrap())),
                    ..self
                },
            }
        }
    }
}

/// An outcome reported to a fan-out by its caller.
pub enum FanoutEvent {
    TrackAdded(Result<Arc<RTCRtpSender>, String>),
    Renegotiated(Result<String, String>),
}

impl FanoutModel {
    /// The fan-out once `e` is taken in.
    pub open spec fn after(self, e: FanoutEvent) -> FanoutModel {
        match e {
            FanoutEvent::TrackAdded(added) => self.after_track_added(added),
            FanoutEvent::Renegotiated(offer) => self.after_renegotiated(offer),
        }
    }

    /// The fan-out once the events are taken in, in order.
    pub open spec fn run(self, events: Seq<FanoutEvent>) -> FanoutModel
        decreases events.len(),
    {
        if events.len() == 0 {
            self
        } else {
            self.run(events.drop_last()).after(events.last())
        }
    }

    /// `e` is what the fan-out's current step asks for: an added track while
    /// adding, an offer while renegotiating.
    pub open spec fn answers_step(self, e: FanoutEvent) -> bool {
        match e {
            FanoutEvent::TrackAdded(_) => self.phase == FanoutPhase::AddingTrack,
            FanoutEvent::Renegotiated(_) => self.phase == FanoutPhase::Renegotiating,
        }
    }

    /// Each event answers the step the fan-out stood at when it came.
    pub open spec fn driven_by(self, events: Seq<FanoutEvent>) -> bool {
        forall|i: int|
            #![trigger events[i]]
            0 <= i < events.len() ==> self.run(events.take(i)).answers_step(events[i])
    }
}

/// Every step of the run succeeded.
pub open spec fn all_succeeded(events: Seq<FanoutEvent>) -> bool {
    forall|i: int|
        #![trigger events[i]]
        0 <= i < events.len() ==> match events[i] {
            FanoutEvent::TrackAdded(added) => added is Ok,
            FanoutEvent::Renegotiated(offer) => offer is Ok,
        }
}

/// The senders that the track additions of a run gave, in order.
pub open spec fn added_senders(events: Seq<FanoutEvent>) -> Seq<Arc<RTCRtpSender>>
    decreases events.len(),
{
    if events.len() == 0 {
        Seq::empty()
    } else {
        let before = added_senders(events.drop_last());
        match events.last() {
            FanoutEvent::TrackAdded(Ok(s)) => before.push(s),
            _ => before,
        }
    }
}

/// How many renegotiation outcomes a run reports.
pub open spec fn renegotiation_count(events: Seq<FanoutEvent>) -> nat
    decreases events.len(),
{
    if events.len() == 0 {
        0
    } else {
        renegotiation_count(events.drop_last()) + match events.last() {
            FanoutEvent::Renegotiated(_) => 1nat,
            FanoutEvent::TrackAdded(_) => 0nat,
        }
    }
}

/// How many of the targets have a WebSocket sender.
pub open spec fn socket_target_count(targets: Seq<TrackTarget>) -> nat
    decreases targets.len(),
{
    if targets.len() == 0 {
        0
    } else {
        socket_target_count(targets.drop_last()) + if targets.last().ws_tx is Some {
            1nat
        } else {
            0nat
        }
    }
}

/// The progress of adding one track to a list of target peers, in order.
pub struct TrackFanout {
    plan: Ghost<Seq<TrackTarget>>,
    remaining: Vec<TrackTarget>,
    current: Option<TrackTarget>,
    phase: FanoutPhase,
    pending: Option<Arc<RTCRtpSender>>,
    senders: Vec<(PeerId, Arc<RTCRtpSender>)>,
    failure: Option<AppError>,
}

impl TrackFanout {
    /// What the fan-out amounts to.
    pub closed spec fn model(self) -> FanoutModel {
        FanoutModel {
            plan: self.plan@,
            phase: self.phase,
            pending: self.pending,
            senders: self.senders@,
            failure: self.failure,
        }
    }

    /// The peers the track goes to, in the order they are served.
    pub open spec fn targets(self) -> Seq<TrackTarget> {
        self.model().plan
    }

    /// How many targets have been served in full.
    pub open spec fn served(self) -> nat {
        self.model().senders.len()
    }

    /// Where the fan-out stands.
    pub open spec fn phase(self) -> FanoutPhase {
        self.model().phase
    }

    /// The fan-out's bookkeeping agrees with itself: one sender per served
    /// target, in order, and a phase that matches what is left.
    pub closed spec fn wf(self) -> bool {
        let n = self.senders@.len();
        &&& n <= self.plan@.len()
        &&& forall|i: int|
            #![trigger self.senders@[i]]
            0 <= i < n ==> self.senders@[i].0 == self.plan@[i].peer
        &&& self.phase != FanoutPhase::Finished ==> {
            &&& n < self.plan@.len()
            &&& self.failure is None
            &&& self.current == Some(self.plan@[n as int])
            &&& self.remaining@ == self.plan@.skip((n + 1) as int)
        }
        &&& self.phase == FanoutPhase::Finished ==> (self.failure is Some || n == self.plan@.len())
        &&& self.phase == FanoutPhase::Renegotiating ==> self.pending is Some
            && self.plan@[n as int].ws_tx is Some
    }

    /// Starts adding a track published by `publisher` to the other peers of
    /// `registry`: those that have a peer connection.
    pub fn start(registry: &SessionRegistry, publisher: PeerId) -> (f: TrackFanout)
        ensures
            f.wf(),
            forall|i: int|
                #![trigger f.targets()[i]]
                0 <= i < f.targets().len() ==> {
                    let t = f.targets()[i];
                    &&& receives_track(registry@, publisher.0, t.peer.0)
                    &&& registry@[t.peer.0].peer_connection == Some(t.connection)
                    &&& t.ws_tx == registry@[t.peer.0].ws_tx
                },
            forall|i: int, j: int|
                #![trigger f.targets()[i], f.targets()[j]]
                0 <= i < j < f.targets().len() ==> f.targets()[i].peer != f.targets()[j].peer,
            forall|k: u128|
                #[trigger] receives_track(registry@, publisher.0, k) ==> exists|i: int|
                    #![trigger f.targets()[i]]
                    0 <= i < f.targets().len() && f.targets()[i].peer.0 == k,
            f.model().senders == Seq::<(PeerId, Arc<RTCRtpSender>)>::empty(),
            f.model().pending is None,
            f.model().failure is None,
            f.model().phase == phase_after(0, f.targets().len()),
    {
        let targets = registry.track_targets(publisher);
        let ghost plan = targets@;
        let mut remaining = targets;
        if remaining.len() > 0 {
            let first = remaining.remove(0);
            assert(remaining@ =~= plan.skip(1));
            TrackFanout {
                plan: Ghost(plan),
                remaining,
                current: Some(first),
                phase: FanoutPhase::AddingTrack,
                pending: None,
                senders: Vec::new(),
                failure: None,
            }
        } else {
            TrackFanout {
                plan: Ghost(plan),
                remaining,
                current: None,
                phase: FanoutPhase::Finished,
                pending: None,
                senders: Vec::new(),
                failure: None,
            }
        }
    }

    /// What the caller is to do next: add the track to the current target, or
    /// renegotiate with it, or nothing.
    pub fn step(&self) -> (s: FanoutStep)
        requires
            self.wf(),
        ensures
            self.phase() == FanoutPhase::AddingTrack ==> (s matches FanoutStep::AddTrack(pc)
                && pc == self.model().current().connection),
            self.phase() == FanoutPhase::Renegotiating ==> (s matches FanoutStep::Renegotiate(pc)
                && pc == self.model().current().connection),
            self.phase() == FanoutPhase::Finished ==> s is Finished,
    {
        match self.phase {
            FanoutPhase::Finished => FanoutStep::Finished,
            FanoutPhase::AddingTrack => match &self.current {
                Some(t) => FanoutStep::AddTrack(share(&t.connection)),
                None => {
                    proof {
                        assert(false);
                    }
                    FanoutStep::Finished
                },
            },
            FanoutPhase::Renegotiating => match &self.current {
                Some(t) => FanoutStep::Renegotiate(share(&t.connection)),
                None => {
                    proof {
                        assert(false);
                    }
                    FanoutStep::Finished
                },
            },
        }
    }

    /// Moves on to the next target once the current one is complete.
    fn advance(&mut self)
        requires
            old(self).senders@.len() <= old(self).plan@.len(),
            forall|i: int|
                #![trigger old(self).senders@[i]]
                0 <= i < old(self).senders@.len() ==> old(self).senders@[i].0 == old(self).plan@[i].peer,
            old(self).remaining@ == old(self).plan@.skip(old(self).senders@.len() as int),
            old(self).failure is None,
        ensures
            final(self).wf(),
            final(self).model() == (FanoutModel {
                phase: phase_after(old(self).senders@.len(), old(self).plan@.len()),
                ..old(self).model()
            }),
    {
        let ghost n = self.senders@.len();
        if self.remaining.len() > 0 {
            let next = self.remaining.remove(0);
            assert(self.remaining@ =~= self.plan@.skip((n + 1) as int));
            self.current = Some(next);
            self.phase = FanoutPhase::AddingTrack;
        } else {
            self.current = None;
            self.phase = FanoutPhase::Finished;
        }
    }

    /// Takes in what adding the track to the current target gave (see
    /// [`FanoutModel::after_track_added`]).
    pub fn track_added(&mut self, added: Result<Arc<RTCRtpSender>, String>)
        requires
            old(self).wf(),
        ensures
            final(self).wf(),
            final(self).model() == old(self).model().after_track_added(added),
    {
        if self.phase != FanoutPhase::AddingTrack {
            return ;
        }
        let ghost n = self.senders@.len();
        match added {
            Err(e) => {
                self.failure = Some(AppError::SignalingError(e));
                self.phase = FanoutPhase::Finished;
            },
            Ok(sender) => {
                let (peer, has_ws) = match &self.current {
                    Some(t) => (t.peer, t.ws_tx.is_some()),
                    None => {
                        proof {
                            assert(false);
                        }
                        return ;
                    },
                };
                if has_ws {
                    self.pending = Some(sender);
                    self.phase = FanoutPhase::Renegotiating;
                } else {
                    self.senders.push((peer, sender));
                    assert(self.remaining@ =~= self.plan@.skip(self.senders@.len() as int));
                    self.advance();
                }
            },
        }
    }

    /// Takes in what renegotiating with the current target gave (see
    /// [`FanoutModel::after_renegotiated`]). An offer is handed back, to be
    /// queued as an `offer` message on the current target's WebSocket.
    pub fn renegotiated(&mut self, offer: Result<String, String>) -> (delivery: Option<
        WsDelivery,
    >)
        requires
            old(self).wf(),
        ensures
            final(self).wf(),
            final(self).model() == old(self).model().after_renegotiated(offer),
            (old(self).phase() == FanoutPhase::Renegotiating && offer is Ok) ==> (offer matches Ok(sdp)
                && delivery matches Some(d) && d.to == old(self).model().current().peer
                && old(self).model().current().ws_tx == Some(d.tx) && d.message
                == IceWsMessage::Offer(SdpOffer { sdp })),
            !(old(self).phase() == FanoutPhase::Renegotiating && offer is Ok) ==> delivery is None,
    {
        if self.phase != FanoutPhase::Renegotiating {
            return None;
        }
        match offer {
            Err(e) => {
                self.failure = Some(AppError::SdpParseFailed(e));
                self.phase = FanoutPhase::Finished;
                None
            },
            Ok(sdp) => {
                let mut taken: Option<TrackTarget> = None;
                std::mem::swap(&mut taken, &mut self.current);
                let target = match taken {
                    Some(t) => t,
                    None => {
                        proof {
                            assert(false);
                        }
                        return None;
                    },
                };
                let mut waiting: Option<Arc<RTCRtpSender>> = None;
                std::mem::swap(&mut waiting, &mut self.pending);
                let sender = match waiting {
                    Some(s) => s,
                    None => {
                        proof {
                            assert(false);
                        }
                        return None;
                    },
                };
                self.senders.push((target.peer, sender));
                assert(self.remaining@ =~= self.plan@.skip(self.senders@.len() as int));
                self.advance();
                match target.ws_tx {
                    Some(tx) => Some(
                        WsDelivery {
                            to: target.peer,
                            tx,
                            message: IceWsMessage::Offer(SdpOffer { sdp }),
                        },
                    ),
                    None => {
                        proof {
                            assert(false);
                        }
                        None
                    },
                }
            },
        }
    }

    /// The outcome of a finished fan-out: the error that ended it, or the
    /// sender obtained for each target, in order.
    pub fn finish(self) -> (r: Result<Vec<(PeerId, Arc<RTCRtpSender>)>, AppError>)
        requires
            self.wf(),
            self.phase() == FanoutPhase::Finished,
        ensures
            match self.model().failure {
                Some(e) => r == Err::<Vec<(PeerId, Arc<RTCRtpSender>)>, AppError>(e),
                None => r matches Ok(v) && v@ == self.model().senders && self.served()
                    == self.targets().len(),
            },
            r matches Ok(v) ==> v@.len() == self.targets().len() && forall|i: int|
                #![trigger v@[i]]
                0 <= i < v@.len() ==> v@[i].0 == self.targets()[i].peer,
    {
        let TrackFanout { plan: _, remaining: _, current: _, phase: _, pending: _, senders, failure } =
            self;
        match failure {
            Some(e) => Err(e),
            None => Ok(senders),
        }
    }
}

} // verus!
