//! Properties that hold across the operations of the library.

use std::sync::Arc;

use tokio::sync::mpsc::UnboundedSender;
use tokio::sync::oneshot;
use vstd::prelude::*;
use webrtc::data_channel::RTCDataChannel;
use webrtc::peer_connection::RTCPeerConnection;
use webrtc::rtp_transceiver::rtp_sender::RTCRtpSender;

use crate::error::AppError;
use crate::session::fanout::{
    added_senders, all_succeeded, phase_after, renegotiation_count, socket_target_count,
    FanoutEvent, FanoutModel, FanoutPhase,
};
use crate::session::registry::{
    after_set_data_channel, after_set_ws_sender, data_channel_of, has_connection, has_ws_sender_in,
    receives_track, removal_plan, PeerHandle, TrackTarget,
};
use crate::signaling::ice_socket::{
    incoming_action, open_after_sent, outgoing_action, written, IceAction, IncomingFrame,
    SendOutcome, TextPayload,
};
use crate::signaling::offer::{
    after_data_channel_hooked, after_remote_set, after_track_hooked, answered, step_of, OfferStage,
    OfferStep,
};
use crate::types::{is_random_uuid, IceCandidate, IceWsMessage, PeerId, SdpAnswer, SdpOffer};

verus! {

/// Registering a peer and then deregistering it leaves the registry as
/// deregistering alone would: the peer is gone and every other peer is as it
/// was.
pub proof fn register_then_deregister(m: Map<u128, PeerHandle>, id: PeerId, h: PeerHandle)
    ensures
        m.insert(id.0, h).remove(id.0) == m.remove(id.0),
        !m.insert(id.0, h).remove(id.0).contains_key(id.0),
{
    assert(m.insert(id.0, h).remove(id.0) =~= m.remove(id.0));
}

/// Deregistering a peer right after registering it hands back the disconnect
/// signal of the handle just registered.
pub proof fn deregister_hands_back_registered_signal(m: Map<u128, PeerHandle>, id: PeerId, h: PeerHandle)
    ensures
        m.insert(id.0, h).contains_key(id.0),
        m.insert(id.0, h)[id.0].disconnect_tx == h.disconnect_tx,
{
}

/// Deregistering a peer twice is the same as deregistering it once.
pub proof fn deregister_is_idempotent(m: Map<u128, PeerHandle>, id: PeerId)
    ensures
        m.remove(id.0).remove(id.0) == m.remove(id.0),
{
    assert(m.remove(id.0).remove(id.0) =~= m.remove(id.0));
}

/// Registering under an identifier already in use replaces the earlier
/// handle.
pub proof fn register_replaces(m: Map<u128, PeerHandle>, id: PeerId, h1: PeerHandle, h2: PeerHandle)
    ensures
        m.insert(id.0, h1).insert(id.0, h2) == m.insert(id.0, h2),
{
    assert(m.insert(id.0, h1).insert(id.0, h2) =~= m.insert(id.0, h2));
}

/// Reading a peer's data channel after attaching one gives the channel
/// attached, if the peer is registered, and nothing otherwise; the data
/// channels of the other peers are unchanged.
pub proof fn data_channel_read_after_write(
    m: Map<u128, PeerHandle>,
    id: PeerId,
    dc: Arc<RTCDataChannel>,
    other: PeerId,
)
    ensures
        data_channel_of(after_set_data_channel(m, id.0, dc), id.0) == (if m.contains_key(id.0) {
            Some(dc)
        } else {
            None
        }),
        other != id ==> data_channel_of(after_set_data_channel(m, id.0, dc), other.0)
            == data_channel_of(m, other.0),
        after_set_data_channel(m, id.0, dc).dom() == m.dom(),
{
    assert(after_set_data_channel(m, id.0, dc).dom() =~= m.dom());
}

/// After a WebSocket sender is attached to a registered peer, the peer has
/// one; attaching to an unknown peer registers nothing; other peers keep
/// whatever sender they had.
pub proof fn ws_sender_read_after_write(
    m: Map<u128, PeerHandle>,
    id: PeerId,
    tx: UnboundedSender<IceWsMessage>,
    other: PeerId,
)
    ensures
        has_ws_sender_in(after_set_ws_sender(m, id.0, tx), id.0) == m.contains_key(id.0),
        other != id ==> has_ws_sender_in(after_set_ws_sender(m, id.0, tx), other.0)
            == has_ws_sender_in(m, other.0),
        after_set_ws_sender(m, id.0, tx).dom() == m.dom(),
{
    assert(after_set_ws_sender(m, id.0, tx).dom() =~= m.dom());
}

/// A track fanned out from a publisher never comes back to it: when every
/// target receives the track (as `TrackFanout::start` chooses them) and the
/// fan-out hands back one sender per target (as `TrackFanout::finish` does),
/// no sender belongs to the publisher, and each belongs to a peer registered
/// with a connection.
pub proof fn fanout_skips_publisher(
    m: Map<u128, PeerHandle>,
    publisher: PeerId,
    targets: Seq<TrackTarget>,
    senders: Seq<(PeerId, Arc<RTCRtpSender>)>,
)
    requires
        forall|i: int|
            #![trigger targets[i]]
            0 <= i < targets.len() ==> receives_track(m, publisher.0, targets[i].peer.0),
        senders.len() == targets.len(),
        forall|i: int| #![trigger senders[i]] 0 <= i < senders.len() ==> senders[i].0 == targets[i].peer,
    ensures
        forall|i: int|
            #![trigger senders[i]]
            0 <= i < senders.len() ==> senders[i].0 != publisher && m.contains_key(senders[i].0.0)
                && m[senders[i].0.0].peer_connection is Some,
{
    assert forall|i: int| #![trigger senders[i]] 0 <= i < senders.len() implies senders[i].0
        != publisher && m.contains_key(senders[i].0.0) && m[senders[i].0.0].peer_connection is Some by {
        assert(receives_track(m, publisher.0, targets[i].peer.0));
    }
}

/// Every error has a non-empty message.
pub proof fn error_message_is_never_empty(e: AppError)
    ensures
        e.message().len() > 0,
{
    reveal_strlit("peer connection failed: ");
    reveal_strlit("SDP parse failed: ");
    reveal_strlit("ICE candidate failed: ");
    reveal_strlit("signaling error: ");
}

} // verus!

verus! {

/// What holds after each prefix of a successful, well-driven fan-out run:
/// the plan is kept, nothing failed, and each served target is paired with
/// the sender its own track addition gave.
pub open spec fn fanout_run_invariant(
    m0: FanoutModel,
    m: FanoutModel,
    added: Seq<Arc<RTCRtpSender>>,
) -> bool {
    &&& m.plan == m0.plan
    &&& m.failure is None
    &&& m.senders.len() <= m.plan.len()
    &&& m.phase != FanoutPhase::Finished ==> m.senders.len() < m.plan.len()
    &&& m.phase == FanoutPhase::Finished ==> m.senders.len() == m.plan.len()
    &&& m.phase == FanoutPhase::Renegotiating ==> added.len() == m.senders.len() + 1
        && m.pending == Some(added.last())
    &&& m.phase != FanoutPhase::Renegotiating ==> added.len() == m.senders.len()
    &&& forall|j: int|
        #![trigger m.senders[j]]
        0 <= j < m.senders.len() ==> m.senders[j] == (m.plan[j].peer, added[j])
}

/// A fan-out as `TrackFanout::start` leaves it.
pub open spec fn fresh_fanout(m0: FanoutModel) -> bool {
    &&& m0.senders == Seq::<(PeerId, Arc<RTCRtpSender>)>::empty()
    &&& m0.pending is None
    &&& m0.failure is None
    &&& m0.phase == phase_after(0, m0.plan.len())
}

proof fn fanout_prefix(m0: FanoutModel, events: Seq<FanoutEvent>, k: int)
    requires
        fresh_fanout(m0),
        all_succeeded(events),
        m0.driven_by(events),
        0 <= k <= events.len(),
    ensures
        fanout_run_invariant(m0, m0.run(events.take(k)), added_senders(events.take(k))),
    decreases k,
{
    if k == 0 {
        assert(events.take(0) =~= Seq::<FanoutEvent>::empty());
    } else {
        fanout_prefix(m0, events, k - 1);
        let pre = events.take(k - 1);
        let cur = events.take(k);
        assert(cur.drop_last() =~= pre);
        assert(cur.last() == events[k - 1]);
        let m = m0.run(pre);
        let a = added_senders(pre);
        let e = events[k - 1];
        assert(m.answers_step(e));
        let m1 = m0.run(cur);
        let a1 = added_senders(cur);
        assert(m1 == m.after(e));
        match e {
            FanoutEvent::TrackAdded(added) => {
                let s = added.get_Ok_0();
                assert(a1 == a.push(s));
                if m.current().ws_tx is Some {
                } else {
                    assert forall|j: int|
                        #![trigger m1.senders[j]]
                        0 <= j < m1.senders.len() implies m1.senders[j] == (m1.plan[j].peer, a1[j]) by {
                        if j < m.senders.len() {
                            assert(m.senders[j] == (m.plan[j].peer, a[j]));
                        }
                    }
                }
            },
            FanoutEvent::Renegotiated(offer) => {
                assert(a1 == a);
                assert forall|j: int|
                    #![trigger m1.senders[j]]
                    0 <= j < m1.senders.len() implies m1.senders[j] == (m1.plan[j].peer, a1[j]) by {
                    if j < m.senders.len() {
                        assert(m.senders[j] == (m.plan[j].peer, a[j]));
                    }
                }
            },
        }
    }
}

/// A fan-out whose every step succeeds serves every target: when it
/// finishes, it holds one sender per target, in the targets' order, each the
/// sender that adding the track to that target's own connection gave.
pub proof fn successful_fanout_serves_every_target(m0: FanoutModel, events: Seq<FanoutEvent>)
    requires
        fresh_fanout(m0),
        all_succeeded(events),
        m0.driven_by(events),
        m0.run(events).phase == FanoutPhase::Finished,
    ensures
        m0.run(events).failure is None,
        m0.run(events).senders.len() == m0.plan.len(),
        added_senders(events).len() == m0.plan.len(),
        forall|j: int|
            #![trigger m0.run(events).senders[j]]
            0 <= j < m0.plan.len() ==> m0.run(events).senders[j] == (
                m0.plan[j].peer,
                added_senders(events)[j],
            ),
{
    fanout_prefix(m0, events, events.len() as int);
    assert(events.take(events.len() as int) =~= events);
}

/// After a fan-out to peers that each have a connection, removing its tracks
/// acts on exactly those peers' connections: one removal per sender, in
/// order, each on the connection of the sender's own peer.
pub proof fn removal_after_fanout(
    m: Map<u128, PeerHandle>,
    publisher: PeerId,
    targets: Seq<TrackTarget>,
    senders: Seq<(PeerId, Arc<RTCRtpSender>)>,
)
    requires
        forall|i: int|
            #![trigger targets[i]]
            0 <= i < targets.len() ==> receives_track(m, publisher.0, targets[i].peer.0),
        senders.len() == targets.len(),
        forall|i: int| #![trigger senders[i]] 0 <= i < senders.len() ==> senders[i].0 == targets[i].peer,
    ensures
        removal_plan(m, senders).len() == senders.len(),
        forall|i: int|
            #![trigger removal_plan(m, senders)[i]]
            0 <= i < senders.len() ==> removal_plan(m, senders)[i] == (
                m[senders[i].0.0].peer_connection.unwrap(),
                senders[i].1,
            ),
    decreases senders.len(),
{
    if senders.len() > 0 {
        let n = senders.len() - 1;
        removal_after_fanout(m, publisher, targets.drop_last(), senders.drop_last());
        assert(senders[n].0 == targets[n].peer);
        assert(receives_track(m, publisher.0, targets[n].peer.0));
        assert(has_connection(m, senders.last().0.0));
        assert forall|i: int|
            #![trigger removal_plan(m, senders)[i]]
            0 <= i < senders.len() implies removal_plan(m, senders)[i] == (
                m[senders[i].0.0].peer_connection.unwrap(),
                senders[i].1,
            ) by {
            if i < n {
                assert(senders.drop_last()[i] == senders[i]);
                assert(removal_plan(m, senders.drop_last())[i] == (
                    m[senders.drop_last()[i].0.0].peer_connection.unwrap(),
                    senders.drop_last()[i].1,
                ));
            }
        }
    }
}

/// A whole successful offer exchange: once the offer is applied, the answer
/// created and both hooks installed, the exchange answers with a random
/// identifier and the answer's SDP, and the registry holds that peer with
/// the server's connection, nothing attached yet.
pub proof fn successful_offer_exchange(
    offer: SdpOffer,
    answer: SdpAnswer,
    registry: Map<u128, PeerHandle>,
    connection: Arc<RTCPeerConnection>,
    disconnect_tx: oneshot::Sender<()>,
    hooking: OfferStage,
    registered: Map<u128, PeerHandle>,
)
    requires
        answered(
            after_remote_set(OfferStage::ApplyingOffer(offer), Ok(())),
            Ok(answer),
            registry,
            connection,
            disconnect_tx,
            hooking,
            registered,
        ),
    ensures
        after_track_hooked(after_data_channel_hooked(hooking, Ok(())), Ok(())) matches OfferStage::Done(
            Ok(resp),
        ) && {
            &&& resp.sdp@ == answer.sdp@
            &&& is_random_uuid(resp.peer_id.0)
            &&& registered == registry.insert(
                resp.peer_id.0,
                PeerHandle {
                    data_channel: None,
                    peer_connection: Some(connection),
                    ws_tx: None,
                    disconnect_tx,
                },
            )
        },
{
}

/// An open ICE socket stops exactly on these events: the stream ending or a
/// close frame, its message queue closing, a failed step on the peer
/// connection, and a failed write.
pub proof fn ice_socket_stops_exactly_on_listed_events(
    peer_id: Option<PeerId>,
    frame: IncomingFrame,
    act: IceAction,
    msg: Option<IceWsMessage>,
    outcome: SendOutcome,
)
    ensures
        incoming_action(peer_id, frame, act) ==> (act is Stop <==> (frame is Ended || frame is Close)),
        outgoing_action(msg) is Stop <==> msg is None,
        !open_after_sent(outcome) <==> outcome is Failed,
{
}

/// Every message queued for an open socket whose writes succeed is written
/// once, in the order it was queued, and the socket stays open.
pub proof fn queued_messages_written_in_order(ms: Seq<IceWsMessage>)
    ensures
        written(true, ms).1,
        written(true, ms).0.len() == ms.len(),
        forall|i: int|
            #![trigger written(true, ms).0[i]]
            0 <= i < ms.len() ==> written(true, ms).0[i] == IceAction::Send(ms[i]),
    decreases ms.len(),
{
    if ms.len() > 0 {
        let n = ms.len() - 1;
        queued_messages_written_in_order(ms.drop_last());
        assert forall|i: int|
            #![trigger written(true, ms).0[i]]
            0 <= i < ms.len() implies written(true, ms).0[i] == IceAction::Send(ms[i]) by {
            if i < n {
                assert(ms.drop_last()[i] == ms[i]);
                assert(written(true, ms.drop_last()).0[i] == IceAction::Send(ms.drop_last()[i]));
            }
        }
    }
}

/// A renegotiation offer handed out by a fan-out goes to the socket of the
/// receiving peer itself, never to the publisher: when the targets are those
/// `TrackFanout::start` chooses (each receives the track and carries the
/// registry's own sender for its peer) and the delivery is the one
/// `TrackFanout::renegotiated` hands out for a target, that target is
/// registered, is not the publisher, and the delivery's sender is its own.
pub proof fn renegotiation_reaches_receivers_own_socket(
    m: Map<u128, PeerHandle>,
    publisher: PeerId,
    targets: Seq<TrackTarget>,
    i: int,
    to: PeerId,
    tx: UnboundedSender<IceWsMessage>,
)
    requires
        forall|j: int|
            #![trigger targets[j]]
            0 <= j < targets.len() ==> receives_track(m, publisher.0, targets[j].peer.0)
                && targets[j].ws_tx == m[targets[j].peer.0].ws_tx,
        0 <= i < targets.len(),
        to == targets[i].peer,
        targets[i].ws_tx == Some(tx),
    ensures
        to != publisher,
        m.contains_key(to.0),
        m[to.0].ws_tx == Some(tx),
{
    assert(receives_track(m, publisher.0, targets[i].peer.0));
}

} // verus!

verus! {

/// Taking in a track added to a target that has a WebSocket always moves on
/// to renegotiating with that target, with the new sender waiting, however
/// many targets were served before it; a target without a WebSocket is
/// completed at once, with that sender, and is never renegotiated.
pub proof fn track_added_renegotiates_socket_targets(m: FanoutModel, s: Arc<RTCRtpSender>)
    requires
        m.phase == FanoutPhase::AddingTrack,
        m.senders.len() < m.plan.len(),
    ensures
        m.current().ws_tx is Some ==> {
            let m1 = m.after_track_added(Ok(s));
            &&& m1.phase == FanoutPhase::Renegotiating
            &&& m1.pending == Some(s)
            &&& m1.senders == m.senders
            &&& m1.plan == m.plan
            &&& m1.failure == m.failure
        },
        m.current().ws_tx is None ==> {
            let m1 = m.after_track_added(Ok(s));
            &&& m1.phase != FanoutPhase::Renegotiating
            &&& m1.senders.len() == m.senders.len() + 1
            &&& m1.senders.last() == (m.plan[m.senders.len() as int].peer, s)
            &&& m1.plan == m.plan
        },
{
}

proof fn fanout_renegotiation_prefix(m0: FanoutModel, events: Seq<FanoutEvent>, k: int)
    requires
        fresh_fanout(m0),
        all_succeeded(events),
        m0.driven_by(events),
        0 <= k <= events.len(),
    ensures
        ({
            let m = m0.run(events.take(k));
            &&& renegotiation_count(events.take(k)) == socket_target_count(
                m.plan.take(m.senders.len() as int),
            )
            &&& m.phase == FanoutPhase::Renegotiating ==> m.current().ws_tx is Some
        }),
    decreases k,
{
    if k == 0 {
        assert(events.take(0) =~= Seq::<FanoutEvent>::empty());
        assert(m0.plan.take(0) =~= Seq::<TrackTarget>::empty());
    } else {
        fanout_renegotiation_prefix(m0, events, k - 1);
        fanout_prefix(m0, events, k - 1);
        fanout_prefix(m0, events, k);
        let pre = events.take(k - 1);
        let cur = events.take(k);
        assert(cur.drop_last() =~= pre);
        assert(cur.last() == events[k - 1]);
        let m = m0.run(pre);
        let e = events[k - 1];
        assert(m.answers_step(e));
        let m1 = m0.run(cur);
        assert(m1 == m.after(e));
        let n = m.senders.len();
        assert(m.plan.take((n + 1) as int).drop_last() =~= m.plan.take(n as int));
        assert(m.plan.take((n + 1) as int).last() == m.plan[n as int]);
    }
}

/// A fan-out whose every step succeeds renegotiates once with each target
/// that has a WebSocket, and with no other: the run reports as many
/// renegotiations (each handing out one `offer` delivery, see
/// `TrackFanout::renegotiated`) as there are targets with a sender.
pub proof fn successful_fanout_renegotiates_every_socket_target(
    m0: FanoutModel,
    events: Seq<FanoutEvent>,
)
    requires
        fresh_fanout(m0),
        all_succeeded(events),
        m0.driven_by(events),
        m0.run(events).phase == FanoutPhase::Finished,
    ensures
        renegotiation_count(events) == socket_target_count(m0.plan),
{
    let n = events.len() as int;
    fanout_prefix(m0, events, n);
    fanout_renegotiation_prefix(m0, events, n);
    assert(events.take(n) =~= events);
    let m = m0.run(events);
    assert(m.plan.take(m.senders.len() as int) =~= m0.plan);
}

/// Once answering an offer registers the new peer, the hooks that follow are
/// installed for that very peer, and the exchange answers with its
/// identifier: the data channel step and the track step both name the
/// identifier under which the peer was registered with the server's
/// connection, and the response carries the same identifier.
pub proof fn offer_hooks_name_the_registered_peer(
    answer: SdpAnswer,
    registry: Map<u128, PeerHandle>,
    connection: Arc<RTCPeerConnection>,
    disconnect_tx: oneshot::Sender<()>,
    hooking: OfferStage,
    registered: Map<u128, PeerHandle>,
    data_channel_step: OfferStep,
    track_step: OfferStep,
)
    requires
        answered(
            OfferStage::Answering,
            Ok(answer),
            registry,
            connection,
            disconnect_tx,
            hooking,
            registered,
        ),
        step_of(hooking, data_channel_step),
        step_of(after_data_channel_hooked(hooking, Ok(())), track_step),
    ensures
        hooking matches OfferStage::HookingDataChannel(id, _) && {
            &&& data_channel_step == OfferStep::HookDataChannel(id)
            &&& track_step == OfferStep::HookTrack(id)
            &&& registered.contains_key(id.0)
            &&& registered[id.0].peer_connection == Some(connection)
            &&& after_track_hooked(after_data_channel_hooked(hooking, Ok(())), Ok(())) matches OfferStage::Done(
                Ok(resp),
            ) && resp.peer_id == id
        },
{
}

/// A candidate in an envelope is handled as a bare one: it is forwarded to
/// the peer connection exactly when it carries a candidate line (as
/// `validate_ice_candidate` accepts it), and passed over otherwise, the
/// socket staying open.
pub proof fn enveloped_candidate_handled_as_bare(
    peer_id: Option<PeerId>,
    c: IceCandidate,
    act: IceAction,
)
    ensures
        incoming_action(
            peer_id,
            IncomingFrame::Text(TextPayload::Envelope(IceWsMessage::Candidate(c))),
            act,
        ) == incoming_action(peer_id, IncomingFrame::Text(TextPayload::BareCandidate(c)), act),
        c.candidate@.len() == 0 ==> (incoming_action(
            peer_id,
            IncomingFrame::Text(TextPayload::Envelope(IceWsMessage::Candidate(c))),
            act,
        ) <==> act is Continue),
        c.candidate@.len() > 0 ==> (incoming_action(
            peer_id,
            IncomingFrame::Text(TextPayload::Envelope(IceWsMessage::Candidate(c))),
            act,
        ) <==> act == IceAction::AddIceCandidate(c)),
{
}

/// An answer that comes on an ICE socket is applied to the connection of the
/// peer the socket belongs to, and to no other; on a socket that names no
/// peer it is passed over. Either way the socket stays open.
pub proof fn answer_applied_to_sockets_own_peer(
    peer_id: Option<PeerId>,
    a: SdpAnswer,
    act: IceAction,
)
    ensures
        incoming_action(peer_id, IncomingFrame::Text(TextPayload::Envelope(IceWsMessage::Answer(a))), act)
            <==> match peer_id {
            Some(p) => act == IceAction::ApplyRemoteAnswer(p, a),
            None => act is Continue,
        },
{
}

/// The removal plan of a list is the plan of its first part followed by the
/// plan of the rest: whether a sender is kept, and with which connection,
/// depends on that sender's peer alone, never on the senders before it.
pub proof fn removal_plan_of_concatenation(
    m: Map<u128, PeerHandle>,
    s1: Seq<(PeerId, Arc<RTCRtpSender>)>,
    s2: Seq<(PeerId, Arc<RTCRtpSender>)>,
)
    ensures
        removal_plan(m, s1 + s2) == removal_plan(m, s1) + removal_plan(m, s2),
    decreases s2.len(),
{
    if s2.len() == 0 {
        assert(s1 + s2 =~= s1);
        assert(removal_plan(m, s1) + removal_plan(m, s2) =~= removal_plan(m, s1));
    } else {
        let s = s1 + s2;
        assert(s.drop_last() =~= s1 + s2.drop_last());
        assert(s.last() == s2.last());
        removal_plan_of_concatenation(m, s1, s2.drop_last());
        let (peer, sender) = s2.last();
        if has_connection(m, peer.0) {
            assert((removal_plan(m, s1) + removal_plan(m, s2.drop_last())).push(
                (m[peer.0].peer_connection.unwrap(), sender),
            ) =~= removal_plan(m, s1) + removal_plan(m, s2.drop_last()).push(
                (m[peer.0].peer_connection.unwrap(), sender),
            ));
        }
    }
}

/// The removal plan of a single sender: its peer's connection paired with
/// it when the peer is registered with a connection, nothing otherwise.
pub proof fn removal_plan_of_one_sender(
    m: Map<u128, PeerHandle>,
    peer: PeerId,
    sender: Arc<RTCRtpSender>,
)
    ensures
        removal_plan(m, seq![(peer, sender)]) == if has_connection(m, peer.0) {
            seq![(m[peer.0].peer_connection.unwrap(), sender)]
        } else {
            Seq::<(Arc<RTCPeerConnection>, Arc<RTCRtpSender>)>::empty()
        },
{
    let s = seq![(peer, sender)];
    let none = Seq::<(PeerId, Arc<RTCRtpSender>)>::empty();
    assert(s.drop_last() =~= none);
    assert(removal_plan(m, none) == Seq::<(Arc<RTCPeerConnection>, Arc<RTCRtpSender>)>::empty());
    assert(s.last() == (peer, sender));
    if has_connection(m, peer.0) {
        assert(Seq::<(Arc<RTCPeerConnection>, Arc<RTCRtpSender>)>::empty().push(
            (m[peer.0].peer_connection.unwrap(), sender),
        ) =~= seq![(m[peer.0].peer_connection.unwrap(), sender)]);
    }
}

/// Attaching a data channel to a registered peer changes its data channel
/// and nothing else: its connection, WebSocket sender and disconnect signal
/// stay as they were, and so does every other peer.
pub proof fn data_channel_attach_keeps_the_rest(
    m: Map<u128, PeerHandle>,
    id: PeerId,
    dc: Arc<RTCDataChannel>,
    other: u128,
)
    requires
        m.contains_key(id.0),
    ensures
        after_set_data_channel(m, id.0, dc).contains_key(id.0),
        after_set_data_channel(m, id.0, dc)[id.0].data_channel == Some(dc),
        after_set_data_channel(m, id.0, dc)[id.0].peer_connection == m[id.0].peer_connection,
        after_set_data_channel(m, id.0, dc)[id.0].ws_tx == m[id.0].ws_tx,
        after_set_data_channel(m, id.0, dc)[id.0].disconnect_tx == m[id.0].disconnect_tx,
        other != id.0 && m.contains_key(other) ==> after_set_data_channel(m, id.0, dc)[other]
            == m[other],
{
}

/// Attaching a WebSocket sender to a registered peer changes its sender and
/// nothing else: its data channel, connection and disconnect signal stay as
/// they were, and so does every other peer.
pub proof fn ws_sender_attach_keeps_the_rest(
    m: Map<u128, PeerHandle>,
    id: PeerId,
    tx: UnboundedSender<IceWsMessage>,
    other: u128,
)
    requires
        m.contains_key(id.0),
    ensures
        after_set_ws_sender(m, id.0, tx).contains_key(id.0),
        after_set_ws_sender(m, id.0, tx)[id.0].ws_tx == Some(tx),
        after_set_ws_sender(m, id.0, tx)[id.0].data_channel == m[id.0].data_channel,
        after_set_ws_sender(m, id.0, tx)[id.0].peer_connection == m[id.0].peer_connection,
        after_set_ws_sender(m, id.0, tx)[id.0].disconnect_tx == m[id.0].disconnect_tx,
        other != id.0 && m.contains_key(other) ==> after_set_ws_sender(m, id.0, tx)[other]
            == m[other],
{
}

} // verus!
