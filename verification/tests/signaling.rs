use std::sync::Arc;

use tokio::sync::{mpsc, oneshot};
use web_rtc_server::error::AppError;
use web_rtc_server::session::registry::{PeerHandle, SessionRegistry};
use web_rtc_server::signaling::ice_socket::{IceAction, IceSocket, IncomingFrame, SendOutcome, TextPayload};
use web_rtc_server::signaling::offer::{OfferFlow, OfferStep};
use web_rtc_server::types::{IceCandidate, IceWsMessage, OfferResponse, PeerId, SdpAnswer, SdpOffer};
use webrtc::api::APIBuilder;
use webrtc::peer_connection::configuration::RTCConfiguration;
use webrtc::peer_connection::RTCPeerConnection;

const VALID_SDP: &str = "v=0\r\no=- 0 0 IN IP4 127.0.0.1\r\ns=-\r\nt=0 0\r\n";

fn block_on<F: std::future::Future>(f: F) -> F::Output {
    tokio::runtime::Runtime::new().unwrap().block_on(f)
}

async fn new_connection() -> Arc<RTCPeerConnection> {
    let api = APIBuilder::new().build();
    Arc::new(api.new_peer_connection(RTCConfiguration::default()).await.unwrap())
}

/// The outcomes a stand-in peer reports for each step of the exchange.
struct Script {
    remote: Result<(), AppError>,
    answer: Result<SdpAnswer, AppError>,
    data_channel: Result<(), AppError>,
    track: Result<(), AppError>,
}

fn ok_script() -> Script {
    Script {
        remote: Ok(()),
        answer: Ok(SdpAnswer { sdp: VALID_SDP.to_string() }),
        data_channel: Ok(()),
        track: Ok(()),
    }
}

/// Drives an offer exchange the way the `POST /offer` handler does, with a
/// stand-in peer that reports the scripted outcomes.
fn run_offer(
    sdp: &str,
    script: Script,
    registry: &mut SessionRegistry,
    pc: Option<Arc<RTCPeerConnection>>,
) -> (Result<OfferResponse, AppError>, Vec<&'static str>) {
    let mut calls = Vec::new();
    let Script { remote, answer, data_channel, track } = script;
    let (mut flow, mut step) = OfferFlow::begin(SdpOffer { sdp: sdp.to_string() });
    let mut remote = Some(remote);
    let mut answer = Some(answer);
    let mut data_channel = Some(data_channel);
    let mut track = Some(track);
    loop {
        step = match step {
            OfferStep::SetRemoteDescription(_) => {
                calls.push("set_remote_description");
                flow.remote_description_set(remote.take().unwrap())
            }
            OfferStep::CreateAnswer => {
                calls.push("create_answer");
                let (tx, _) = oneshot::channel();
                let pc = pc.clone().expect("the peer connection is read only after an answer");
                flow.answer_created(answer.take().unwrap(), registry, pc, tx)
            }
            OfferStep::HookDataChannel(_) => {
                calls.push("on_data_channel");
                flow.data_channel_hooked(data_channel.take().unwrap())
            }
            OfferStep::HookTrack(_) => {
                calls.push("on_track");
                flow.track_hooked(track.take().unwrap())
            }
            OfferStep::Done => return (flow.finish(), calls),
        };
    }
}

#[test]
fn offer_returns_peer_id_and_sdp() {
    let pc = block_on(new_connection());
    let mut registry = SessionRegistry::new();
    let (result, calls) = run_offer(VALID_SDP, ok_script(), &mut registry, Some(pc));
    let body = result.unwrap();
    assert_eq!(calls, vec!["set_remote_description", "create_answer", "on_data_channel", "on_track"]);
    assert_eq!(body.sdp, VALID_SDP);
    assert_eq!(uuid::Uuid::from_u128(body.peer_id.0).get_version(), Some(uuid::Version::Random));
    assert!(registry.contains(body.peer_id));
}

#[test]
fn offer_peer_error() {
    let mut registry = SessionRegistry::new();
    let script = Script {
        remote: Err(AppError::PeerConnectionFailed("fail".to_string())),
        ..ok_script()
    };
    let (result, calls) = run_offer(VALID_SDP, script, &mut registry, None);
    let err = result.err().unwrap();
    assert_eq!(err.status_code(), 500);
    assert!(matches!(err, AppError::PeerConnectionFailed(_)));
    assert_eq!(calls, vec!["set_remote_description"]);
}

#[test]
fn offer_empty_sdp_rejected() {
    let mut registry = SessionRegistry::new();
    let (result, calls) = run_offer("", ok_script(), &mut registry, None);
    let err = result.err().unwrap();
    assert_eq!(err.status_code(), 500);
    assert!(matches!(err, AppError::SdpParseFailed(_)));
    assert!(calls.is_empty());
}

#[test]
fn offer_on_track_error_propagates() {
    let pc = block_on(new_connection());
    let mut registry = SessionRegistry::new();
    let script = Script {
        track: Err(AppError::SignalingError("fail".to_string())),
        ..ok_script()
    };
    let (result, _) = run_offer(VALID_SDP, script, &mut registry, Some(pc));
    let err = result.err().unwrap();
    assert_eq!(err.status_code(), 500);
    match err {
        AppError::SignalingError(m) => assert_eq!(m, "fail"),
        _ => panic!("the hook's error must be passed on"),
    }
}

#[test]
fn offer_answer_error_registers_nobody() {
    let mut registry = SessionRegistry::new();
    let script = Script {
        answer: Err(AppError::SdpParseFailed("no answer".to_string())),
        ..ok_script()
    };
    let (mut flow, step) = OfferFlow::begin(SdpOffer { sdp: VALID_SDP.to_string() });
    assert!(matches!(step, OfferStep::SetRemoteDescription(ref o) if o.sdp == VALID_SDP));
    assert!(matches!(flow.remote_description_set(script.remote), OfferStep::CreateAnswer));
    let pc = block_on(new_connection());
    let (tx, _) = oneshot::channel();
    assert!(matches!(flow.answer_created(script.answer, &mut registry, pc, tx), OfferStep::Done));
    assert!(matches!(flow.finish(), Err(AppError::SdpParseFailed(_))));
    assert!(registry.broadcast_text(PeerId::new(), "x").is_empty());
}

fn candidate(line: &str) -> IceCandidate {
    IceCandidate { candidate: line.to_string(), sdp_mid: Some("0".to_string()), sdp_mline_index: Some(0) }
}

#[test]
fn ice_socket_forwards_valid_candidates_only() {
    let mut registry = SessionRegistry::new();
    let (tx, _rx) = mpsc::unbounded_channel::<IceWsMessage>();
    let mut socket = IceSocket::open(&mut registry, None, tx);
    let act = socket.on_incoming(IncomingFrame::Text(TextPayload::Envelope(IceWsMessage::Candidate(
        candidate("candidate:1 1 UDP 1 192.168.1.1 1234 typ host"),
    ))));
    assert!(matches!(act, IceAction::AddIceCandidate(ref c) if c.candidate.starts_with("candidate:1")));
    let act = socket.on_incoming(IncomingFrame::Text(TextPayload::BareCandidate(candidate(""))));
    assert!(matches!(act, IceAction::Continue));
    let act = socket.on_incoming(IncomingFrame::Text(TextPayload::BareCandidate(candidate("candidate:2"))));
    assert!(matches!(act, IceAction::AddIceCandidate(_)));
}

#[test]
fn ice_socket_applies_answers_only_for_a_named_peer() {
    let mut registry = SessionRegistry::new();
    let id = PeerId::new();
    let (disconnect_tx, _) = oneshot::channel();
    registry.register(id, PeerHandle::new(disconnect_tx));
    let (tx, _rx) = mpsc::unbounded_channel::<IceWsMessage>();
    let mut named = IceSocket::open(&mut registry, Some(id), tx);
    assert!(registry.has_ws_sender(id));
    let act = named.on_incoming(IncomingFrame::Text(TextPayload::Envelope(IceWsMessage::Answer(
        SdpAnswer { sdp: VALID_SDP.to_string() },
    ))));
    assert!(matches!(act, IceAction::ApplyRemoteAnswer(p, _) if p == id));

    let (tx2, _rx2) = mpsc::unbounded_channel::<IceWsMessage>();
    let mut anonymous = IceSocket::open(&mut registry, None, tx2);
    let act = anonymous.on_incoming(IncomingFrame::Text(TextPayload::Envelope(IceWsMessage::Answer(
        SdpAnswer { sdp: VALID_SDP.to_string() },
    ))));
    assert!(matches!(act, IceAction::Continue));
}

#[test]
fn ice_socket_ignores_offers_done_and_unknown_text() {
    let mut registry = SessionRegistry::new();
    let (tx, _rx) = mpsc::unbounded_channel::<IceWsMessage>();
    let mut socket = IceSocket::open(&mut registry, Some(PeerId::new()), tx);
    for frame in [
        IncomingFrame::Text(TextPayload::Envelope(IceWsMessage::Offer(SdpOffer { sdp: VALID_SDP.to_string() }))),
        IncomingFrame::Text(TextPayload::Envelope(IceWsMessage::Done)),
        IncomingFrame::Text(TextPayload::Unrecognized),
        IncomingFrame::Other,
    ] {
        assert!(matches!(socket.on_incoming(frame), IceAction::Continue));
    }
    assert!(socket.open);
}

#[test]
fn ice_socket_stops_and_stays_stopped() {
    let mut registry = SessionRegistry::new();
    let (tx, _rx) = mpsc::unbounded_channel::<IceWsMessage>();
    let mut socket = IceSocket::open(&mut registry, None, tx);
    assert!(matches!(socket.on_incoming(IncomingFrame::Close), IceAction::Stop));
    assert!(!socket.open);
    assert!(matches!(socket.on_outgoing(Some(IceWsMessage::Done)), IceAction::Stop));
    assert!(matches!(socket.on_peer_outcome(true), IceAction::Stop));
    assert!(matches!(socket.on_sent(SendOutcome::Delivered), IceAction::Stop));
}

#[test]
fn ice_socket_sends_queued_messages_until_a_failure() {
    let mut registry = SessionRegistry::new();
    let (tx, _rx) = mpsc::unbounded_channel::<IceWsMessage>();
    let mut socket = IceSocket::open(&mut registry, None, tx);
    assert!(matches!(socket.on_outgoing(Some(IceWsMessage::Done)), IceAction::Send(IceWsMessage::Done)));
    assert!(matches!(socket.on_sent(SendOutcome::Unencodable), IceAction::Continue));
    assert!(matches!(socket.on_sent(SendOutcome::Delivered), IceAction::Continue));
    assert!(matches!(socket.on_peer_outcome(false), IceAction::Stop));
    let mut again = IceSocket::open(&mut registry, None, mpsc::unbounded_channel::<IceWsMessage>().0);
    assert!(matches!(again.on_sent(SendOutcome::Failed), IceAction::Stop));
    let mut third = IceSocket::open(&mut registry, None, mpsc::unbounded_channel::<IceWsMessage>().0);
    assert!(matches!(third.on_outgoing(None), IceAction::Stop));
    let mut fourth = IceSocket::open(&mut registry, None, mpsc::unbounded_channel::<IceWsMessage>().0);
    assert!(matches!(fourth.on_incoming(IncomingFrame::Ended), IceAction::Stop));
}

#[test]
fn ice_socket_without_peer_keeps_its_queue_open() {
    let mut registry = SessionRegistry::new();
    let (tx, mut rx) = mpsc::unbounded_channel::<IceWsMessage>();
    let socket = IceSocket::open(&mut registry, None, tx);
    assert!(rx.try_recv().is_err());
    assert!(matches!(rx.try_recv(), Err(mpsc::error::TryRecvError::Empty)));
    drop(socket);
    assert!(matches!(rx.try_recv(), Err(mpsc::error::TryRecvError::Disconnected)));
}
