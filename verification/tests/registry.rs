use std::sync::Arc;

use tokio::sync::{mpsc, oneshot};
use web_rtc_server::error::AppError;
use web_rtc_server::session::fanout::{FanoutStep, TrackFanout};
use web_rtc_server::session::registry::{PeerHandle, SessionRegistry};
use web_rtc_server::types::{IceWsMessage, PeerId, SdpAnswer};
use webrtc::api::APIBuilder;
use webrtc::peer_connection::configuration::RTCConfiguration;
use webrtc::peer_connection::RTCPeerConnection;
use webrtc::rtp_transceiver::rtp_codec::RTCRtpCodecCapability;
use webrtc::rtp_transceiver::rtp_sender::RTCRtpSender;
use webrtc::track::track_local::track_local_static_rtp::TrackLocalStaticRTP;
use webrtc::track::track_local::TrackLocal;

fn make_handle() -> PeerHandle {
    let (disconnect_tx, _) = oneshot::channel();
    PeerHandle {
        data_channel: None,
        peer_connection: None,
        ws_tx: None,
        disconnect_tx,
    }
}

fn block_on<F: std::future::Future>(f: F) -> F::Output {
    tokio::runtime::Runtime::new().unwrap().block_on(f)
}

async fn new_connection_with_codecs() -> Arc<RTCPeerConnection> {
    let mut media = webrtc::api::media_engine::MediaEngine::default();
    media.register_default_codecs().unwrap();
    let api = APIBuilder::new().with_media_engine(media).build();
    Arc::new(api.new_peer_connection(RTCConfiguration::default()).await.unwrap())
}

async fn new_connection() -> Arc<RTCPeerConnection> {
    let api = APIBuilder::new().build();
    Arc::new(api.new_peer_connection(RTCConfiguration::default()).await.unwrap())
}

fn audio_track() -> Arc<TrackLocalStaticRTP> {
    Arc::new(TrackLocalStaticRTP::new(
        RTCRtpCodecCapability {
            mime_type: "audio/opus".to_string(),
            ..Default::default()
        },
        "audio".to_string(),
        "stream".to_string(),
    ))
}

/// Drives a track fan-out the way the server does.
async fn fan_out(
    registry: &SessionRegistry,
    publisher: PeerId,
    track: Arc<TrackLocalStaticRTP>,
) -> Result<Vec<(PeerId, Arc<RTCRtpSender>)>, AppError> {
    let mut fanout = TrackFanout::start(registry, publisher);
    loop {
        match fanout.step() {
            FanoutStep::AddTrack(pc) => {
                let track_dyn: Arc<dyn TrackLocal + Send + Sync> = Arc::clone(&track) as _;
                let added = pc.add_track(track_dyn).await.map_err(|e| e.to_string());
                fanout.track_added(added);
            }
            FanoutStep::Renegotiate(pc) => {
                let offer = match pc.create_offer(None).await {
                    Ok(offer) => match pc.set_local_description(offer.clone()).await {
                        Ok(()) => Ok(offer.sdp),
                        Err(e) => Err(e.to_string()),
                    },
                    Err(e) => Err(e.to_string()),
                };
                if let Some(delivery) = fanout.renegotiated(offer) {
                    let _ = delivery.tx.send(delivery.message);
                }
            }
            FanoutStep::Finished => return fanout.finish(),
        }
    }
}

#[test]
fn register_then_deregister_removes_entry() {
    let mut registry = SessionRegistry::new();
    let id = PeerId::new();
    registry.register(id, make_handle());
    assert!(registry.contains(id));
    registry.deregister(id);
    assert!(!registry.contains(id));
}

#[test]
fn deregister_fires_disconnect_tx() {
    let mut registry = SessionRegistry::new();
    let id = PeerId::new();
    let (tx, mut rx) = oneshot::channel::<()>();
    registry.register(
        id,
        PeerHandle {
            data_channel: None,
            peer_connection: None,
            ws_tx: None,
            disconnect_tx: tx,
        },
    );
    let signal = registry.deregister(id).expect("a registered peer has a disconnect signal");
    let _ = signal.send(());
    assert!(rx.try_recv().is_ok());
}

#[test]
fn deregister_unknown_peer_is_noop() {
    let mut registry = SessionRegistry::new();
    registry.deregister(PeerId::new());
}

#[test]
fn set_ws_sender_stores_value() {
    let mut registry = SessionRegistry::new();
    let id = PeerId::new();
    registry.register(id, make_handle());
    let (tx, _rx) = mpsc::unbounded_channel::<IceWsMessage>();
    registry.set_ws_sender(id, tx);
    assert!(registry.has_ws_sender(id));
}

#[test]
fn broadcast_text_skips_sender() {
    let mut registry = SessionRegistry::new();
    let sender = PeerId::new();
    registry.register(sender, make_handle());
    let deliveries = registry.broadcast_text(sender, "hello");
    assert!(deliveries.is_empty());
    assert!(registry.contains(sender));
}

#[test]
fn broadcast_text_silently_skips_peers_without_dc() {
    let mut registry = SessionRegistry::new();
    let sender = PeerId::new();
    let other = PeerId::new();
    registry.register(sender, make_handle());
    registry.register(other, make_handle());
    let deliveries = registry.broadcast_text(sender, "hello");
    assert!(deliveries.is_empty());
    assert!(registry.contains(other));
}

#[test]
fn add_track_to_all_skips_peers_without_pc() {
    block_on(async {
        let mut registry = SessionRegistry::new();
        let publisher = PeerId::new();
        let listener = PeerId::new();
        registry.register(publisher, make_handle());
        registry.register(listener, make_handle());

        let senders = fan_out(&registry, publisher, audio_track()).await.unwrap();
        assert!(senders.is_empty());
    });
}

#[test]
fn remove_tracks_with_empty_list_is_noop() {
    let registry = SessionRegistry::new();
    let plan = registry.remove_track_targets(&vec![]);
    assert!(plan.is_empty());
}

#[test]
fn add_track_to_all_fans_out_to_receivers_skips_publisher() {
    block_on(async {
        let publisher_pc = new_connection().await;
        let receiver_pc = new_connection().await;

        let mut registry = SessionRegistry::new();
        let publisher = PeerId::new();
        let receiver = PeerId::new();

        let (tx1, _) = oneshot::channel();
        registry.register(
            publisher,
            PeerHandle {
                data_channel: None,
                peer_connection: Some(Arc::clone(&publisher_pc)),
                ws_tx: None,
                disconnect_tx: tx1,
            },
        );
        let (tx2, _) = oneshot::channel();
        registry.register(
            receiver,
            PeerHandle {
                data_channel: None,
                peer_connection: Some(Arc::clone(&receiver_pc)),
                ws_tx: None,
                disconnect_tx: tx2,
            },
        );

        let senders = fan_out(&registry, publisher, audio_track()).await.unwrap();
        assert_eq!(senders.len(), 1, "only the receiver should receive the track");
        assert_eq!(senders[0].0, receiver, "sender entry must reference the receiver peer");
    });
}

#[test]
fn remove_tracks_removes_senders_from_correct_connections() {
    block_on(async {
        let publisher_pc = new_connection().await;
        let receiver_pc = new_connection().await;

        let mut registry = SessionRegistry::new();
        let publisher = PeerId::new();
        let receiver = PeerId::new();

        let (tx1, _) = oneshot::channel();
        registry.register(
            publisher,
            PeerHandle {
                data_channel: None,
                peer_connection: Some(Arc::clone(&publisher_pc)),
                ws_tx: None,
                disconnect_tx: tx1,
            },
        );
        let (tx2, _) = oneshot::channel();
        registry.register(
            receiver,
            PeerHandle {
                data_channel: None,
                peer_connection: Some(Arc::clone(&receiver_pc)),
                ws_tx: None,
                disconnect_tx: tx2,
            },
        );

        let senders = fan_out(&registry, publisher, audio_track()).await.unwrap();
        assert!(!senders.is_empty());
        let plan = registry.remove_track_targets(&senders);
        assert_eq!(plan.len(), senders.len());
        assert!(Arc::ptr_eq(&plan[0].0, &receiver_pc));
        for (pc, sender) in plan {
            let _ = pc.remove_track(&sender).await;
        }
    });
}

#[test]
fn apply_remote_answer_fails_for_unknown_peer() {
    let registry = SessionRegistry::new();
    let result = registry.prepare_remote_answer(PeerId::new(), SdpAnswer { sdp: "v=0\r\n".to_string() });
    assert!(matches!(result, Err(AppError::SignalingError(_))));
}

#[test]
fn apply_remote_answer_fails_for_peer_without_connection() {
    let mut registry = SessionRegistry::new();
    let id = PeerId::new();
    registry.register(id, make_handle());
    let result = registry.prepare_remote_answer(id, SdpAnswer { sdp: "v=0\r\n".to_string() });
    assert!(matches!(result, Err(AppError::SignalingError(_))));
}

#[test]
fn apply_remote_answer_rejects_unparsable_sdp() {
    block_on(async {
        let mut registry = SessionRegistry::new();
        let id = PeerId::new();
        let (tx, _) = oneshot::channel();
        registry.register(
            id,
            PeerHandle {
                data_channel: None,
                peer_connection: Some(new_connection().await),
                ws_tx: None,
                disconnect_tx: tx,
            },
        );
        let result = registry.prepare_remote_answer(id, SdpAnswer { sdp: "not sdp".to_string() });
        assert!(matches!(result, Err(AppError::SdpParseFailed(_))));
        let ok = registry.prepare_remote_answer(
            id,
            SdpAnswer { sdp: "v=0\r\no=- 0 0 IN IP4 127.0.0.1\r\ns=-\r\nt=0 0\r\n".to_string() },
        );
        let (_, desc) = ok.unwrap();
        assert_eq!(desc.sdp, "v=0\r\no=- 0 0 IN IP4 127.0.0.1\r\ns=-\r\nt=0 0\r\n");
    });
}

#[test]
fn data_channel_read_after_write_and_broadcast_reaches_others() {
    block_on(async {
        let pc = new_connection().await;
        let dc = pc.create_data_channel("chat", None).await.unwrap();

        let mut registry = SessionRegistry::new();
        let speaker = PeerId::new();
        let listener = PeerId::new();
        let silent = PeerId::new();
        registry.register(speaker, make_handle());
        registry.register(listener, make_handle());
        registry.register(silent, make_handle());

        assert!(registry.get_data_channel(listener).is_none());
        registry.set_data_channel(listener, Arc::clone(&dc));
        registry.set_data_channel(speaker, Arc::clone(&dc));
        assert!(Arc::ptr_eq(&registry.get_data_channel(listener).unwrap(), &dc));

        let deliveries = registry.broadcast_text(speaker, "hi all");
        assert_eq!(deliveries.len(), 1);
        assert_eq!(deliveries[0].to, listener);
        assert_eq!(deliveries[0].text, "hi all");
        assert!(Arc::ptr_eq(&deliveries[0].channel, &dc));

        let unknown = PeerId::new();
        registry.set_data_channel(unknown, Arc::clone(&dc));
        assert!(!registry.contains(unknown));
        assert!(registry.get_data_channel(unknown).is_none());
    });
}

#[test]
fn set_ws_sender_on_unknown_peer_registers_nothing() {
    let mut registry = SessionRegistry::new();
    let id = PeerId::new();
    let (tx, _rx) = mpsc::unbounded_channel::<IceWsMessage>();
    registry.set_ws_sender(id, tx);
    assert!(!registry.contains(id));
    assert!(!registry.has_ws_sender(id));
}

#[test]
fn register_twice_keeps_latest_handle() {
    let mut registry = SessionRegistry::new();
    let id = PeerId::new();
    registry.register(id, make_handle());
    let (tx, _rx) = mpsc::unbounded_channel::<IceWsMessage>();
    let (dtx, _) = oneshot::channel();
    registry.register(id, PeerHandle { data_channel: None, peer_connection: None, ws_tx: Some(tx), disconnect_tx: dtx });
    assert!(registry.has_ws_sender(id));
    registry.deregister(id);
    registry.deregister(id);
    assert!(!registry.contains(id));
}

#[test]
fn fan_out_renegotiates_with_peers_that_have_a_socket() {
    block_on(async {
        let publisher_pc = new_connection().await;
        let receiver_pc = new_connection_with_codecs().await;
        let mut registry = SessionRegistry::new();
        let publisher = PeerId::new();
        let receiver = PeerId::new();
        let (tx1, _) = oneshot::channel();
        registry.register(publisher, PeerHandle { data_channel: None, peer_connection: Some(publisher_pc), ws_tx: None, disconnect_tx: tx1 });
        let (tx2, _) = oneshot::channel();
        registry.register(receiver, PeerHandle { data_channel: None, peer_connection: Some(receiver_pc), ws_tx: None, disconnect_tx: tx2 });
        let (ws_tx, mut ws_rx) = mpsc::unbounded_channel::<IceWsMessage>();
        registry.set_ws_sender(receiver, ws_tx);

        let senders = fan_out(&registry, publisher, audio_track()).await.unwrap();
        assert_eq!(senders.len(), 1);
        assert_eq!(senders[0].0, receiver);
        match ws_rx.try_recv() {
            Ok(IceWsMessage::Offer(offer)) => assert!(offer.sdp.starts_with("v=0")),
            _ => panic!("the receiver must be sent a renegotiation offer"),
        }
    });
}

#[test]
fn fan_out_stops_at_first_failure() {
    let mut registry = SessionRegistry::new();
    block_on(async {
        let (tx, _) = oneshot::channel();
        registry.register(PeerId::new(), PeerHandle { data_channel: None, peer_connection: Some(new_connection().await), ws_tx: None, disconnect_tx: tx });
    });
    let mut fanout = TrackFanout::start(&registry, PeerId::new());
    assert!(matches!(fanout.step(), FanoutStep::AddTrack(_)));
    fanout.track_added(Err("no codec".to_string()));
    assert!(matches!(fanout.step(), FanoutStep::Finished));
    match fanout.finish() {
        Err(AppError::SignalingError(m)) => assert_eq!(m, "no codec"),
        _ => panic!("the failure must be reported"),
    }
}

#[test]
fn register_hands_back_replaced_handle_unsignalled() {
    let mut registry = SessionRegistry::new();
    let id = PeerId::new();
    let (tx1, mut rx1) = oneshot::channel::<()>();
    assert!(registry.register(id, PeerHandle::new(tx1)).is_none());
    let (tx2, _rx2) = oneshot::channel::<()>();
    let replaced = registry.register(id, PeerHandle::new(tx2)).expect("the first handle comes back");
    assert!(matches!(rx1.try_recv(), Err(oneshot::error::TryRecvError::Empty)));
    drop(replaced);
    assert!(rx1.try_recv().is_err());
}

#[test]
fn deregister_hands_back_only_the_removed_peers_signal() {
    let mut registry = SessionRegistry::new();
    let gone = PeerId::new();
    let stays = PeerId::new();
    let (tx1, mut rx1) = oneshot::channel::<()>();
    let (tx2, mut rx2) = oneshot::channel::<()>();
    registry.register(gone, PeerHandle::new(tx1));
    registry.register(stays, PeerHandle::new(tx2));
    assert!(registry.deregister(PeerId::new()).is_none());
    let signal = registry.deregister(gone).unwrap();
    let _ = signal.send(());
    assert!(rx1.try_recv().is_ok());
    assert!(matches!(rx2.try_recv(), Err(oneshot::error::TryRecvError::Empty)));
    assert!(registry.contains(stays));
    assert!(registry.deregister(gone).is_none());
}

#[test]
fn socket_delivery_only_to_peers_with_a_socket() {
    let mut registry = SessionRegistry::new();
    let id = PeerId::new();
    registry.register(id, make_handle());
    assert!(registry.socket_delivery(id, IceWsMessage::Done).is_none());
    let (tx, mut rx) = mpsc::unbounded_channel::<IceWsMessage>();
    registry.set_ws_sender(id, tx);
    let d = registry.socket_delivery(id, IceWsMessage::Done).unwrap();
    assert_eq!(d.to, id);
    d.tx.send(d.message).unwrap();
    assert!(matches!(rx.try_recv(), Ok(IceWsMessage::Done)));
    assert!(registry.socket_delivery(PeerId::new(), IceWsMessage::Done).is_none());
}

#[test]
fn fan_out_hands_back_offer_for_the_target_socket() {
    let mut registry = SessionRegistry::new();
    let receiver = PeerId::new();
    block_on(async {
        let (tx, _) = oneshot::channel();
        registry.register(receiver, PeerHandle { data_channel: None, peer_connection: Some(new_connection().await), ws_tx: None, disconnect_tx: tx });
    });
    let (ws_tx, mut ws_rx) = mpsc::unbounded_channel::<IceWsMessage>();
    registry.set_ws_sender(receiver, ws_tx);
    let mut fanout = TrackFanout::start(&registry, PeerId::new());
    assert!(matches!(fanout.step(), FanoutStep::AddTrack(_)));
    let sender = block_on(async {
        let pc = new_connection_with_codecs().await;
        let track_dyn: Arc<dyn TrackLocal + Send + Sync> = audio_track() as _;
        pc.add_track(track_dyn).await.unwrap()
    });
    fanout.track_added(Ok(sender));
    assert!(matches!(fanout.step(), FanoutStep::Renegotiate(_)));
    let delivery = fanout.renegotiated(Ok("v=0 offer".to_string())).unwrap();
    assert_eq!(delivery.to, receiver);
    match &delivery.message {
        IceWsMessage::Offer(o) => assert_eq!(o.sdp, "v=0 offer"),
        _ => panic!("a renegotiation hands back an offer"),
    }
    delivery.tx.send(delivery.message).unwrap();
    assert!(matches!(ws_rx.try_recv(), Ok(IceWsMessage::Offer(_))));
    assert!(matches!(fanout.step(), FanoutStep::Finished));
    let senders = fanout.finish().unwrap();
    assert_eq!(senders.len(), 1);
    assert_eq!(senders[0].0, receiver);
}
