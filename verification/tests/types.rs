use web_rtc_server::error::AppError;
use web_rtc_server::types::PeerId;

#[test]
fn app_error_display_non_empty() {
    let errors = [
        AppError::PeerConnectionFailed("test".to_string()),
        AppError::SdpParseFailed("test".to_string()),
        AppError::IceCandidateFailed("test".to_string()),
        AppError::SignalingError("test".to_string()),
    ];
    for err in &errors {
        assert!(!err.to_string().is_empty());
    }
}

#[test]
fn peer_id_new_produces_unique_ids() {
    let a = PeerId::new();
    let b = PeerId::new();
    assert_ne!(a, b);
}

#[test]
fn peer_id_copy_and_eq() {
    let id = PeerId::new();
    let copy = id;
    assert_eq!(id, copy);
}

#[test]
fn app_error_messages_name_their_kind() {
    assert_eq!(
        AppError::PeerConnectionFailed("x".to_string()).to_string(),
        "peer connection failed: x"
    );
    assert_eq!(AppError::SdpParseFailed("x".to_string()).to_string(), "SDP parse failed: x");
    assert_eq!(
        AppError::IceCandidateFailed("x".to_string()).to_string(),
        "ICE candidate failed: x"
    );
    assert_eq!(AppError::SignalingError("x".to_string()).to_string(), "signaling error: x");
}

#[test]
fn app_error_answers_500_with_message() {
    let e = AppError::SignalingError("boom".to_string());
    assert_eq!(e.status_code(), 500);
    let (status, body) = e.into_response_parts();
    assert_eq!(status, 500);
    assert_eq!(body, "signaling error: boom");
}

#[test]
fn peer_id_new_is_random_version_uuid() {
    let id = PeerId::new();
    let uuid = uuid::Uuid::from_u128(id.0);
    assert_eq!(uuid.get_version(), Some(uuid::Version::Random));
    assert_eq!(uuid.get_variant(), uuid::Variant::RFC4122);
}
