use web_rtc_server::error::AppError;
use web_rtc_server::operations::{parse_sdp_offer, sdp_offer_from_unmarshal, validate_ice_candidate};
use web_rtc_server::types::IceCandidate;

const VALID_SDP: &str = "v=0\r\n\
    o=- 0 0 IN IP4 127.0.0.1\r\n\
    s=-\r\n\
    t=0 0\r\n";

#[test]
fn parse_sdp_offer_valid() {
    let result = parse_sdp_offer(VALID_SDP);
    assert!(result.is_ok());
    assert_eq!(result.unwrap().sdp, VALID_SDP);
}

#[test]
fn parse_sdp_offer_empty() {
    let result = parse_sdp_offer("");
    assert!(matches!(result, Err(AppError::SdpParseFailed(_))));
}

#[test]
fn parse_sdp_offer_garbage() {
    let result = parse_sdp_offer("this is not an sdp");
    assert!(matches!(result, Err(AppError::SdpParseFailed(_))));
}

#[test]
fn parse_sdp_offer_incomplete() {
    let result = parse_sdp_offer("v=0\r\n");
    assert!(matches!(result, Err(AppError::SdpParseFailed(_))));
}

#[test]
fn validate_ice_candidate_valid() {
    let candidate = IceCandidate {
        candidate: "candidate:1 1 UDP 2130706431 192.168.1.1 54321 typ host".to_string(),
        sdp_mid: Some("0".to_string()),
        sdp_mline_index: Some(0),
    };
    assert!(validate_ice_candidate(&candidate).is_ok());
}

#[test]
fn validate_ice_candidate_empty() {
    let candidate = IceCandidate {
        candidate: String::new(),
        sdp_mid: None,
        sdp_mline_index: None,
    };
    assert!(matches!(
        validate_ice_candidate(&candidate),
        Err(AppError::IceCandidateFailed(_))
    ));
}

#[test]
fn parse_sdp_offer_empty_message() {
    match parse_sdp_offer("") {
        Err(AppError::SdpParseFailed(m)) => assert_eq!(m, "SDP must not be empty"),
        _ => panic!("an empty offer must be refused"),
    }
}

#[test]
fn parse_sdp_offer_garbage_carries_parser_text() {
    match parse_sdp_offer("this is not an sdp") {
        Err(AppError::SdpParseFailed(m)) => assert!(!m.is_empty()),
        _ => panic!("garbage must be refused"),
    }
}

#[test]
fn validate_ice_candidate_empty_message() {
    let candidate = IceCandidate { candidate: String::new(), sdp_mid: None, sdp_mline_index: None };
    match validate_ice_candidate(&candidate) {
        Err(AppError::IceCandidateFailed(m)) => assert_eq!(m, "candidate string must not be empty"),
        _ => panic!("an empty candidate must be refused"),
    }
}

#[test]
fn sdp_offer_from_unmarshal_keeps_text_or_error() {
    let ok = sdp_offer_from_unmarshal("v=0\r\n", Ok(())).unwrap();
    assert_eq!(ok.sdp, "v=0\r\n");
    match sdp_offer_from_unmarshal("x", Err("bad line".to_string())) {
        Err(AppError::SdpParseFailed(m)) => assert_eq!(m, "bad line"),
        _ => panic!("the parser's error must be passed on"),
    }
}
