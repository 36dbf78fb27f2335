//! Checks applied to what the browser sends before it reaches the peer
//! connection.

use vstd::prelude::*;

use crate::error::AppError;
use crate::types::{IceCandidate, SdpOffer};

verus! {

/// What `sdp::SessionDescription::unmarshal` reports for the given text:
/// `None` when it parses it, `Some(description)` of the error when it does not.
pub uninterp spec fn sdp_unmarshal_failure(raw: Seq<char>) -> Option<Seq<char>>;

/// Runs `sdp::SessionDescription::unmarshal` over the bytes of `raw`, keeping
/// only whether it succeeded and, if not, the error's text.
#[verifier::external_body]
fn sdp_unmarshal(raw: &str) -> (outcome: Result<(), String>)
    ensures
        match outcome {
            Ok(()) => sdp_unmarshal_failure(raw@) is None,
            Err(e) => sdp_unmarshal_failure(raw@) == Some(e@),
        },
{
    let mut cursor = std::io::Cursor::new(raw.as_bytes());
    match sdp::SessionDescription::unmarshal(&mut cursor) {
        Ok(_) => Ok(()),
        Err(e) => Err(e.to_string()),
    }
}

/// The description given when an empty offer is rejected.
pub open spec fn empty_sdp_text() -> Seq<char> {
    "SDP must not be empty"@
}

/// The description given when an empty candidate is rejected.
pub open spec fn empty_candidate_text() -> Seq<char> {
    "candidate string must not be empty"@
}

/// Whether `r` is an `SdpParseFailed` error described by `text`.
pub open spec fn is_sdp_parse_failure(r: Result<SdpOffer, AppError>, text: Seq<char>) -> bool {
    r matches Err(AppError::SdpParseFailed(m)) && m@ == text
}

/// The offer accepted for `raw` once the SDP parser has reported on it: the
/// text unchanged when it parsed, an `SdpParseFailed` error carrying the
/// parser's description when it did not.
pub fn sdp_offer_from_unmarshal(raw: &str, unmarshalled: Result<(), String>) -> (r: Result<
    SdpOffer,
    AppError,
>)
    ensures
        match unmarshalled {
            Ok(()) => r matches Ok(offer) && offer.sdp@ == raw@,
            Err(e) => is_sdp_parse_failure(r, e@),
        },
{
    match unmarshalled {
        Ok(()) => Ok(SdpOffer { sdp: String::from_str(raw) }),
        Err(e) => Err(AppError::SdpParseFailed(e)),
    }
}

/// Checks that `raw` is a well-formed SDP session description.
///
/// An empty text is refused without consulting the parser; any other text is
/// accepted exactly when `sdp::SessionDescription::unmarshal` accepts it, and
/// the accepted offer carries the text unchanged.
pub fn parse_sdp_offer(raw: &str) -> (r: Result<SdpOffer, AppError>)
    ensures
        raw@.len() == 0 ==> is_sdp_parse_failure(r, empty_sdp_text()),
        raw@.len() > 0 ==> match sdp_unmarshal_failure(raw@) {
            None => r matches Ok(offer) && offer.sdp@ == raw@,
            Some(text) => is_sdp_parse_failure(r, text),
        },
{
    if raw.is_empty() {
        return Err(AppError::SdpParseFailed(String::from_str("SDP must not be empty")));
    }
    let unmarshalled = sdp_unmarshal(raw);
    sdp_offer_from_unmarshal(raw, unmarshalled)
}

/// Checks that a trickled candidate carries a candidate line.
pub fn validate_ice_candidate(candidate: &IceCandidate) -> (r: Result<(), AppError>)
    ensures
        r is Ok <==> candidate.candidate@.len() > 0,
        r is Err ==> (r matches Err(AppError::IceCandidateFailed(m)) && m@ == empty_candidate_text()),
{
    if candidate.candidate.as_str().is_empty() {
        return Err(
            AppError::IceCandidateFailed(String::from_str("candidate string must not be empty")),
        );
    }
    Ok(())
}

} // verus!
