//! The error type shared by every operation of the server.

use vstd::prelude::*;

verus! {

/// What can go wrong while signaling; each variant carries a description.
#[derive(Debug)]
pub enum AppError {
    PeerConnectionFailed(String),
    SdpParseFailed(String),
    IceCandidateFailed(String),
    SignalingError(String),
}

/// The HTTP status with which every error is answered: 500.
pub const INTERNAL_SERVER_ERROR: u16 = 500;

impl AppError {
    /// The description carried by the error.
    pub open spec fn detail(self) -> Seq<char> {
        match self {
            AppError::PeerConnectionFailed(m) => m@,
            AppError::SdpParseFailed(m) => m@,
            AppError::IceCandidateFailed(m) => m@,
            AppError::SignalingError(m) => m@,
        }
    }

    /// The words that name the kind of failure, before its description.
    pub open spec fn prefix(self) -> Seq<char> {
        match self {
            AppError::PeerConnectionFailed(_) => "peer connection failed: "@,
            AppError::SdpParseFailed(_) => "SDP parse failed: "@,
            AppError::IceCandidateFailed(_) => "ICE candidate failed: "@,
            AppError::SignalingError(_) => "signaling error: "@,
        }
    }

    /// The human-readable message: the kind's prefix, then the description.
    pub open spec fn message(self) -> Seq<char> {
        self.prefix() + self.detail()
    }

    /// The human-readable message of the error, e.g.
    /// `"SDP parse failed: SDP must not be empty"`.
    pub fn to_string(&self) -> (s: String)
        ensures
            s@ == self.message(),
    {
        let (prefix, detail) = match self {
            AppError::PeerConnectionFailed(m) => ("peer connection failed: ", m),
            AppError::SdpParseFailed(m) => ("SDP parse failed: ", m),
            AppError::IceCandidateFailed(m) => ("ICE candidate failed: ", m),
            AppError::SignalingError(m) => ("signaling error: ", m),
        };
        let mut s = String::from_str(prefix);
        s.append(detail.as_str());
        s
    }

    /// The HTTP status an error is answered with.
    pub fn status_code(&self) -> (code: u16)
        ensures
            code == INTERNAL_SERVER_ERROR,
    {
        INTERNAL_SERVER_ERROR
    }

    /// The HTTP response an error becomes: status 500 and the message as body.
    pub fn into_response_parts(&self) -> (parts: (u16, String))
        ensures
            parts.0 == INTERNAL_SERVER_ERROR,
            parts.1@ == self.message(),
    {
        (self.status_code(), self.to_string())
    }
}

} // verus!
