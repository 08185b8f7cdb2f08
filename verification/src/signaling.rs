//! The pluggable signaling that carries the SDP offer and answer between
//! the peers: its errors. Implementations (a WebSocket relay, manual
//! copy-paste, ...) live with the application.
use vstd::prelude::*;
use crate::error::join_text;

verus! {

/// An error reported by a signaling implementation.
#[derive(Clone, Debug)]
pub enum SignalingError {
    Failed(String),
}

impl View for SignalingError {
    type V = Seq<char>;

    open spec fn view(&self) -> Seq<char> {
        match self {
            SignalingError::Failed(s) => s@,
        }
    }
}

/// The human-readable message of a signaling error with the given detail.
pub open spec fn signaling_message(detail: Seq<char>) -> Seq<char> {
    "signaling failed: "@ + detail
}

impl SignalingError {
    /// The detail text of this error.
    pub fn detail(&self) -> (d: &String)
        ensures
            d@ == self@,
    {
        match self {
            SignalingError::Failed(s) => s,
        }
    }

    /// The human-readable message of this error.
    pub fn message(&self) -> (m: String)
        ensures
            m@ == signaling_message(self@),
    {
        match self {
            SignalingError::Failed(s) => join_text("signaling failed: ", s.as_str()),
        }
    }
}

} // verus!
