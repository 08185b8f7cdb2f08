//! Errors of the WebRTC transport.
use vstd::prelude::*;
use crate::signaling::{signaling_message, SignalingError};

verus! {

/// Which stage of the connection an error comes from.
#[derive(Clone, Copy, Debug, PartialEq, Eq, Structural)]
pub enum ErrorKind {
    Signaling,
    Connection,
    DataChannel,
}

/// An error of the WebRTC transport; each variant carries its detail text.
#[derive(Clone, Debug)]
pub enum WebRtcError {
    Signaling(String),
    Connection(String),
    DataChannel(String),
}

impl View for WebRtcError {
    type V = (ErrorKind, Seq<char>);

    open spec fn view(&self) -> (ErrorKind, Seq<char>) {
        match self {
            WebRtcError::Signaling(s) => (ErrorKind::Signaling, s@),
            WebRtcError::Connection(s) => (ErrorKind::Connection, s@),
            WebRtcError::DataChannel(s) => (ErrorKind::DataChannel, s@),
        }
    }
}

/// The text that introduces an error of the given kind.
pub open spec fn kind_prefix(kind: ErrorKind) -> Seq<char> {
    match kind {
        ErrorKind::Signaling => "signaling failed: "@,
        ErrorKind::Connection => "WebRTC connection failed: "@,
        ErrorKind::DataChannel => "DataChannel error: "@,
    }
}

/// The human-readable message of an error: its kind's prefix, then its detail.
pub open spec fn error_message(e: (ErrorKind, Seq<char>)) -> Seq<char> {
    kind_prefix(e.0) + e.1
}

/// Joins a fixed prefix and a detail text.
pub fn join_text(prefix: &str, detail: &str) -> (res: String)
    ensures
        res@ == prefix@ + detail@,
{
    let mut res = String::from_str(prefix);
    res.append(detail);
    res
}

impl WebRtcError {
    /// A connection error whose detail is `context` followed by `detail`.
    pub fn connection_with(context: &str, detail: &str) -> (e: WebRtcError)
        ensures
            e@ == (ErrorKind::Connection, context@ + detail@),
    {
        WebRtcError::Connection(join_text(context, detail))
    }

    /// A connection error with a fixed detail text.
    pub fn connection(detail: &str) -> (e: WebRtcError)
        ensures
            e@ == (ErrorKind::Connection, detail@),
    {
        WebRtcError::Connection(String::from_str(detail))
    }

    /// A copy of this error with the same kind and text.
    pub fn duplicate(&self) -> (e: WebRtcError)
        ensures
            e@ == self@,
    {
        match self {
            WebRtcError::Signaling(s) => WebRtcError::Signaling(s.clone()),
            WebRtcError::Connection(s) => WebRtcError::Connection(s.clone()),
            WebRtcError::DataChannel(s) => WebRtcError::DataChannel(s.clone()),
        }
    }

    /// The kind of this error.
    pub fn kind(&self) -> (k: ErrorKind)
        ensures
            k == self@.0,
    {
        match self {
            WebRtcError::Signaling(_) => ErrorKind::Signaling,
            WebRtcError::Connection(_) => ErrorKind::Connection,
            WebRtcError::DataChannel(_) => ErrorKind::DataChannel,
        }
    }

    /// The detail text of this error.
    pub fn detail(&self) -> (d: &String)
        ensures
            d@ == self@.1,
    {
        match self {
            WebRtcError::Signaling(s) => s,
            WebRtcError::Connection(s) => s,
            WebRtcError::DataChannel(s) => s,
        }
    }

    /// The human-readable message, as shown when a connection attempt fails.
    pub fn message(&self) -> (m: String)
        ensures
            m@ == error_message(self@),
    {
        match self {
            WebRtcError::Signaling(s) => join_text("signaling failed: ", s.as_str()),
            WebRtcError::Connection(s) => join_text("WebRTC connection failed: ", s.as_str()),
            WebRtcError::DataChannel(s) => join_text("DataChannel error: ", s.as_str()),
        }
    }

    /// The transport error for a failed signaling exchange: its detail is the
    /// signaling error's message.
    pub fn from_signaling(e: &SignalingError) -> (res: WebRtcError)
        ensures
            res@ == (ErrorKind::Signaling, signaling_message(e@)),
    {
        WebRtcError::Signaling(e.message())
    }
}

} // verus!
