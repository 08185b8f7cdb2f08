//! The offer/answer handshake that connects two browser peers, for both
//! roles. The host creates the data channel, publishes its offer (with all
//! ICE candidates) through signaling and applies the answer; the guest
//! retrieves the offer, answers it (with all ICE candidates) and receives the
//! data channel from the host.
use vstd::prelude::*;
use crate::channel::{
    data_channel_settings, game_channel_settings, unlink_reason, unlink_reason_of, DataChannelSettings,
    WebRtcEvent, WebRtcEventModel,
};
use crate::error::{ErrorKind, WebRtcError};
use crate::signaling::{signaling_message, SignalingError};
use crate::ice::{outcome_view, IceOutcome};

verus! {

/// The two kinds of session description.
#[derive(Clone, Copy, Debug, PartialEq, Eq, Structural)]
pub enum SdpKind {
    Offer,
    Answer,
}

/// An error, as kind and text.
pub type ErrorModel = (ErrorKind, Seq<char>);

/// The outside work that the handshake asks for next.
#[derive(Debug)]
pub enum Step {
    /// Create the peer connection from the ICE configuration.
    CreatePeerConnection,
    /// Create the data channel with these settings and wire its callbacks.
    OpenDataChannel(DataChannelSettings),
    /// Ask the peer connection for an offer.
    CreateOffer,
    /// Ask the peer connection for an answer.
    CreateAnswer,
    /// Read the `sdp` field of the description just created.
    ReadSdp,
    /// Set the local description.
    SetLocalDescription(SdpKind, String),
    /// Set the remote description.
    SetRemoteDescription(SdpKind, String),
    /// Wait for ICE gathering to complete and read the full local SDP.
    GatherIce,
    /// Publish the offer through signaling and wait for the answer.
    PublishOffer(String),
    /// Retrieve the host's offer through signaling.
    RetrieveOffer,
    /// Send the answer to the host through signaling.
    SubmitAnswer(String),
    /// Wait for the host's data channel to arrive.
    AwaitDataChannel,
    /// Wire the callbacks of the data channel that arrived.
    WireDataChannel,
    /// Wait for the data channel's first event, which tells whether it opened.
    AwaitChannelOpen,
    /// The connection is live: the data channel is wired and open.
    Finished,
    /// Setting up the connection failed with this error.
    Failed(WebRtcError),
}

/// What the outside work of a step gave back.
#[derive(Debug)]
pub enum Reply {
    /// A browser call completed, or failed with the debug text of its error.
    Done(Result<(), String>),
    /// Work that cannot fail is done.
    Completed,
    /// The `sdp` field was read: its text if it is a string; the debug text of
    /// the error if it could not be read.
    Sdp(Result<Option<String>, String>),
    /// ICE gathering ended with the full local SDP, or with an error.
    Ice(Result<String, WebRtcError>),
    /// Signaling gave back a description (the answer to a published offer, or
    /// the retrieved offer), or failed.
    Signaled(Result<String, SignalingError>),
    /// The answer was submitted through signaling, or that failed.
    Submitted(Result<(), SignalingError>),
    /// The wait for the host's data channel ended: `true` when it arrived.
    ChannelArrived(bool),
    /// The data channel's first event, or `None` when its events ended
    /// before any came.
    ChannelEvent(Option<WebRtcEvent>),
}

/// Where the handshake stands.
#[derive(Debug)]
pub enum Stage {
    HostPeer,
    HostChannel,
    HostOffer,
    HostReadOffer,
    HostSetLocal(String),
    HostGather,
    HostPublish(String),
    HostSetRemote(String),
    HostAwaitOpen,
    GuestRetrieve,
    GuestPeer(String),
    GuestSetRemote(String),
    GuestAnswer,
    GuestReadAnswer,
    GuestSetLocal(String),
    GuestGather,
    GuestSubmit(String),
    GuestAwaitChannel,
    GuestWire,
    GuestAwaitOpen,
    Connected,
    Failed(WebRtcError),
}

/// A handshake step, as text.
pub enum StepModel {
    CreatePeerConnection,
    OpenDataChannel,
    CreateOffer,
    CreateAnswer,
    ReadSdp,
    SetLocalDescription(SdpKind, Seq<char>),
    SetRemoteDescription(SdpKind, Seq<char>),
    GatherIce,
    PublishOffer(Seq<char>),
    RetrieveOffer,
    SubmitAnswer(Seq<char>),
    AwaitDataChannel,
    WireDataChannel,
    AwaitChannelOpen,
    Finished,
    Failed(ErrorModel),
}

/// A handshake reply, as text.
pub enum ReplyModel {
    /// A browser call completed (`None`) or failed with this error text.
    Done(Option<Seq<char>>),
    Completed,
    Sdp(Result<Option<Seq<char>>, Seq<char>>),
    Ice(IceOutcome),
    Signaled(Result<Seq<char>, Seq<char>>),
    /// The answer was submitted (`None`) or signaling failed with this text.
    Submitted(Option<Seq<char>>),
    ChannelArrived(bool),
    ChannelEvent(Option<WebRtcEventModel>),
}

/// A handshake stage, as text.
pub enum StageModel {
    HostPeer,
    HostChannel,
    HostOffer,
    HostReadOffer,
    HostSetLocal(Seq<char>),
    HostGather,
    HostPublish(Seq<char>),
    HostSetRemote(Seq<char>),
    HostAwaitOpen,
    GuestRetrieve,
    GuestPeer(Seq<char>),
    GuestSetRemote(Seq<char>),
    GuestAnswer,
    GuestReadAnswer,
    GuestSetLocal(Seq<char>),
    GuestGather,
    GuestSubmit(Seq<char>),
    GuestAwaitChannel,
    GuestWire,
    GuestAwaitOpen,
    Connected,
    Failed(ErrorModel),
}

impl View for Step {
    type V = StepModel;

    open spec fn view(&self) -> StepModel {
        match self {
            Step::CreatePeerConnection => StepModel::CreatePeerConnection,
            Step::OpenDataChannel(_) => StepModel::OpenDataChannel,
            Step::CreateOffer => StepModel::CreateOffer,
            Step::CreateAnswer => StepModel::CreateAnswer,
            Step::ReadSdp => StepModel::ReadSdp,
            Step::SetLocalDescription(k, s) => StepModel::SetLocalDescription(*k, s@),
            Step::SetRemoteDescription(k, s) => StepModel::SetRemoteDescription(*k, s@),
            Step::GatherIce => StepModel::GatherIce,
            Step::PublishOffer(s) => StepModel::PublishOffer(s@),
            Step::RetrieveOffer => StepModel::RetrieveOffer,
            Step::SubmitAnswer(s) => StepModel::SubmitAnswer(s@),
            Step::AwaitDataChannel => StepModel::AwaitDataChannel,
            Step::WireDataChannel => StepModel::WireDataChannel,
            Step::AwaitChannelOpen => StepModel::AwaitChannelOpen,
            Step::Finished => StepModel::Finished,
            Step::Failed(e) => StepModel::Failed(e@),
        }
    }
}

impl View for Reply {
    type V = ReplyModel;

    open spec fn view(&self) -> ReplyModel {
        match self {
            Reply::Done(r) => ReplyModel::Done(
                match r {
                    Ok(()) => None,
                    Err(d) => Some(d@),
                },
            ),
            Reply::Completed => ReplyModel::Completed,
            Reply::Sdp(r) => ReplyModel::Sdp(
                match r {
                    Ok(Some(s)) => Ok(Some(s@)),
                    Ok(None) => Ok(None),
                    Err(d) => Err(d@),
                },
            ),
            Reply::Ice(r) => ReplyModel::Ice(outcome_view(*r)),
            Reply::Signaled(r) => ReplyModel::Signaled(
                match r {
                    Ok(s) => Ok(s@),
                    Err(e) => Err(e@),
                },
            ),
            Reply::Submitted(r) => ReplyModel::Submitted(
                match r {
                    Ok(()) => None,
                    Err(e) => Some(e@),
                },
            ),
            Reply::ChannelArrived(b) => ReplyModel::ChannelArrived(*b),
            Reply::ChannelEvent(e) => ReplyModel::ChannelEvent(
                match e {
                    Some(ev) => Some(ev@),
                    None => None,
                },
            ),
        }
    }
}

impl View for Stage {
    type V = StageModel;

    open spec fn view(&self) -> StageModel {
        match self {
            Stage::HostPeer => StageModel::HostPeer,
            Stage::HostChannel => StageModel::HostChannel,
            Stage::HostOffer => StageModel::HostOffer,
            Stage::HostReadOffer => StageModel::HostReadOffer,
            Stage::HostSetLocal(s) => StageModel::HostSetLocal(s@),
            Stage::HostGather => StageModel::HostGather,
            Stage::HostPublish(s) => StageModel::HostPublish(s@),
            Stage::HostSetRemote(s) => StageModel::HostSetRemote(s@),
            Stage::HostAwaitOpen => StageModel::HostAwaitOpen,
            Stage::GuestRetrieve => StageModel::GuestRetrieve,
            Stage::GuestPeer(s) => StageModel::GuestPeer(s@),
            Stage::GuestSetRemote(s) => StageModel::GuestSetRemote(s@),
            Stage::GuestAnswer => StageModel::GuestAnswer,
            Stage::GuestReadAnswer => StageModel::GuestReadAnswer,
            Stage::GuestSetLocal(s) => StageModel::GuestSetLocal(s@),
            Stage::GuestGather => StageModel::GuestGather,
            Stage::GuestSubmit(s) => StageModel::GuestSubmit(s@),
            Stage::GuestAwaitChannel => StageModel::GuestAwaitChannel,
            Stage::GuestWire => StageModel::GuestWire,
            Stage::GuestAwaitOpen => StageModel::GuestAwaitOpen,
            Stage::Connected => StageModel::Connected,
            Stage::Failed(e) => StageModel::Failed(e@),
        }
    }
}

/// A connection error whose text is `context` followed by `detail`.
pub open spec fn connection_error(context: Seq<char>, detail: Seq<char>) -> ErrorModel {
    (ErrorKind::Connection, context + detail)
}

/// The error for a failed signaling exchange.
pub open spec fn signaling_error(detail: Seq<char>) -> ErrorModel {
    (ErrorKind::Signaling, signaling_message(detail))
}

/// The step that a stage asks for.
pub open spec fn step_of(s: StageModel) -> StepModel {
    match s {
        StageModel::HostPeer => StepModel::CreatePeerConnection,
        StageModel::HostChannel => StepModel::OpenDataChannel,
        StageModel::HostOffer => StepModel::CreateOffer,
        StageModel::HostReadOffer => StepModel::ReadSdp,
        StageModel::HostSetLocal(sdp) => StepModel::SetLocalDescription(SdpKind::Offer, sdp),
        StageModel::HostGather => StepModel::GatherIce,
        StageModel::HostPublish(sdp) => StepModel::PublishOffer(sdp),
        StageModel::HostSetRemote(sdp) => StepModel::SetRemoteDescription(SdpKind::Answer, sdp),
        StageModel::HostAwaitOpen => StepModel::AwaitChannelOpen,
        StageModel::GuestRetrieve => StepModel::RetrieveOffer,
        StageModel::GuestPeer(_) => StepModel::CreatePeerConnection,
        StageModel::GuestSetRemote(sdp) => StepModel::SetRemoteDescription(SdpKind::Offer, sdp),
        StageModel::GuestAnswer => StepModel::CreateAnswer,
        StageModel::GuestReadAnswer => StepModel::ReadSdp,
        StageModel::GuestSetLocal(sdp) => StepModel::SetLocalDescription(SdpKind::Answer, sdp),
        StageModel::GuestGather => StepModel::GatherIce,
        StageModel::GuestSubmit(sdp) => StepModel::SubmitAnswer(sdp),
        StageModel::GuestAwaitChannel => StepModel::AwaitDataChannel,
        StageModel::GuestWire => StepModel::WireDataChannel,
        StageModel::GuestAwaitOpen => StepModel::AwaitChannelOpen,
        StageModel::Connected => StepModel::Finished,
        StageModel::Failed(e) => StepModel::Failed(e),
    }
}

/// Whether a reply answers the step of a stage.
pub open spec fn reply_fits(s: StageModel, r: ReplyModel) -> bool {
    match s {
        StageModel::HostPeer => r is Done,
        StageModel::HostChannel => r is Completed,
        StageModel::HostOffer => r is Done,
        StageModel::HostReadOffer => r is Sdp,
        StageModel::HostSetLocal(_) => r is Done,
        StageModel::HostGather => r is Ice,
        StageModel::HostPublish(_) => r is Signaled,
        StageModel::HostSetRemote(_) => r is Done,
        StageModel::HostAwaitOpen => r is ChannelEvent,
        StageModel::GuestRetrieve => r is Signaled,
        StageModel::GuestPeer(_) => r is Done,
        StageModel::GuestSetRemote(_) => r is Done,
        StageModel::GuestAnswer => r is Done,
        StageModel::GuestReadAnswer => r is Sdp,
        StageModel::GuestSetLocal(_) => r is Done,
        StageModel::GuestGather => r is Ice,
        StageModel::GuestSubmit(_) => r is Submitted,
        StageModel::GuestAwaitChannel => r is ChannelArrived,
        StageModel::GuestWire => r is Completed,
        StageModel::GuestAwaitOpen => r is ChannelEvent,
        StageModel::Connected => false,
        StageModel::Failed(_) => false,
    }
}

/// The stage after a browser call: `next` when it completed, else a
/// connection error with the call's context and error text.
pub open spec fn after_call(
    failure: Option<Seq<char>>,
    context: Seq<char>,
    next: StageModel,
) -> StageModel {
    match failure {
        None => next,
        Some(d) => StageModel::Failed(connection_error(context, d)),
    }
}

/// The stage after reading the `sdp` field of the offer or answer just
/// created; `not_text` is the error text when the field is not a string.
pub open spec fn after_sdp_read(
    r: Result<Option<Seq<char>>, Seq<char>>,
    not_text: Seq<char>,
    next: spec_fn(Seq<char>) -> StageModel,
) -> StageModel {
    match r {
        Ok(Some(sdp)) => next(sdp),
        Ok(None) => StageModel::Failed((ErrorKind::Connection, not_text)),
        Err(d) => StageModel::Failed(connection_error("get sdp failed: "@, d)),
    }
}

/// The stage after the data channel's first event: the connection is live
/// once the channel opened; a close or an error before that, or the end of
/// its events, fails the handshake with the channel's reason.
pub open spec fn after_open(e: Option<WebRtcEventModel>) -> StageModel {
    match e {
        None => StageModel::Failed((ErrorKind::DataChannel, "DataChannel closed"@)),
        Some(ev) => match unlink_reason_of(ev) {
            None => StageModel::Connected,
            Some(reason) => StageModel::Failed((ErrorKind::DataChannel, reason)),
        },
    }
}

/// The stage after a reply. Each step that completes leads to the next one;
/// each failure ends the handshake with its error; a reply that does not
/// answer the stage's step changes nothing, and a connected or failed
/// handshake stays as it is.
pub open spec fn advance_of(s: StageModel, r: ReplyModel) -> StageModel {
    if !reply_fits(s, r) {
        s
    } else {
        match (s, r) {
            (StageModel::HostPeer, ReplyModel::Done(failure)) =>
                match failure {
                    None => StageModel::HostChannel,
                    Some(d) => StageModel::Failed((ErrorKind::Connection, d)),
                },
            (StageModel::HostChannel, _) => StageModel::HostOffer,
            (StageModel::HostOffer, ReplyModel::Done(res)) =>
                after_call(res, "create_offer failed: "@, StageModel::HostReadOffer),
            (StageModel::HostReadOffer, ReplyModel::Sdp(res)) =>
                after_sdp_read(res, "offer sdp not a string"@, |sdp: Seq<char>| StageModel::HostSetLocal(sdp)),
            (StageModel::HostSetLocal(_), ReplyModel::Done(res)) =>
                after_call(res, "set_local_description failed: "@, StageModel::HostGather),
            (StageModel::HostGather, ReplyModel::Ice(res)) =>
                match res {
                    Ok(full) => StageModel::HostPublish(full),
                    Err(e) => StageModel::Failed(e),
                },
            (StageModel::HostPublish(_), ReplyModel::Signaled(res)) =>
                match res {
                    Ok(answer) => StageModel::HostSetRemote(answer),
                    Err(d) => StageModel::Failed(signaling_error(d)),
                },
            (StageModel::HostSetRemote(_), ReplyModel::Done(res)) =>
                after_call(res, "set_remote_description failed: "@, StageModel::HostAwaitOpen),
            (StageModel::HostAwaitOpen, ReplyModel::ChannelEvent(e)) => after_open(e),
            (StageModel::GuestRetrieve, ReplyModel::Signaled(res)) =>
                match res {
                    Ok(offer) => StageModel::GuestPeer(offer),
                    Err(d) => StageModel::Failed(signaling_error(d)),
                },
            (StageModel::GuestPeer(offer), ReplyModel::Done(failure)) =>
                match failure {
                    None => StageModel::GuestSetRemote(offer),
                    Some(d) => StageModel::Failed((ErrorKind::Connection, d)),
                },
            (StageModel::GuestSetRemote(_), ReplyModel::Done(res)) =>
                after_call(res, "set_remote_description failed: "@, StageModel::GuestAnswer),
            (StageModel::GuestAnswer, ReplyModel::Done(res)) =>
                after_call(res, "create_answer failed: "@, StageModel::GuestReadAnswer),
            (StageModel::GuestReadAnswer, ReplyModel::Sdp(res)) =>
                after_sdp_read(res, "answer sdp not a string"@, |sdp: Seq<char>| StageModel::GuestSetLocal(sdp)),
            (StageModel::GuestSetLocal(_), ReplyModel::Done(res)) =>
                after_call(res, "set_local_description failed: "@, StageModel::GuestGather),
            (StageModel::GuestGather, ReplyModel::Ice(res)) =>
                match res {
                    Ok(full) => StageModel::GuestSubmit(full),
                    Err(e) => StageModel::Failed(e),
                },
            (StageModel::GuestSubmit(_), ReplyModel::Submitted(failure)) =>
                match failure {
                    None => StageModel::GuestAwaitChannel,
                    Some(d) => StageModel::Failed(signaling_error(d)),
                },
            (StageModel::GuestAwaitChannel, ReplyModel::ChannelArrived(arrived)) =>
                if arrived {
                    StageModel::GuestWire
                } else {
                    StageModel::Failed((ErrorKind::DataChannel, "ondatachannel never fired"@))
                },
            (StageModel::GuestWire, _) => StageModel::GuestAwaitOpen,
            (StageModel::GuestAwaitOpen, ReplyModel::ChannelEvent(e)) => after_open(e),
            _ => s,
        }
    }
}

/// The state of one peer's handshake.
#[derive(Debug)]
pub struct Handshake {
    stage: Stage,
}

impl View for Handshake {
    type V = StageModel;

    closed spec fn view(&self) -> StageModel {
        self.stage@
    }
}

fn text(s: &String) -> (r: String)
    ensures
        r@ == s@,
{
    s.clone()
}

fn call_failed(context: &str, detail: String) -> (s: Stage)
    ensures
        s@ == StageModel::Failed(connection_error(context@, detail@)),
{
    Stage::Failed(WebRtcError::connection_with(context, detail.as_str()))
}

fn sdp_read(
    r: Result<Option<String>, String>,
    not_text: &str,
    host: bool,
) -> (s: Stage)
    ensures
        s@ == after_sdp_read(
            match r {
                Ok(Some(x)) => Ok(Some(x@)),
                Ok(None) => Ok(None),
                Err(d) => Err(d@),
            },
            not_text@,
            |sdp: Seq<char>|
                if host {
                    StageModel::HostSetLocal(sdp)
                } else {
                    StageModel::GuestSetLocal(sdp)
                },
        ),
{
    match r {
        Ok(Some(sdp)) => {
            if host {
                Stage::HostSetLocal(sdp)
            } else {
                Stage::GuestSetLocal(sdp)
            }
        },
        Ok(None) => Stage::Failed(WebRtcError::connection(not_text)),
        Err(d) => call_failed("get sdp failed: ", d),
    }
}

fn channel_opened(e: Option<WebRtcEvent>) -> (s: Stage)
    ensures
        s@ == after_open(
            match e {
                Some(ev) => Some(ev@),
                None => None,
            },
        ),
{
    match e {
        None => Stage::Failed(WebRtcError::DataChannel(String::from_str("DataChannel closed"))),
        Some(ev) => match unlink_reason(ev) {
            None => Stage::Connected,
            Some(reason) => Stage::Failed(WebRtcError::DataChannel(reason)),
        },
    }
}

impl Handshake {
    /// The host's handshake, which starts by creating the peer connection.
    pub fn host() -> (h: Handshake)
        ensures
            h@ == StageModel::HostPeer,
    {
        Handshake { stage: Stage::HostPeer }
    }

    /// The guest's handshake, which starts by retrieving the host's offer.
    pub fn guest() -> (h: Handshake)
        ensures
            h@ == StageModel::GuestRetrieve,
    {
        Handshake { stage: Stage::GuestRetrieve }
    }

    /// Whether the peer connection about to be created must listen for the
    /// host's data channel: true exactly when the guest creates its peer
    /// connection, so the listener is in place before the offer is applied.
    pub fn receives_data_channel(&self) -> (b: bool)
        ensures
            b == (self@ is GuestPeer),
    {
        match &self.stage {
            Stage::GuestPeer(_) => true,
            _ => false,
        }
    }

    /// Whether the handshake is over, connected or failed.
    pub fn is_finished(&self) -> (b: bool)
        ensures
            b == (self@ is Connected || self@ is Failed),
    {
        match &self.stage {
            Stage::Connected => true,
            Stage::Failed(_) => true,
            _ => false,
        }
    }

    /// The outside work to do next. The data channel that the host opens has
    /// the game channel's settings.
    pub fn step(&self) -> (s: Step)
        ensures
            s@ == step_of(self@),
            s matches Step::OpenDataChannel(settings) ==> game_channel_settings(settings),
    {
        match &self.stage {
            Stage::HostPeer => Step::CreatePeerConnection,
            Stage::HostChannel => Step::OpenDataChannel(data_channel_settings()),
            Stage::HostOffer => Step::CreateOffer,
            Stage::HostReadOffer => Step::ReadSdp,
            Stage::HostSetLocal(sdp) => Step::SetLocalDescription(SdpKind::Offer, text(sdp)),
            Stage::HostGather => Step::GatherIce,
            Stage::HostPublish(sdp) => Step::PublishOffer(text(sdp)),
            Stage::HostSetRemote(sdp) => Step::SetRemoteDescription(SdpKind::Answer, text(sdp)),
            Stage::HostAwaitOpen => Step::AwaitChannelOpen,
            Stage::GuestRetrieve => Step::RetrieveOffer,
            Stage::GuestPeer(_) => Step::CreatePeerConnection,
            Stage::GuestSetRemote(sdp) => Step::SetRemoteDescription(SdpKind::Offer, text(sdp)),
            Stage::GuestAnswer => Step::CreateAnswer,
            Stage::GuestReadAnswer => Step::ReadSdp,
            Stage::GuestSetLocal(sdp) => Step::SetLocalDescription(SdpKind::Answer, text(sdp)),
            Stage::GuestGather => Step::GatherIce,
            Stage::GuestSubmit(sdp) => Step::SubmitAnswer(text(sdp)),
            Stage::GuestAwaitChannel => Step::AwaitDataChannel,
            Stage::GuestWire => Step::WireDataChannel,
            Stage::GuestAwaitOpen => Step::AwaitChannelOpen,
            Stage::Connected => Step::Finished,
            Stage::Failed(e) => Step::Failed(e.duplicate()),
        }
    }

    /// Takes in what the outside work of the current step gave back.
    pub fn advance(&mut self, reply: Reply)
        ensures
            final(self)@ == advance_of(old(self)@, reply@),
    {
        let mut stage = Stage::Connected;
        std::mem::swap(&mut stage, &mut self.stage);
        let next = match (stage, reply) {
            (Stage::HostPeer, Reply::Done(res)) => match res {
                Ok(()) => Stage::HostChannel,
                Err(d) => Stage::Failed(WebRtcError::Connection(d)),
            },
            (Stage::HostChannel, Reply::Completed) => Stage::HostOffer,
            (Stage::HostOffer, Reply::Done(res)) => match res {
                Ok(()) => Stage::HostReadOffer,
                Err(d) => call_failed("create_offer failed: ", d),
            },
            (Stage::HostReadOffer, Reply::Sdp(res)) => sdp_read(res, "offer sdp not a string", true),
            (Stage::HostSetLocal(_), Reply::Done(res)) => match res {
                Ok(()) => Stage::HostGather,
                Err(d) => call_failed("set_local_description failed: ", d),
            },
            (Stage::HostGather, Reply::Ice(res)) => match res {
                Ok(full) => Stage::HostPublish(full),
                Err(e) => Stage::Failed(e),
            },
            (Stage::HostPublish(_), Reply::Signaled(res)) => match res {
                Ok(answer) => Stage::HostSetRemote(answer),
                Err(e) => Stage::Failed(WebRtcError::from_signaling(&e)),
            },
            (Stage::HostSetRemote(_), Reply::Done(res)) => match res {
                Ok(()) => Stage::HostAwaitOpen,
                Err(d) => call_failed("set_remote_description failed: ", d),
            },
            (Stage::GuestRetrieve, Reply::Signaled(res)) => match res {
                Ok(offer) => Stage::GuestPeer(offer),
                Err(e) => Stage::Failed(WebRtcError::from_signaling(&e)),
            },
            (Stage::GuestPeer(offer), Reply::Done(res)) => match res {
                Ok(()) => Stage::GuestSetRemote(offer),
                Err(d) => Stage::Failed(WebRtcError::Connection(d)),
            },
            (Stage::GuestSetRemote(_), Reply::Done(res)) => match res {
                Ok(()) => Stage::GuestAnswer,
                Err(d) => call_failed("set_remote_description failed: ", d),
            },
            (Stage::GuestAnswer, Reply::Done(res)) => match res {
                Ok(()) => Stage::GuestReadAnswer,
                Err(d) => call_failed("create_answer failed: ", d),
            },
            (Stage::GuestReadAnswer, Reply::Sdp(res)) => sdp_read(res, "answer sdp not a string", false),
            (Stage::GuestSetLocal(_), Reply::Done(res)) => match res {
                Ok(()) => Stage::GuestGather,
                Err(d) => call_failed("set_local_description failed: ", d),
            },
            (Stage::GuestGather, Reply::Ice(res)) => match res {
                Ok(full) => Stage::GuestSubmit(full),
                Err(e) => Stage::Failed(e),
            },
            (Stage::GuestSubmit(_), Reply::Submitted(res)) => match res {
                Ok(()) => Stage::GuestAwaitChannel,
                Err(e) => Stage::Failed(WebRtcError::from_signaling(&e)),
            },
            (Stage::GuestAwaitChannel, Reply::ChannelArrived(arrived)) => {
                if arrived {
                    Stage::GuestWire
                } else {
                    Stage::Failed(WebRtcError::DataChannel(String::from_str("ondatachannel never fired")))
                }
            },
            (Stage::GuestWire, Reply::Completed) => Stage::GuestAwaitOpen,
            (Stage::HostAwaitOpen, Reply::ChannelEvent(e)) => channel_opened(e),
            (Stage::GuestAwaitOpen, Reply::ChannelEvent(e)) => channel_opened(e),
            (stage, _) => stage,
        };
        self.stage = next;
    }
}

/// The stage reached from `s` by taking in the replies `rs` in order.
pub open spec fn run(s: StageModel, rs: Seq<ReplyModel>) -> StageModel
    decreases rs.len(),
{
    if rs.len() == 0 {
        s
    } else {
        run(advance_of(s, rs[0]), rs.drop_first())
    }
}

/// Whether each reply of `rs` answers the step asked for when it comes in.
pub open spec fn fitting_run(s: StageModel, rs: Seq<ReplyModel>) -> bool
    decreases rs.len(),
{
    rs.len() == 0 || (reply_fits(s, rs[0]) && fitting_run(advance_of(s, rs[0]), rs.drop_first()))
}

/// The steps asked for from `s` on, while taking in the replies `rs`: one
/// before each reply, and the one asked for at the end.
pub open spec fn steps_taken(s: StageModel, rs: Seq<ReplyModel>) -> Seq<StepModel>
    decreases rs.len(),
{
    if rs.len() == 0 {
        seq![step_of(s)]
    } else {
        seq![step_of(s)] + steps_taken(advance_of(s, rs[0]), rs.drop_first())
    }
}

/// The replies of a host handshake in which every step succeeds: the offer's
/// SDP reads as `offer`, ICE gathering gives `full_offer`, and signaling
/// answers with `answer`.
pub open spec fn host_success_replies(
    offer: Seq<char>,
    full_offer: Seq<char>,
    answer: Seq<char>,
) -> Seq<ReplyModel> {
    seq![
        ReplyModel::Done(None),
        ReplyModel::Completed,
        ReplyModel::Done(None),
        ReplyModel::Sdp(Ok(Some(offer))),
        ReplyModel::Done(None),
        ReplyModel::Ice(Ok(full_offer)),
        ReplyModel::Signaled(Ok(answer)),
        ReplyModel::Done(None),
        ReplyModel::ChannelEvent(Some(WebRtcEventModel::Connected)),
    ]
}

/// The steps of a successful host handshake.
pub open spec fn host_success_steps(
    offer: Seq<char>,
    full_offer: Seq<char>,
    answer: Seq<char>,
) -> Seq<StepModel> {
    seq![
        StepModel::CreatePeerConnection,
        StepModel::OpenDataChannel,
        StepModel::CreateOffer,
        StepModel::ReadSdp,
        StepModel::SetLocalDescription(SdpKind::Offer, offer),
        StepModel::GatherIce,
        StepModel::PublishOffer(full_offer),
        StepModel::SetRemoteDescription(SdpKind::Answer, answer),
        StepModel::AwaitChannelOpen,
        StepModel::Finished,
    ]
}

/// The replies of a guest handshake in which every step succeeds: signaling
/// gives the offer `offer`, the answer's SDP reads as `answer`, ICE gathering
/// gives `full_answer`, and the host's data channel arrives.
pub open spec fn guest_success_replies(
    offer: Seq<char>,
    answer: Seq<char>,
    full_answer: Seq<char>,
) -> Seq<ReplyModel> {
    seq![
        ReplyModel::Signaled(Ok(offer)),
        ReplyModel::Done(None),
        ReplyModel::Done(None),
        ReplyModel::Done(None),
        ReplyModel::Sdp(Ok(Some(answer))),
        ReplyModel::Done(None),
        ReplyModel::Ice(Ok(full_answer)),
        ReplyModel::Submitted(None),
        ReplyModel::ChannelArrived(true),
        ReplyModel::Completed,
        ReplyModel::ChannelEvent(Some(WebRtcEventModel::Connected)),
    ]
}

/// The steps of a successful guest handshake.
pub open spec fn guest_success_steps(
    offer: Seq<char>,
    answer: Seq<char>,
    full_answer: Seq<char>,
) -> Seq<StepModel> {
    seq![
        StepModel::RetrieveOffer,
        StepModel::CreatePeerConnection,
        StepModel::SetRemoteDescription(SdpKind::Offer, offer),
        StepModel::CreateAnswer,
        StepModel::ReadSdp,
        StepModel::SetLocalDescription(SdpKind::Answer, answer),
        StepModel::GatherIce,
        StepModel::SubmitAnswer(full_answer),
        StepModel::AwaitDataChannel,
        StepModel::WireDataChannel,
        StepModel::AwaitChannelOpen,
        StepModel::Finished,
    ]
}

/// When every step succeeds, the host connects: it opens the data channel
/// before creating its offer, sets the offer it read as its local
/// description, publishes the SDP that ICE gathering completed (so it
/// carries all candidates), sets the answer from signaling as its remote
/// description, and is connected only once the data channel has opened.
pub proof fn host_handshake_connects(offer: Seq<char>, full_offer: Seq<char>, answer: Seq<char>)
    ensures
        run(StageModel::HostPeer, host_success_replies(offer, full_offer, answer))
            == StageModel::Connected,
        fitting_run(StageModel::HostPeer, host_success_replies(offer, full_offer, answer)),
        steps_taken(StageModel::HostPeer, host_success_replies(offer, full_offer, answer))
            == host_success_steps(offer, full_offer, answer),
{
    let rs = host_success_replies(offer, full_offer, answer);
    reveal_with_fuel(run, 10);
    reveal_with_fuel(fitting_run, 10);
    reveal_with_fuel(steps_taken, 10);
    assert(rs.drop_first() =~= rs.subrange(1, 9));
    assert(rs.subrange(1, 9).drop_first() =~= rs.subrange(2, 9));
    assert(rs.subrange(2, 9).drop_first() =~= rs.subrange(3, 9));
    assert(rs.subrange(3, 9).drop_first() =~= rs.subrange(4, 9));
    assert(rs.subrange(4, 9).drop_first() =~= rs.subrange(5, 9));
    assert(rs.subrange(5, 9).drop_first() =~= rs.subrange(6, 9));
    assert(rs.subrange(6, 9).drop_first() =~= rs.subrange(7, 9));
    assert(rs.subrange(7, 9).drop_first() =~= rs.subrange(8, 9));
    assert(rs.subrange(8, 9).drop_first() =~= Seq::<ReplyModel>::empty());
    assert(steps_taken(StageModel::HostPeer, rs) =~= host_success_steps(offer, full_offer, answer));
}

/// Once the handshake has connected or failed, no reply changes it.
pub proof fn finished_handshake_stays(s: StageModel, rs: Seq<ReplyModel>)
    requires
        s is Connected || s is Failed,
    ensures
        run(s, rs) == s,
        step_of(s) == (if s is Connected {
            StepModel::Finished
        } else {
            StepModel::Failed(s->Failed_0)
        }),
    decreases rs.len(),
{
    if rs.len() > 0 {
        finished_handshake_stays(s, rs.drop_first());
    }
}

/// A fitting run from a stage that is not connected, which ends connected,
/// takes in a first reply that answers the stage and does not fail.
proof fn connected_run_first_reply(s: StageModel, rs: Seq<ReplyModel>)
    requires
        fitting_run(s, rs),
        run(s, rs) is Connected,
        !(s is Connected),
    ensures
        rs.len() > 0,
        reply_fits(s, rs[0]),
        fitting_run(advance_of(s, rs[0]), rs.drop_first()),
        run(advance_of(s, rs[0]), rs.drop_first()) is Connected,
        !(advance_of(s, rs[0]) is Failed),
{
    if rs.len() > 0 {
        let next = advance_of(s, rs[0]);
        if next is Failed {
            let rest = rs.drop_first();
            if rest.len() > 0 {
                assert(!reply_fits(next, rest[0]));
            }
            finished_handshake_stays(next, rest);
        }
    }
}

/// A fitting run from a connected stage takes in no reply.
proof fn connected_run_ends(rs: Seq<ReplyModel>)
    requires
        fitting_run(StageModel::Connected, rs),
    ensures
        rs.len() == 0,
{
    if rs.len() > 0 {
        assert(!reply_fits(StageModel::Connected, rs[0]));
    }
}

/// The host connects only when every step succeeds, in order: whatever the
/// replies, a host handshake that ends connected took in exactly the replies
/// of a successful handshake, so the offer it published is the SDP that ICE
/// gathering completed and its remote description is the answer from
/// signaling.
pub proof fn host_connects_only_by_success(rs: Seq<ReplyModel>) -> (texts: (Seq<char>, Seq<char>, Seq<char>))
    requires
        fitting_run(StageModel::HostPeer, rs),
        run(StageModel::HostPeer, rs) is Connected,
    ensures
        rs == host_success_replies(texts.0, texts.1, texts.2),
        steps_taken(StageModel::HostPeer, rs) == host_success_steps(texts.0, texts.1, texts.2),
{
    let s0 = StageModel::HostPeer;
    connected_run_first_reply(s0, rs);
    let r1 = rs.drop_first();
    let s1 = advance_of(s0, rs[0]);
    connected_run_first_reply(s1, r1);
    let r2 = r1.drop_first();
    let s2 = advance_of(s1, r1[0]);
    connected_run_first_reply(s2, r2);
    let r3 = r2.drop_first();
    let s3 = advance_of(s2, r2[0]);
    connected_run_first_reply(s3, r3);
    let r4 = r3.drop_first();
    let s4 = advance_of(s3, r3[0]);
    connected_run_first_reply(s4, r4);
    let r5 = r4.drop_first();
    let s5 = advance_of(s4, r4[0]);
    connected_run_first_reply(s5, r5);
    let r6 = r5.drop_first();
    let s6 = advance_of(s5, r5[0]);
    connected_run_first_reply(s6, r6);
    let r7 = r6.drop_first();
    let s7 = advance_of(s6, r6[0]);
    connected_run_first_reply(s7, r7);
    let r8 = r7.drop_first();
    let s8 = advance_of(s7, r7[0]);
    connected_run_first_reply(s8, r8);
    let r9 = r8.drop_first();
    let s9 = advance_of(s8, r8[0]);
    assert(s1 == StageModel::HostChannel);
    assert(s2 == StageModel::HostOffer);
    assert(s3 == StageModel::HostReadOffer);
    assert(s4 is HostSetLocal);
    assert(s5 == StageModel::HostGather);
    assert(s6 is HostPublish);
    assert(s7 is HostSetRemote);
    assert(s8 == StageModel::HostAwaitOpen);
    assert(s9 is Connected);
    connected_run_ends(r9);
    assert(rs[1] == r1[0] && rs[2] == r2[0] && rs[3] == r3[0] && rs[4] == r4[0]);
    assert(rs[5] == r5[0] && rs[6] == r6[0] && rs[7] == r7[0] && rs[8] == r8[0]);
    let offer = r3[0]->Sdp_0->Ok_0->Some_0;
    let full_offer = r5[0]->Ice_0->Ok_0;
    let answer = r6[0]->Signaled_0->Ok_0;
    assert(rs.len() == 9);
    assert(rs[0] == ReplyModel::Done(None));
    assert(rs[1] == ReplyModel::Completed);
    assert(rs[2] == ReplyModel::Done(None));
    assert(rs[3] == ReplyModel::Sdp(Ok(Some(offer))));
    assert(rs[4] == ReplyModel::Done(None));
    assert(rs[5] == ReplyModel::Ice(Ok(full_offer)));
    assert(rs[6] == ReplyModel::Signaled(Ok(answer)));
    assert(rs[7] == ReplyModel::Done(None));
    assert(rs[8] == ReplyModel::ChannelEvent(Some(WebRtcEventModel::Connected)));
    assert(rs =~= host_success_replies(offer, full_offer, answer));
    host_handshake_connects(offer, full_offer, answer);
    (offer, full_offer, answer)
}

/// When every step succeeds, the guest connects: it sets the retrieved offer
/// as its remote description, sets the answer it read as its local
/// description, submits the SDP that ICE gathering completed, wires the
/// data channel only once it has arrived from the host, and is connected
/// only once that channel has opened.
pub proof fn guest_handshake_connects(offer: Seq<char>, answer: Seq<char>, full_answer: Seq<char>)
    ensures
        run(StageModel::GuestRetrieve, guest_success_replies(offer, answer, full_answer))
            == StageModel::Connected,
        fitting_run(StageModel::GuestRetrieve, guest_success_replies(offer, answer, full_answer)),
        steps_taken(StageModel::GuestRetrieve, guest_success_replies(offer, answer, full_answer))
            == guest_success_steps(offer, answer, full_answer),
{
    let rs = guest_success_replies(offer, answer, full_answer);
    reveal_with_fuel(run, 12);
    reveal_with_fuel(fitting_run, 12);
    reveal_with_fuel(steps_taken, 12);
    assert(rs.drop_first() =~= rs.subrange(1, 11));
    assert(rs.subrange(1, 11).drop_first() =~= rs.subrange(2, 11));
    assert(rs.subrange(2, 11).drop_first() =~= rs.subrange(3, 11));
    assert(rs.subrange(3, 11).drop_first() =~= rs.subrange(4, 11));
    assert(rs.subrange(4, 11).drop_first() =~= rs.subrange(5, 11));
    assert(rs.subrange(5, 11).drop_first() =~= rs.subrange(6, 11));
    assert(rs.subrange(6, 11).drop_first() =~= rs.subrange(7, 11));
    assert(rs.subrange(7, 11).drop_first() =~= rs.subrange(8, 11));
    assert(rs.subrange(8, 11).drop_first() =~= rs.subrange(9, 11));
    assert(rs.subrange(9, 11).drop_first() =~= rs.subrange(10, 11));
    assert(rs.subrange(10, 11).drop_first() =~= Seq::<ReplyModel>::empty());
    assert(steps_taken(StageModel::GuestRetrieve, rs) =~= guest_success_steps(
        offer,
        answer,
        full_answer,
    ));
}

/// The guest connects only when every step succeeds, in order: a guest
/// handshake that ends connected took in exactly the replies of a successful
/// handshake, so the answer it submitted is the SDP that ICE gathering
/// completed, and the data channel had arrived before it was wired.
pub proof fn guest_connects_only_by_success(rs: Seq<ReplyModel>) -> (texts: (Seq<char>, Seq<char>, Seq<char>))
    requires
        fitting_run(StageModel::GuestRetrieve, rs),
        run(StageModel::GuestRetrieve, rs) is Connected,
    ensures
        rs == guest_success_replies(texts.0, texts.1, texts.2),
        steps_taken(StageModel::GuestRetrieve, rs) == guest_success_steps(texts.0, texts.1, texts.2),
{
    let s0 = StageModel::GuestRetrieve;
    connected_run_first_reply(s0, rs);
    let r1 = rs.drop_first();
    let s1 = advance_of(s0, rs[0]);
    connected_run_first_reply(s1, r1);
    let r2 = r1.drop_first();
    let s2 = advance_of(s1, r1[0]);
    connected_run_first_reply(s2, r2);
    let r3 = r2.drop_first();
    let s3 = advance_of(s2, r2[0]);
    connected_run_first_reply(s3, r3);
    let r4 = r3.drop_first();
    let s4 = advance_of(s3, r3[0]);
    connected_run_first_reply(s4, r4);
    let r5 = r4.drop_first();
    let s5 = advance_of(s4, r4[0]);
    connected_run_first_reply(s5, r5);
    let r6 = r5.drop_first();
    let s6 = advance_of(s5, r5[0]);
    connected_run_first_reply(s6, r6);
    let r7 = r6.drop_first();
    let s7 = advance_of(s6, r6[0]);
    connected_run_first_reply(s7, r7);
    let r8 = r7.drop_first();
    let s8 = advance_of(s7, r7[0]);
    connected_run_first_reply(s8, r8);
    let r9 = r8.drop_first();
    let s9 = advance_of(s8, r8[0]);
    connected_run_first_reply(s9, r9);
    let r10 = r9.drop_first();
    let s10 = advance_of(s9, r9[0]);
    connected_run_first_reply(s10, r10);
    let r11 = r10.drop_first();
    let s11 = advance_of(s10, r10[0]);
    assert(s1 is GuestPeer);
    assert(s2 is GuestSetRemote);
    assert(s3 == StageModel::GuestAnswer);
    assert(s4 == StageModel::GuestReadAnswer);
    assert(s5 is GuestSetLocal);
    assert(s6 == StageModel::GuestGather);
    assert(s7 is GuestSubmit);
    assert(s8 == StageModel::GuestAwaitChannel);
    assert(s9 == StageModel::GuestWire);
    assert(s10 == StageModel::GuestAwaitOpen);
    assert(s11 is Connected);
    assert(rs[1] == r1[0] && rs[2] == r2[0] && rs[3] == r3[0] && rs[4] == r4[0]);
    assert(rs[5] == r5[0] && rs[6] == r6[0] && rs[7] == r7[0] && rs[8] == r8[0]);
    assert(rs[9] == r9[0] && rs[10] == r10[0]);
    connected_run_ends(r11);
    let offer = rs[0]->Signaled_0->Ok_0;
    let answer = r4[0]->Sdp_0->Ok_0->Some_0;
    let full_answer = r6[0]->Ice_0->Ok_0;
    assert(rs.len() == 11);
    assert(rs =~= guest_success_replies(offer, answer, full_answer));
    guest_handshake_connects(offer, answer, full_answer);
    (offer, answer, full_answer)
}

/// Whether a stage belongs to the host's handshake (or is an end stage).
pub open spec fn is_host_stage(s: StageModel) -> bool {
    match s {
        StageModel::HostPeer | StageModel::HostChannel | StageModel::HostOffer
        | StageModel::HostReadOffer | StageModel::HostSetLocal(_) | StageModel::HostGather
        | StageModel::HostPublish(_) | StageModel::HostSetRemote(_) | StageModel::HostAwaitOpen
        | StageModel::Connected
        | StageModel::Failed(_) => true,
        _ => false,
    }
}

/// Whether a stage belongs to the guest's handshake (or is an end stage).
pub open spec fn is_guest_stage(s: StageModel) -> bool {
    match s {
        StageModel::GuestRetrieve | StageModel::GuestPeer(_) | StageModel::GuestSetRemote(_)
        | StageModel::GuestAnswer | StageModel::GuestReadAnswer | StageModel::GuestSetLocal(_)
        | StageModel::GuestGather | StageModel::GuestSubmit(_) | StageModel::GuestAwaitChannel
        | StageModel::GuestWire | StageModel::GuestAwaitOpen | StageModel::Connected
        | StageModel::Failed(_) => true,
        _ => false,
    }
}

/// The steps that only the guest takes: answering, and receiving the data
/// channel rather than creating it.
pub open spec fn guest_only_step(st: StepModel) -> bool {
    st is RetrieveOffer || st is CreateAnswer || st is SubmitAnswer || st is AwaitDataChannel
        || st is WireDataChannel
}

/// The steps that only the host takes: creating the data channel and the offer.
pub open spec fn host_only_step(st: StepModel) -> bool {
    st is OpenDataChannel || st is CreateOffer || st is PublishOffer
}

proof fn host_steps_stay_host(s: StageModel, rs: Seq<ReplyModel>)
    requires
        is_host_stage(s),
    ensures
        forall|i: int| 0 <= i < steps_taken(s, rs).len() ==> !guest_only_step(#[trigger] steps_taken(s, rs)[i]),
    decreases rs.len(),
{
    if rs.len() > 0 {
        host_steps_stay_host(advance_of(s, rs[0]), rs.drop_first());
        let rest = steps_taken(advance_of(s, rs[0]), rs.drop_first());
        assert(steps_taken(s, rs) == seq![step_of(s)] + rest);
        assert forall|i: int| 0 <= i < steps_taken(s, rs).len() implies !guest_only_step(
            #[trigger] steps_taken(s, rs)[i],
        ) by {
            if i > 0 {
                assert(steps_taken(s, rs)[i] == rest[i - 1]);
            }
        }
    }
}

proof fn guest_steps_stay_guest(s: StageModel, rs: Seq<ReplyModel>)
    requires
        is_guest_stage(s),
    ensures
        forall|i: int| 0 <= i < steps_taken(s, rs).len() ==> !host_only_step(#[trigger] steps_taken(s, rs)[i]),
    decreases rs.len(),
{
    if rs.len() > 0 {
        guest_steps_stay_guest(advance_of(s, rs[0]), rs.drop_first());
        let rest = steps_taken(advance_of(s, rs[0]), rs.drop_first());
        assert(steps_taken(s, rs) == seq![step_of(s)] + rest);
        assert forall|i: int| 0 <= i < steps_taken(s, rs).len() implies !host_only_step(
            #[trigger] steps_taken(s, rs)[i],
        ) by {
            if i > 0 {
                assert(steps_taken(s, rs)[i] == rest[i - 1]);
            }
        }
    }
}

/// The host creates the data channel and the offer; the guest answers and
/// receives the data channel. Whatever the replies, the host never asks for a
/// guest's step and the guest never asks for a host's step.
pub proof fn roles_keep_to_their_steps(rs: Seq<ReplyModel>)
    ensures
        forall|i: int|
            0 <= i < steps_taken(StageModel::HostPeer, rs).len() ==> !guest_only_step(
                #[trigger] steps_taken(StageModel::HostPeer, rs)[i],
            ),
        forall|i: int|
            0 <= i < steps_taken(StageModel::GuestRetrieve, rs).len() ==> !host_only_step(
                #[trigger] steps_taken(StageModel::GuestRetrieve, rs)[i],
            ),
{
    host_steps_stay_host(StageModel::HostPeer, rs);
    guest_steps_stay_guest(StageModel::GuestRetrieve, rs);
}

/// The stage reached after the first `i` replies.
pub open spec fn stage_at(s: StageModel, rs: Seq<ReplyModel>, i: int) -> StageModel {
    run(s, rs.take(i))
}

/// Taking in one more reply advances the stage reached so far.
proof fn stage_at_next(s: StageModel, rs: Seq<ReplyModel>, i: int)
    requires
        0 <= i < rs.len(),
    ensures
        stage_at(s, rs, i + 1) == advance_of(stage_at(s, rs, i), rs[i]),
        fitting_run(s, rs) ==> reply_fits(stage_at(s, rs, i), rs[i]),
    decreases i,
{
    let t = rs.drop_first();
    assert(rs.take(i + 1).drop_first() =~= t.take(i));
    assert(rs.take(i + 1)[0] == rs[0]);
    if i == 0 {
        assert(rs.take(0).len() == 0);
        assert(t.take(0).len() == 0);
    } else {
        assert(rs.take(i).drop_first() =~= t.take(i - 1));
        assert(rs.take(i)[0] == rs[0]);
        stage_at_next(advance_of(s, rs[0]), t, i - 1);
        assert(t[i - 1] == rs[i]);
    }
}

/// The step asked for after `i` replies is the step of the stage reached.
proof fn steps_taken_at(s: StageModel, rs: Seq<ReplyModel>, i: int)
    requires
        0 <= i <= rs.len(),
    ensures
        steps_taken(s, rs).len() == rs.len() + 1,
        steps_taken(s, rs)[i] == step_of(stage_at(s, rs, i)),
    decreases rs.len(),
{
    if rs.len() == 0 {
        assert(rs.take(0) =~= rs);
    } else {
        let t = rs.drop_first();
        steps_taken_at(advance_of(s, rs[0]), t, if i == 0 { 0 } else { i - 1 });
        if i == 0 {
            assert(rs.take(0).len() == 0);
        } else {
            assert(rs.take(i).drop_first() =~= t.take(i - 1));
            assert(rs.take(i)[0] == rs[0]);
        }
    }
}

/// Where a stage stands on the host's path: the number of successful
/// replies that lead to it from the start; -1 off that path.
pub open spec fn host_position(s: StageModel) -> int {
    match s {
        StageModel::HostPeer => 0,
        StageModel::HostChannel => 1,
        StageModel::HostOffer => 2,
        StageModel::HostReadOffer => 3,
        StageModel::HostSetLocal(_) => 4,
        StageModel::HostGather => 5,
        StageModel::HostPublish(_) => 6,
        StageModel::HostSetRemote(_) => 7,
        StageModel::HostAwaitOpen => 8,
        StageModel::Connected => 9,
        _ => -1,
    }
}

/// Where a stage stands on the guest's path; -1 off that path.
pub open spec fn guest_position(s: StageModel) -> int {
    match s {
        StageModel::GuestRetrieve => 0,
        StageModel::GuestPeer(_) => 1,
        StageModel::GuestSetRemote(_) => 2,
        StageModel::GuestAnswer => 3,
        StageModel::GuestReadAnswer => 4,
        StageModel::GuestSetLocal(_) => 5,
        StageModel::GuestGather => 6,
        StageModel::GuestSubmit(_) => 7,
        StageModel::GuestAwaitChannel => 8,
        StageModel::GuestWire => 9,
        StageModel::GuestAwaitOpen => 10,
        StageModel::Connected => 11,
        _ => -1,
    }
}

/// After `i` replies of a fitting host run, the host stands at position
/// `i`, unless it failed on the last reply.
proof fn host_stage_at(rs: Seq<ReplyModel>, i: int)
    requires
        fitting_run(StageModel::HostPeer, rs),
        0 <= i <= rs.len(),
    ensures
        host_position(stage_at(StageModel::HostPeer, rs, i)) == i
            || (stage_at(StageModel::HostPeer, rs, i) is Failed && i == rs.len()),
    decreases i,
{
    if i == 0 {
        assert(rs.take(0).len() == 0);
    } else {
        host_stage_at(rs, i - 1);
        stage_at_next(StageModel::HostPeer, rs, i - 1);
        if i < rs.len() {
            stage_at_next(StageModel::HostPeer, rs, i);
        }
    }
}

/// After `i` replies of a fitting guest run, the guest stands at position
/// `i`, unless it failed on the last reply.
proof fn guest_stage_at(rs: Seq<ReplyModel>, i: int)
    requires
        fitting_run(StageModel::GuestRetrieve, rs),
        0 <= i <= rs.len(),
    ensures
        guest_position(stage_at(StageModel::GuestRetrieve, rs, i)) == i
            || (stage_at(StageModel::GuestRetrieve, rs, i) is Failed && i == rs.len()),
    decreases i,
{
    if i == 0 {
        assert(rs.take(0).len() == 0);
    } else {
        guest_stage_at(rs, i - 1);
        stage_at_next(StageModel::GuestRetrieve, rs, i - 1);
        if i < rs.len() {
            stage_at_next(StageModel::GuestRetrieve, rs, i);
        }
    }
}

/// How the host uses signaling, whatever the replies: it publishes an offer
/// at most once, right after ICE gathering, and what it publishes is the SDP
/// that gathering gave; it sets a remote description at most once, right
/// after publishing, as an answer, and only the answer that signaling gave.
pub proof fn host_signaling_calls(rs: Seq<ReplyModel>)
    requires
        fitting_run(StageModel::HostPeer, rs),
    ensures
        ({
            let steps = steps_taken(StageModel::HostPeer, rs);
            &&& forall|i: int|
                0 <= i < steps.len() && (#[trigger] steps[i] is PublishOffer) ==> {
                    &&& i == 6
                    &&& steps[5] == StepModel::GatherIce
                    &&& rs[5] == ReplyModel::Ice(Ok(steps[i]->PublishOffer_0))
                }
            &&& forall|i: int|
                0 <= i < steps.len() && (#[trigger] steps[i] is SetRemoteDescription) ==> {
                    &&& i == 7
                    &&& steps[i]->SetRemoteDescription_0 == SdpKind::Answer
                    &&& steps[6] is PublishOffer
                    &&& rs[6] == ReplyModel::Signaled(Ok(steps[i]->SetRemoteDescription_1))
                }
        }),
{
    let steps = steps_taken(StageModel::HostPeer, rs);
    let s0 = StageModel::HostPeer;
    steps_taken_at(s0, rs, 0);
    assert forall|i: int| 0 <= i < steps.len() && (#[trigger] steps[i] is PublishOffer) implies {
        &&& i == 6
        &&& steps[5] == StepModel::GatherIce
        &&& rs[5] == ReplyModel::Ice(Ok(steps[i]->PublishOffer_0))
    } by {
        steps_taken_at(s0, rs, i);
        host_stage_at(rs, i);
        steps_taken_at(s0, rs, 5);
        host_stage_at(rs, 5);
        stage_at_next(s0, rs, 5);
    }
    assert forall|i: int| 0 <= i < steps.len() && (#[trigger] steps[i] is SetRemoteDescription) implies {
        &&& i == 7
        &&& steps[i]->SetRemoteDescription_0 == SdpKind::Answer
        &&& steps[6] is PublishOffer
        &&& rs[6] == ReplyModel::Signaled(Ok(steps[i]->SetRemoteDescription_1))
    } by {
        steps_taken_at(s0, rs, i);
        host_stage_at(rs, i);
        steps_taken_at(s0, rs, 6);
        host_stage_at(rs, 6);
        stage_at_next(s0, rs, 6);
    }
}

/// How the guest uses signaling, whatever the replies: it retrieves the
/// offer first and only then; it submits an answer at most once, right after
/// ICE gathering, only once the retrieval succeeded, and what it submits is
/// the SDP that gathering gave.
pub proof fn guest_signaling_calls(rs: Seq<ReplyModel>)
    requires
        fitting_run(StageModel::GuestRetrieve, rs),
    ensures
        ({
            let steps = steps_taken(StageModel::GuestRetrieve, rs);
            &&& forall|i: int| 0 <= i < steps.len() && (#[trigger] steps[i] is RetrieveOffer) ==> i == 0
            &&& forall|i: int|
                0 <= i < steps.len() && (#[trigger] steps[i] is SubmitAnswer) ==> {
                    &&& i == 7
                    &&& rs[0] is Signaled && rs[0]->Signaled_0 is Ok
                    &&& steps[6] == StepModel::GatherIce
                    &&& rs[6] == ReplyModel::Ice(Ok(steps[i]->SubmitAnswer_0))
                }
        }),
{
    let steps = steps_taken(StageModel::GuestRetrieve, rs);
    let s0 = StageModel::GuestRetrieve;
    steps_taken_at(s0, rs, 0);
    assert forall|i: int| 0 <= i < steps.len() && (#[trigger] steps[i] is RetrieveOffer) implies i == 0 by {
        steps_taken_at(s0, rs, i);
        guest_stage_at(rs, i);
    }
    assert forall|i: int| 0 <= i < steps.len() && (#[trigger] steps[i] is SubmitAnswer) implies {
        &&& i == 7
        &&& rs[0] is Signaled && rs[0]->Signaled_0 is Ok
        &&& steps[6] == StepModel::GatherIce
        &&& rs[6] == ReplyModel::Ice(Ok(steps[i]->SubmitAnswer_0))
    } by {
        steps_taken_at(s0, rs, i);
        guest_stage_at(rs, i);
        steps_taken_at(s0, rs, 6);
        guest_stage_at(rs, 6);
        stage_at_next(s0, rs, 6);
        guest_stage_at(rs, 1);
        stage_at_next(s0, rs, 0);
        assert(rs.take(0).len() == 0);
    }
}

/// How many more replies a stage can take in at most before the handshake
/// is over.
pub open spec fn replies_left(s: StageModel) -> nat {
    match s {
        StageModel::Connected | StageModel::Failed(_) => 0,
        _ => if host_position(s) >= 0 {
            (9 - host_position(s)) as nat
        } else {
            (11 - guest_position(s)) as nat
        },
    }
}

/// Every reply that answers a step brings the handshake closer to its end:
/// only a connected or failed handshake has no replies left, and every
/// fitting reply lowers the count. So a fitting run from a stage is at most
/// as long as its count: the host's handshake is over within 9 replies and
/// the guest's within 11.
pub proof fn handshake_ends(s: StageModel, rs: Seq<ReplyModel>)
    requires
        fitting_run(s, rs),
    ensures
        (replies_left(s) == 0) == (s is Connected || s is Failed),
        rs.len() <= replies_left(s),
        replies_left(StageModel::HostPeer) == 9,
        replies_left(StageModel::GuestRetrieve) == 11,
    decreases rs.len(),
{
    if rs.len() > 0 {
        handshake_ends(advance_of(s, rs[0]), rs.drop_first());
    }
}

} // verus!
