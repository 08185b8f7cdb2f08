//! The data channel: how it is configured, and what its callbacks report.
use vstd::prelude::*;
use crate::config::opt_text;

verus! {

/// How binary messages are delivered by the data channel.
#[derive(Clone, Copy, Debug, PartialEq, Eq, Structural)]
pub enum BinaryType {
    Blob,
    Arraybuffer,
}

/// The settings a data channel is opened with.
#[derive(Clone, Debug)]
pub struct DataChannelSettings {
    /// The channel's label.
    pub label: String,
    /// Whether messages are delivered in the order they were sent.
    pub ordered: bool,
    /// How many times a lost message is sent again.
    pub max_retransmits: u16,
    /// How received binary messages are delivered.
    pub binary_type: BinaryType,
}

/// The label of the data channel that the host opens.
pub open spec fn channel_label() -> Seq<char> {
    "lightyear"@
}

/// The settings of the game data channel: a raw pipe with no ordering and no
/// retransmission, for low-latency traffic, whose binary messages arrive as
/// array buffers.
pub open spec fn game_channel_settings(s: DataChannelSettings) -> bool {
    &&& s.label@ == channel_label()
    &&& !s.ordered
    &&& s.max_retransmits == 0
    &&& s.binary_type == BinaryType::Arraybuffer
}

/// The settings of the unreliable, unordered data channel that carries the
/// link's payloads.
pub fn data_channel_settings() -> (s: DataChannelSettings)
    ensures
        game_channel_settings(s),
{
    DataChannelSettings {
        label: String::from_str("lightyear"),
        ordered: false,
        max_retransmits: 0,
        binary_type: BinaryType::Arraybuffer,
    }
}

/// A state change of the connection, reported by the data channel.
#[derive(Clone, Debug)]
pub enum WebRtcEvent {
    Connected,
    Disconnected(String),
    Error(String),
}

/// A connection event, as text.
pub enum WebRtcEventModel {
    Connected,
    Disconnected(Seq<char>),
    Error(Seq<char>),
}

impl View for WebRtcEvent {
    type V = WebRtcEventModel;

    open spec fn view(&self) -> WebRtcEventModel {
        match self {
            WebRtcEvent::Connected => WebRtcEventModel::Connected,
            WebRtcEvent::Disconnected(r) => WebRtcEventModel::Disconnected(r@),
            WebRtcEvent::Error(r) => WebRtcEventModel::Error(r@),
        }
    }
}

/// A state callback of the data channel.
#[derive(Clone, Copy, Debug, PartialEq, Eq, Structural)]
pub enum ChannelSignal {
    Opened,
    Closed,
    Failed,
}

/// The event that a data channel callback reports.
pub open spec fn signal_event(s: ChannelSignal) -> WebRtcEventModel {
    match s {
        ChannelSignal::Opened => WebRtcEventModel::Connected,
        ChannelSignal::Closed => WebRtcEventModel::Disconnected("DataChannel closed"@),
        ChannelSignal::Failed => WebRtcEventModel::Error("DataChannel error"@),
    }
}

/// The event reported when the data channel opens, closes or fails.
pub fn event_for_signal(s: ChannelSignal) -> (e: WebRtcEvent)
    ensures
        e@ == signal_event(s),
{
    match s {
        ChannelSignal::Opened => WebRtcEvent::Connected,
        ChannelSignal::Closed => WebRtcEvent::Disconnected(String::from_str("DataChannel closed")),
        ChannelSignal::Failed => WebRtcEvent::Error(String::from_str("DataChannel error")),
    }
}

/// Why an event ends the link, if it does: a disconnection or an error ends
/// it with its reason; the channel opening does not.
pub open spec fn unlink_reason_of(e: WebRtcEventModel) -> Option<Seq<char>> {
    match e {
        WebRtcEventModel::Connected => None,
        WebRtcEventModel::Disconnected(r) => Some(r),
        WebRtcEventModel::Error(r) => Some(r),
    }
}

/// The reason with which `event` unlinks the connection, or `None` when the
/// link stays up.
pub fn unlink_reason(event: WebRtcEvent) -> (r: Option<String>)
    ensures
        opt_text(r) == unlink_reason_of(event@),
{
    match event {
        WebRtcEvent::Connected => None,
        WebRtcEvent::Disconnected(reason) => Some(reason),
        WebRtcEvent::Error(reason) => Some(reason),
    }
}

/// What has been read of a data channel's events: the reason the link ends,
/// once an event that ends it has been read; `None` while it stays up.
#[derive(Debug)]
pub struct EventDrain {
    reason: Option<String>,
}

impl View for EventDrain {
    type V = Option<Seq<char>>;

    closed spec fn view(&self) -> Option<Seq<char>> {
        opt_text(self.reason)
    }
}

/// Reading one more event: the first event that ends the link gives the
/// reason; after it, no event is read.
pub open spec fn drain_take(state: Option<Seq<char>>, e: WebRtcEventModel) -> Option<Seq<char>> {
    match state {
        Some(r) => Some(r),
        None => unlink_reason_of(e),
    }
}

/// The state after reading `events` in order, starting from `state`.
pub open spec fn drain_from(state: Option<Seq<char>>, events: Seq<WebRtcEventModel>) -> Option<Seq<char>>
    decreases events.len(),
{
    if events.len() == 0 {
        state
    } else {
        drain_from(drain_take(state, events[0]), events.drop_first())
    }
}

/// The reason of the first event that ends the link, if any does.
pub open spec fn first_unlink_reason(events: Seq<WebRtcEventModel>) -> Option<Seq<char>>
    decreases events.len(),
{
    if events.len() == 0 {
        None
    } else {
        match unlink_reason_of(events[0]) {
            Some(r) => Some(r),
            None => first_unlink_reason(events.drop_first()),
        }
    }
}

impl EventDrain {
    /// Nothing read yet: the link is up.
    pub fn new() -> (d: EventDrain)
        ensures
            d@ is None,
    {
        EventDrain { reason: None }
    }

    /// Whether another event is to be read: only while no event has ended the link.
    pub fn wants_more(&self) -> (b: bool)
        ensures
            b == (self@ is None),
    {
        self.reason.is_none()
    }

    /// Reads one event.
    pub fn take(&mut self, event: WebRtcEvent)
        ensures
            final(self)@ == drain_take(old(self)@, event@),
    {
        if self.reason.is_none() {
            self.reason = unlink_reason(event);
        }
    }

    /// The reason the link ends, if an event read ended it.
    pub fn into_reason(self) -> (r: Option<String>)
        ensures
            opt_text(r) == self@,
    {
        self.reason
    }
}

proof fn drain_settled(r: Seq<char>, events: Seq<WebRtcEventModel>)
    ensures
        drain_from(Some(r), events) == Some(r),
    decreases events.len(),
{
    if events.len() > 0 {
        drain_settled(r, events.drop_first());
    }
}

proof fn drain_push(state: Option<Seq<char>>, events: Seq<WebRtcEventModel>, e: WebRtcEventModel)
    ensures
        drain_from(state, events.push(e)) == drain_take(drain_from(state, events), e),
    decreases events.len(),
{
    if events.len() == 0 {
        assert(events.push(e).drop_first() =~= Seq::<WebRtcEventModel>::empty());
        assert(events.push(e)[0] == e);
        assert(drain_from(drain_take(state, e), Seq::<WebRtcEventModel>::empty()) == drain_take(state, e));
    } else {
        assert(events.push(e).drop_first() =~= events.drop_first().push(e));
        assert(events.push(e)[0] == events[0]);
        drain_push(drain_take(state, events[0]), events.drop_first(), e);
    }
}

/// Reading a data channel's events ends with the reason of the first event
/// that ends the link; events that keep it up (the channel opening) are
/// passed over; and no event after the first that ends the link is read:
/// the drain wants more after `i` events exactly when none of them ended the
/// link, and the `i`-th event, if it is the first to end it, gives the reason.
pub proof fn drain_stops_at_first_unlink(events: Seq<WebRtcEventModel>, i: int)
    requires
        0 <= i <= events.len(),
    ensures
        drain_from(None, events) == first_unlink_reason(events),
        (drain_from(None, events.take(i)) is None) == (forall|j: int|
            0 <= j < i ==> unlink_reason_of(#[trigger] events[j]) is None),
        i < events.len() && drain_from(None, events.take(i)) is None ==> drain_from(
            None,
            events.take(i + 1),
        ) == unlink_reason_of(events[i]),
    decreases events.len(), i,
{
    if events.len() > 0 {
        drain_stops_at_first_unlink(events.drop_first(), 0);
        if let Some(r) = unlink_reason_of(events[0]) {
            drain_settled(r, events.drop_first());
        }
    }
    if i > 0 {
        drain_stops_at_first_unlink(events, i - 1);
        assert(events.take(i) =~= events.take(i - 1).push(events[i - 1]));
        drain_push(None, events.take(i - 1), events[i - 1]);
    } else {
        assert(events.take(0) =~= Seq::<WebRtcEventModel>::empty());
    }
    if i < events.len() {
        assert(events.take(i + 1) =~= events.take(i).push(events[i]));
        drain_push(None, events.take(i), events[i]);
    }
}

} // verus!
