use lightyear_webrtc::channel::{
    data_channel_settings, event_for_signal, unlink_reason, BinaryType, ChannelSignal, EventDrain,
    WebRtcEvent,
};

#[test]
fn game_channel_is_unordered_without_retransmits() {
    let s = data_channel_settings();
    assert_eq!(s.label, "lightyear");
    assert!(!s.ordered);
    assert_eq!(s.max_retransmits, 0);
    assert_eq!(s.binary_type, BinaryType::Arraybuffer);
}

#[test]
fn channel_signals_become_events() {
    assert!(matches!(event_for_signal(ChannelSignal::Opened), WebRtcEvent::Connected));
    match event_for_signal(ChannelSignal::Closed) {
        WebRtcEvent::Disconnected(r) => assert_eq!(r, "DataChannel closed"),
        other => panic!("unexpected {other:?}"),
    }
    match event_for_signal(ChannelSignal::Failed) {
        WebRtcEvent::Error(r) => assert_eq!(r, "DataChannel error"),
        other => panic!("unexpected {other:?}"),
    }
}

#[test]
fn only_disconnects_and_errors_unlink() {
    assert_eq!(unlink_reason(WebRtcEvent::Connected), None);
    assert_eq!(
        unlink_reason(WebRtcEvent::Disconnected("DataChannel closed".into())),
        Some("DataChannel closed".to_string())
    );
    assert_eq!(
        unlink_reason(WebRtcEvent::Error("DataChannel error".into())),
        Some("DataChannel error".to_string())
    );
}

#[test]
fn drain_stops_at_first_unlinking_event() {
    let events = vec![
        WebRtcEvent::Connected,
        WebRtcEvent::Error("DataChannel error".into()),
        WebRtcEvent::Disconnected("DataChannel closed".into()),
    ];
    let mut drain = EventDrain::new();
    let mut taken = 0;
    for e in events {
        if !drain.wants_more() {
            break;
        }
        drain.take(e);
        taken += 1;
    }
    assert_eq!(taken, 2);
    assert_eq!(drain.into_reason(), Some("DataChannel error".to_string()));
}

#[test]
fn drain_keeps_link_on_open_events() {
    let mut drain = EventDrain::new();
    drain.take(WebRtcEvent::Connected);
    drain.take(WebRtcEvent::Connected);
    assert!(drain.wants_more());
    assert_eq!(drain.into_reason(), None);
}
