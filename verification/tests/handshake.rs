use lightyear_webrtc::channel::WebRtcEvent;
use lightyear_webrtc::error::{ErrorKind, WebRtcError};
use lightyear_webrtc::handshake::{Handshake, Reply, SdpKind, Step};
use lightyear_webrtc::signaling::SignalingError;

fn failure(h: &Handshake) -> (ErrorKind, String) {
    match h.step() {
        Step::Failed(e) => (e.kind(), e.detail().clone()),
        other => panic!("not failed: {other:?}"),
    }
}

fn ok() -> Reply {
    Reply::Done(Ok(()))
}

#[test]
fn host_success_publishes_gathered_offer() {
    let mut h = Handshake::host();
    assert!(matches!(h.step(), Step::CreatePeerConnection));
    h.advance(ok());
    match h.step() {
        Step::OpenDataChannel(s) => {
            assert_eq!(s.label, "lightyear");
            assert!(!s.ordered);
            assert_eq!(s.max_retransmits, 0);
        }
        other => panic!("unexpected {other:?}"),
    }
    h.advance(Reply::Completed);
    assert!(matches!(h.step(), Step::CreateOffer));
    h.advance(ok());
    assert!(matches!(h.step(), Step::ReadSdp));
    h.advance(Reply::Sdp(Ok(Some("offer".into()))));
    match h.step() {
        Step::SetLocalDescription(SdpKind::Offer, sdp) => assert_eq!(sdp, "offer"),
        other => panic!("unexpected {other:?}"),
    }
    h.advance(ok());
    assert!(matches!(h.step(), Step::GatherIce));
    h.advance(Reply::Ice(Ok("offer+candidates".into())));
    match h.step() {
        Step::PublishOffer(sdp) => assert_eq!(sdp, "offer+candidates"),
        other => panic!("unexpected {other:?}"),
    }
    h.advance(Reply::Signaled(Ok("answer".into())));
    match h.step() {
        Step::SetRemoteDescription(SdpKind::Answer, sdp) => assert_eq!(sdp, "answer"),
        other => panic!("unexpected {other:?}"),
    }
    assert!(!h.is_finished());
    h.advance(ok());
    assert!(matches!(h.step(), Step::AwaitChannelOpen));
    assert!(!h.is_finished());
    h.advance(Reply::ChannelEvent(Some(WebRtcEvent::Connected)));
    assert!(matches!(h.step(), Step::Finished));
    assert!(h.is_finished());
}

#[test]
fn host_peer_connection_failure() {
    let mut h = Handshake::host();
    h.advance(Reply::Done(Err("JsValue(TypeError)".into())));
    assert_eq!(failure(&h), (ErrorKind::Connection, "JsValue(TypeError)".to_string()));
}

#[test]
fn host_create_offer_failure() {
    let mut h = Handshake::host();
    h.advance(ok());
    h.advance(Reply::Completed);
    h.advance(Reply::Done(Err("boom".into())));
    assert_eq!(failure(&h), (ErrorKind::Connection, "create_offer failed: boom".to_string()));
}

#[test]
fn host_offer_sdp_failures() {
    let mut h = Handshake::host();
    h.advance(ok());
    h.advance(Reply::Completed);
    h.advance(ok());
    h.advance(Reply::Sdp(Ok(None)));
    assert_eq!(failure(&h), (ErrorKind::Connection, "offer sdp not a string".to_string()));

    let mut h = Handshake::host();
    h.advance(ok());
    h.advance(Reply::Completed);
    h.advance(ok());
    h.advance(Reply::Sdp(Err("no field".into())));
    assert_eq!(failure(&h), (ErrorKind::Connection, "get sdp failed: no field".to_string()));
}

#[test]
fn host_later_failures() {
    let base = |h: &mut Handshake| {
        h.advance(ok());
        h.advance(Reply::Completed);
        h.advance(ok());
        h.advance(Reply::Sdp(Ok(Some("o".into()))));
    };
    let mut h = Handshake::host();
    base(&mut h);
    h.advance(Reply::Done(Err("e1".into())));
    assert_eq!(failure(&h), (ErrorKind::Connection, "set_local_description failed: e1".to_string()));

    let mut h = Handshake::host();
    base(&mut h);
    h.advance(ok());
    h.advance(Reply::Ice(Err(WebRtcError::Connection("ICE gathering cancelled".into()))));
    assert_eq!(failure(&h), (ErrorKind::Connection, "ICE gathering cancelled".to_string()));

    let mut h = Handshake::host();
    base(&mut h);
    h.advance(ok());
    h.advance(Reply::Ice(Ok("full".into())));
    h.advance(Reply::Signaled(Err(SignalingError::Failed("relay down".into()))));
    assert_eq!(failure(&h), (ErrorKind::Signaling, "signaling failed: relay down".to_string()));

    let mut h = Handshake::host();
    base(&mut h);
    h.advance(ok());
    h.advance(Reply::Ice(Ok("full".into())));
    h.advance(Reply::Signaled(Ok("a".into())));
    h.advance(Reply::Done(Err("bad answer".into())));
    assert_eq!(
        failure(&h),
        (ErrorKind::Connection, "set_remote_description failed: bad answer".to_string())
    );
}

#[test]
fn failed_handshake_stays_failed() {
    let mut h = Handshake::host();
    h.advance(Reply::Done(Err("x".into())));
    h.advance(ok());
    h.advance(Reply::Completed);
    assert!(h.is_finished());
    assert_eq!(failure(&h), (ErrorKind::Connection, "x".to_string()));
}

#[test]
fn mismatched_reply_changes_nothing() {
    let mut h = Handshake::host();
    h.advance(Reply::Completed);
    assert!(matches!(h.step(), Step::CreatePeerConnection));
}

#[test]
fn guest_success_submits_gathered_answer() {
    let mut h = Handshake::guest();
    assert!(matches!(h.step(), Step::RetrieveOffer));
    h.advance(Reply::Signaled(Ok("offer".into())));
    assert!(matches!(h.step(), Step::CreatePeerConnection));
    h.advance(ok());
    match h.step() {
        Step::SetRemoteDescription(SdpKind::Offer, sdp) => assert_eq!(sdp, "offer"),
        other => panic!("unexpected {other:?}"),
    }
    h.advance(ok());
    assert!(matches!(h.step(), Step::CreateAnswer));
    h.advance(ok());
    assert!(matches!(h.step(), Step::ReadSdp));
    h.advance(Reply::Sdp(Ok(Some("answer".into()))));
    match h.step() {
        Step::SetLocalDescription(SdpKind::Answer, sdp) => assert_eq!(sdp, "answer"),
        other => panic!("unexpected {other:?}"),
    }
    h.advance(ok());
    assert!(matches!(h.step(), Step::GatherIce));
    h.advance(Reply::Ice(Ok("answer+candidates".into())));
    match h.step() {
        Step::SubmitAnswer(sdp) => assert_eq!(sdp, "answer+candidates"),
        other => panic!("unexpected {other:?}"),
    }
    h.advance(Reply::Submitted(Ok(())));
    assert!(matches!(h.step(), Step::AwaitDataChannel));
    h.advance(Reply::ChannelArrived(true));
    assert!(matches!(h.step(), Step::WireDataChannel));
    h.advance(Reply::Completed);
    assert!(matches!(h.step(), Step::AwaitChannelOpen));
    h.advance(Reply::ChannelEvent(Some(WebRtcEvent::Connected)));
    assert!(matches!(h.step(), Step::Finished));
}

#[test]
fn guest_failures() {
    let mut h = Handshake::guest();
    h.advance(Reply::Signaled(Err(SignalingError::Failed("no offer".into()))));
    assert_eq!(failure(&h), (ErrorKind::Signaling, "signaling failed: no offer".to_string()));

    let mut h = Handshake::guest();
    h.advance(Reply::Signaled(Ok("o".into())));
    h.advance(ok());
    h.advance(Reply::Done(Err("bad offer".into())));
    assert_eq!(
        failure(&h),
        (ErrorKind::Connection, "set_remote_description failed: bad offer".to_string())
    );

    let mut h = Handshake::guest();
    h.advance(Reply::Signaled(Ok("o".into())));
    h.advance(ok());
    h.advance(ok());
    h.advance(Reply::Done(Err("e".into())));
    assert_eq!(failure(&h), (ErrorKind::Connection, "create_answer failed: e".to_string()));

    let mut h = Handshake::guest();
    h.advance(Reply::Signaled(Ok("o".into())));
    h.advance(ok());
    h.advance(ok());
    h.advance(ok());
    h.advance(Reply::Sdp(Ok(None)));
    assert_eq!(failure(&h), (ErrorKind::Connection, "answer sdp not a string".to_string()));
}

#[test]
fn guest_submit_and_channel_failures() {
    let prefix = |h: &mut Handshake| {
        h.advance(Reply::Signaled(Ok("o".into())));
        h.advance(ok());
        h.advance(ok());
        h.advance(ok());
        h.advance(Reply::Sdp(Ok(Some("a".into()))));
        h.advance(ok());
        h.advance(Reply::Ice(Ok("full".into())));
    };
    let mut h = Handshake::guest();
    prefix(&mut h);
    h.advance(Reply::Submitted(Err(SignalingError::Failed("host gone".into()))));
    assert_eq!(failure(&h), (ErrorKind::Signaling, "signaling failed: host gone".to_string()));

    let mut h = Handshake::guest();
    prefix(&mut h);
    h.advance(Reply::Submitted(Ok(())));
    h.advance(Reply::ChannelArrived(false));
    assert_eq!(failure(&h), (ErrorKind::DataChannel, "ondatachannel never fired".to_string()));
}

fn host_at_open() -> Handshake {
    let mut h = Handshake::host();
    h.advance(ok());
    h.advance(Reply::Completed);
    h.advance(ok());
    h.advance(Reply::Sdp(Ok(Some("o".into()))));
    h.advance(ok());
    h.advance(Reply::Ice(Ok("full".into())));
    h.advance(Reply::Signaled(Ok("a".into())));
    h.advance(ok());
    assert!(matches!(h.step(), Step::AwaitChannelOpen));
    h
}

#[test]
fn host_channel_closed_before_open_fails() {
    let mut h = host_at_open();
    h.advance(Reply::ChannelEvent(Some(WebRtcEvent::Disconnected("DataChannel closed".into()))));
    assert_eq!(failure(&h), (ErrorKind::DataChannel, "DataChannel closed".to_string()));
}

#[test]
fn host_channel_error_before_open_fails() {
    let mut h = host_at_open();
    h.advance(Reply::ChannelEvent(Some(WebRtcEvent::Error("DataChannel error".into()))));
    assert_eq!(failure(&h), (ErrorKind::DataChannel, "DataChannel error".to_string()));
}

#[test]
fn host_channel_events_ending_fails() {
    let mut h = host_at_open();
    h.advance(Reply::ChannelEvent(None));
    assert_eq!(failure(&h), (ErrorKind::DataChannel, "DataChannel closed".to_string()));
}

#[test]
fn only_the_guest_peer_connection_listens_for_the_channel() {
    let mut h = Handshake::guest();
    assert!(!h.receives_data_channel());
    h.advance(Reply::Signaled(Ok("o".into())));
    assert!(h.receives_data_channel());
    h.advance(ok());
    assert!(!h.receives_data_channel());
    assert!(!Handshake::host().receives_data_channel());
}
