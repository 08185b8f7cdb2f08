use lightyear_webrtc::error::{ErrorKind, WebRtcError};
use lightyear_webrtc::signaling::SignalingError;

#[test]
fn signaling_error_message() {
    let e = WebRtcError::Signaling("timeout".to_string());
    assert_eq!(e.message(), "signaling failed: timeout");
    assert_eq!(e.kind(), ErrorKind::Signaling);
    assert_eq!(e.detail(), "timeout");
}

#[test]
fn connection_error_message() {
    let e = WebRtcError::Connection("no local description".to_string());
    assert_eq!(e.message(), "WebRTC connection failed: no local description");
    assert_eq!(e.kind(), ErrorKind::Connection);
}

#[test]
fn data_channel_error_message() {
    let e = WebRtcError::DataChannel("ondatachannel never fired".to_string());
    assert_eq!(e.message(), "DataChannel error: ondatachannel never fired");
    assert_eq!(e.kind(), ErrorKind::DataChannel);
}

#[test]
fn connection_error_joins_context_and_detail() {
    let e = WebRtcError::connection_with("create_offer failed: ", "JsValue(\"x\")");
    assert_eq!(e.detail(), "create_offer failed: JsValue(\"x\")");
    assert_eq!(e.kind(), ErrorKind::Connection);
}

#[test]
fn signaling_failure_message_and_transport_error() {
    let s = SignalingError::Failed("room closed".to_string());
    assert_eq!(s.message(), "signaling failed: room closed");
    assert_eq!(s.detail(), "room closed");
    let e = WebRtcError::from_signaling(&s);
    assert_eq!(e.kind(), ErrorKind::Signaling);
    assert_eq!(e.detail(), "signaling failed: room closed");
    assert_eq!(e.message(), "signaling failed: signaling failed: room closed");
}

#[test]
fn duplicate_keeps_kind_and_text() {
    let e = WebRtcError::DataChannel("closed".to_string());
    let d = e.duplicate();
    assert_eq!(d.kind(), ErrorKind::DataChannel);
    assert_eq!(d.detail(), "closed");
}
