use lightyear_webrtc::link::{resolve_pending, start_link, LinkStart, PendingOutcome};
use lightyear_webrtc::{IceConfig, IceServer};

fn config() -> IceConfig {
    IceConfig {
        ice_servers: vec![IceServer {
            urls: vec!["stun:stun.l.google.com:19302".into()],
            username: None,
            credential: None,
        }],
    }
}

#[test]
fn link_start_takes_the_signaling() {
    let mut slot = Some(7u32);
    match start_link(false, false, &config(), &mut slot) {
        LinkStart::Begin { ice_config, signaling } => {
            assert_eq!(signaling, 7);
            assert_eq!(ice_config.ice_servers[0].urls[0], "stun:stun.l.google.com:19302");
        }
        other => panic!("unexpected {other:?}"),
    }
    assert_eq!(slot, None);
}

#[test]
fn second_link_start_finds_signaling_consumed() {
    let mut slot = Some("relay");
    assert!(matches!(start_link(false, false, &config(), &mut slot), LinkStart::Begin { .. }));
    assert!(matches!(start_link(false, false, &config(), &mut slot), LinkStart::SignalingConsumed));
}

#[test]
fn linking_or_linked_entity_ignores_link_start() {
    let mut slot = Some(1u8);
    assert!(matches!(start_link(true, false, &config(), &mut slot), LinkStart::Ignored));
    assert!(matches!(start_link(false, true, &config(), &mut slot), LinkStart::Ignored));
    assert_eq!(slot, Some(1));
}

#[test]
fn pending_error_wins_over_result() {
    match resolve_pending(Some("WebRTC connection failed: x".into()), true) {
        PendingOutcome::Failed(r) => assert_eq!(r, "WebRTC connection failed: x"),
        other => panic!("unexpected {other:?}"),
    }
}

#[test]
fn pending_result_links() {
    assert!(matches!(resolve_pending(None, true), PendingOutcome::Established));
    assert!(matches!(resolve_pending(None, false), PendingOutcome::Waiting));
}
