use lightyear_webrtc::error::ErrorKind;
use lightyear_webrtc::ice::{IceGathering, IceReply, IceStep};

fn finished(g: &IceGathering) -> Result<String, (ErrorKind, String)> {
    match g.step() {
        IceStep::Finished(Ok(s)) => Ok(s),
        IceStep::Finished(Err(e)) => Err((e.kind(), e.detail().clone())),
        other => panic!("not finished: {other:?}"),
    }
}

#[test]
fn already_complete_reads_description_at_once() {
    let mut g = IceGathering::new();
    assert!(matches!(g.step(), IceStep::CheckGatheringState));
    g.advance(IceReply::GatheringState(true));
    assert!(matches!(g.step(), IceStep::ReadLocalDescription));
    g.advance(IceReply::LocalDescription(Some("v=0 full".into())));
    assert!(g.is_finished());
    assert_eq!(finished(&g), Ok("v=0 full".to_string()));
}

#[test]
fn running_gathering_is_watched_rechecked_then_awaited() {
    let mut g = IceGathering::new();
    g.advance(IceReply::GatheringState(false));
    assert!(matches!(g.step(), IceStep::WatchGatheringState));
    g.advance(IceReply::Watching);
    assert!(matches!(g.step(), IceStep::CheckGatheringState));
    g.advance(IceReply::GatheringState(false));
    assert!(matches!(g.step(), IceStep::AwaitGatheringComplete));
    g.advance(IceReply::GatheringSignal(true));
    assert!(matches!(g.step(), IceStep::ReadLocalDescription));
    g.advance(IceReply::LocalDescription(Some("v=0 candidates".into())));
    assert_eq!(finished(&g), Ok("v=0 candidates".to_string()));
}

#[test]
fn completion_between_checks_skips_the_wait() {
    let mut g = IceGathering::new();
    g.advance(IceReply::GatheringState(false));
    g.advance(IceReply::Watching);
    g.advance(IceReply::GatheringState(true));
    assert!(matches!(g.step(), IceStep::ReadLocalDescription));
    g.advance(IceReply::LocalDescription(None));
    assert_eq!(finished(&g), Err((ErrorKind::Connection, "no local description".to_string())));
}

#[test]
fn cancelled_wait_fails() {
    let mut g = IceGathering::new();
    g.advance(IceReply::GatheringState(false));
    g.advance(IceReply::Watching);
    g.advance(IceReply::GatheringState(false));
    g.advance(IceReply::GatheringSignal(false));
    assert_eq!(finished(&g), Err((ErrorKind::Connection, "ICE gathering cancelled".to_string())));
}

#[test]
fn missing_description_after_wait() {
    let mut g = IceGathering::new();
    g.advance(IceReply::GatheringState(false));
    g.advance(IceReply::Watching);
    g.advance(IceReply::GatheringState(false));
    g.advance(IceReply::GatheringSignal(true));
    g.advance(IceReply::LocalDescription(None));
    assert_eq!(
        finished(&g),
        Err((ErrorKind::Connection, "no local description after ICE".to_string()))
    );
}

#[test]
fn missing_description_at_first_check() {
    let mut g = IceGathering::new();
    g.advance(IceReply::GatheringState(true));
    g.advance(IceReply::LocalDescription(None));
    assert_eq!(finished(&g), Err((ErrorKind::Connection, "no local description".to_string())));
}

#[test]
fn reply_for_another_step_changes_nothing() {
    let mut g = IceGathering::new();
    g.advance(IceReply::Watching);
    assert!(matches!(g.step(), IceStep::CheckGatheringState));
    g.advance(IceReply::GatheringState(true));
    g.advance(IceReply::LocalDescription(Some("sdp".into())));
    g.advance(IceReply::GatheringState(false));
    assert_eq!(finished(&g), Ok("sdp".to_string()));
}
