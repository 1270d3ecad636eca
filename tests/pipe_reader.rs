use obs_client::pipe::{PipeAction, PipeEvent, PipeReader};

#[test]
fn reader_connects_reads_and_logs_until_stopped() {
    let mut r = PipeReader::new();
    assert!(matches!(r.step(PipeEvent::Start, true), PipeAction::Connect));
    assert!(matches!(r.step(PipeEvent::Connected(true), true), PipeAction::Wait));
    assert!(matches!(r.step(PipeEvent::Waited(true), true), PipeAction::Read));
    assert!(matches!(r.step(PipeEvent::ReadIssued(true), true), PipeAction::Wait));
    assert!(matches!(r.step(PipeEvent::Waited(true), true), PipeAction::Collect));
    match r.step(PipeEvent::Collected(Some(b"hooked\0".to_vec())), true) {
        PipeAction::Log(Some(text)) => assert_eq!(text, b"hooked".to_vec()),
        other => panic!("unexpected action {:?}", other),
    }
    assert!(matches!(r.step(PipeEvent::Logged, true), PipeAction::Read));
    assert!(matches!(r.step(PipeEvent::ReadIssued(true), true), PipeAction::Wait));
    assert!(matches!(r.step(PipeEvent::Waited(true), true), PipeAction::Collect));
    assert!(matches!(r.step(PipeEvent::Collected(Some(b"no end".to_vec())), true), PipeAction::Log(None)));
    assert!(matches!(r.step(PipeEvent::Logged, false), PipeAction::Stop));
}

#[test]
fn reader_stops_on_failures() {
    let mut r = PipeReader::new();
    let _ = r.step(PipeEvent::Start, true);
    assert!(matches!(r.step(PipeEvent::Connected(false), true), PipeAction::Stop));

    let mut r = PipeReader::new();
    let _ = r.step(PipeEvent::Start, true);
    let _ = r.step(PipeEvent::Connected(true), true);
    assert!(matches!(r.step(PipeEvent::Waited(true), false), PipeAction::Stop));

    let mut r = PipeReader::new();
    let _ = r.step(PipeEvent::Start, true);
    let _ = r.step(PipeEvent::Connected(true), true);
    let _ = r.step(PipeEvent::Waited(true), true);
    let _ = r.step(PipeEvent::ReadIssued(true), true);
    let _ = r.step(PipeEvent::Waited(true), true);
    assert!(matches!(r.step(PipeEvent::Collected(Some(Vec::new())), true), PipeAction::Stop));

    let mut r = PipeReader::new();
    let _ = r.step(PipeEvent::Start, true);
    let _ = r.step(PipeEvent::Connected(true), true);
    let _ = r.step(PipeEvent::Waited(true), true);
    assert!(matches!(r.step(PipeEvent::ReadIssued(false), true), PipeAction::Stop));
}
