use chatload::{LoopError, Phase, ReceiveError, RoomLoop, SendError, State};

#[test]
fn empty_room_fails_at_once() {
    let mut l = RoomLoop::new(0);
    match l.start_iteration() {
        Err(LoopError::RoomEmpty) => (),
        _ => panic!("an empty room has no sender to designate"),
    }
    assert!(matches!(l.phase, Phase::Failed));
}

#[test]
fn iteration_advances_only_after_every_receipt() {
    let members = 3;
    let mut metrics = State::new();
    let mut l = RoomLoop::new(members);
    let sender = l.start_iteration().expect("room is not empty");
    assert_eq!(sender, 0);
    l.send_finished(Ok(())).expect("send succeeded");
    // Fewer receipts than members: still collecting, never complete.
    for done in 0..members - 1 {
        assert!(matches!(l.phase, Phase::Collecting { received } if received == done));
        assert!(!l.collect_complete());
        l.receive_finished(Ok(())).expect("receipt");
    }
    assert!(!l.collect_complete());
    // The last receipt — the sender's own echo included — fills the barrier.
    l.receive_finished(Ok(())).expect("receipt");
    assert!(l.collect_complete());
    l.finish_iteration(&mut metrics, 1234);
    assert!(matches!(l.phase, Phase::Idle));
    assert_eq!(metrics.loop_avg_sum, 1234);
    assert_eq!(metrics.loop_avg_count, 1);
}

#[test]
fn send_failure_halts_the_room() {
    let mut l = RoomLoop::new(2);
    l.start_iteration().expect("room is not empty");
    match l.send_finished(Err(SendError::Connection)) {
        Err(LoopError::Send(SendError::Connection)) => (),
        _ => panic!("a send failure must be handed up"),
    }
    assert!(matches!(l.phase, Phase::Failed));
}

#[test]
fn receive_failure_halts_the_room() {
    let mut l = RoomLoop::new(2);
    l.start_iteration().expect("room is not empty");
    l.send_finished(Ok(())).expect("send succeeded");
    match l.receive_finished(Err(ReceiveError::Malformed)) {
        Err(LoopError::Receive(ReceiveError::Malformed)) => (),
        _ => panic!("a wait failure must be handed up"),
    }
    assert!(matches!(l.phase, Phase::Failed));
}
