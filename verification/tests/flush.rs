use metrics::{FlushAction, FlushEvent, FlushLoop, FlushState, FLUSH_INTERVAL_SECS};

#[test]
fn interval_is_one_minute() {
    assert_eq!(FLUSH_INTERVAL_SECS, 60);
}

#[test]
fn loop_starts_by_waiting_one_interval() {
    let flush = FlushLoop::new();
    assert_eq!(flush.state(), FlushState::Waiting);
    assert_eq!(flush.start(), FlushAction::Wait(60));
    assert_eq!(FlushLoop::default().state(), FlushState::Waiting);
}

#[test]
fn every_tick_flushes_and_waits_again() {
    let mut flush = FlushLoop::new();
    for _ in 0..100 {
        assert_eq!(flush.on_event(FlushEvent::Tick), FlushAction::FlushThenWait(60));
        assert_eq!(flush.state(), FlushState::Waiting);
    }
}

#[test]
fn cancel_ends_the_loop_for_good() {
    let mut flush = FlushLoop::new();
    assert_eq!(flush.on_event(FlushEvent::Tick), FlushAction::FlushThenWait(60));
    assert_eq!(flush.on_event(FlushEvent::Cancel), FlushAction::Stop);
    assert_eq!(flush.state(), FlushState::Stopped);
    assert_eq!(flush.on_event(FlushEvent::Tick), FlushAction::Stop);
    assert_eq!(flush.on_event(FlushEvent::Cancel), FlushAction::Stop);
    assert_eq!(flush.state(), FlushState::Stopped);
    assert_eq!(flush.start(), FlushAction::Stop);
}
