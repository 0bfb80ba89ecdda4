use evo_control::error::DriverError;
use evo_control::worker::{not_ready, retry_delay, worker_step, WorkerAction, WorkerEvent};

#[test]
fn worker_stops_on_shutdown_dropped_handles_and_failed_poll() {
    for polling in [false, true] {
        assert_eq!(worker_step(polling, WorkerEvent::Request { shutdown: true }), WorkerAction::Stop);
        assert_eq!(worker_step(polling, WorkerEvent::HandlesDropped), WorkerAction::Stop);
        assert_eq!(worker_step(polling, WorkerEvent::Polled { ok: false }), WorkerAction::Stop);
        assert_eq!(worker_step(polling, WorkerEvent::Request { shutdown: false }), WorkerAction::Serve);
        assert_eq!(worker_step(polling, WorkerEvent::Polled { ok: true }), WorkerAction::Publish);
    }
}

#[test]
fn worker_polls_only_when_started_to() {
    assert_eq!(worker_step(true, WorkerEvent::Tick), WorkerAction::Poll);
    assert_eq!(worker_step(false, WorkerEvent::Tick), WorkerAction::Wait);
}

#[test]
fn connect_retries_back_off_within_ten_seconds() {
    assert_eq!(retry_delay(0, 0), Some(250));
    assert_eq!(retry_delay(1, 250), Some(500));
    assert_eq!(retry_delay(2, 750), Some(1000));
    assert_eq!(retry_delay(3, 1750), Some(2000));
    assert_eq!(retry_delay(7, 9000), Some(1000));
    assert_eq!(retry_delay(8, 10000), None);
    let mut waited = 0;
    let mut attempt = 0;
    while let Some(d) = retry_delay(attempt, waited) {
        waited += d;
        attempt += 1;
    }
    assert_eq!(waited, 10000);
    assert!(not_ready(&DriverError::KmodNotLoaded));
    assert!(not_ready(&DriverError::Disconnected));
    assert!(!not_ready(&DriverError::ChannelIndex { idx: 2, max: 1 }));
    assert!(!not_ready(&DriverError::Transfer(32)));
}
