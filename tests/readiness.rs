use backend::health::{health_report, HealthStatus};
use backend::readiness::{ReadinessCell, ReadinessFlag};
use backend::waiting::{WaitError, WaitPoll, Waiter};

fn started_cell() -> ReadinessCell<u32> {
    let mut cell = ReadinessCell::new();
    cell.mark_started();
    cell
}

#[test]
fn new_cell_is_initializing() {
    let cell: ReadinessCell<u32> = ReadinessCell::new();
    assert!(!cell.is_started());
    assert!(!cell.is_ready());
    assert_eq!(cell.snapshot(), ReadinessFlag::Initializing);
    assert!(cell.peek().is_none());
    assert!(cell.get_error().is_none());
}

#[test]
fn ready_is_terminal() {
    let mut cell = started_cell();
    assert!(cell.set_ready(7));
    assert_eq!(cell.snapshot(), ReadinessFlag::Ready);
    assert!(!cell.set_ready(8));
    assert!(!cell.set_error("late".to_string()));
    assert_eq!(cell.peek(), Some(&7));
    assert!(cell.get_error().is_none());
    assert!(cell.is_ready());
}

#[test]
fn failed_is_terminal() {
    let mut cell = started_cell();
    assert!(cell.set_error("connection refused".to_string()));
    assert!(!cell.set_ready(1));
    assert!(!cell.set_error("other".to_string()));
    assert_eq!(cell.snapshot(), ReadinessFlag::Failed);
    assert_eq!(cell.get_error(), Some("connection refused".to_string()));
    assert!(cell.peek().is_none());
    assert!(!cell.is_ready());
}

#[test]
fn setting_state_marks_started() {
    let mut cell: ReadinessCell<u32> = ReadinessCell::new();
    cell.set_ready(3);
    assert!(cell.is_started());
}

fn expect_ready(p: WaitPoll<'_, u32>, want: u32) {
    match p {
        WaitPoll::Ready(v) => assert_eq!(*v, want),
        _ => panic!("expected the pool"),
    }
}

fn expect_pending(p: WaitPoll<'_, u32>, want: u64) {
    match p {
        WaitPoll::Pending(ms) => assert_eq!(ms, want),
        _ => panic!("expected to keep waiting"),
    }
}

fn expect_error(p: WaitPoll<'_, u32>, want: WaitError) {
    match p {
        WaitPoll::Failed(e) => assert_eq!(e, want),
        _ => panic!("expected an error"),
    }
}

// Initialization succeeds at 2 s; callers arrive at 0 s, 1 s and 3 s with 30 s waits.
#[test]
fn waiters_share_pool_ready_after_two_seconds() {
    let mut cell = started_cell();
    let w0 = Waiter::start(0, 30_000);
    let w1 = Waiter::start(1_000, 30_000);
    expect_pending(w0.poll(&cell, 0), 30_000);
    expect_pending(w1.poll(&cell, 1_000), 30_000);
    expect_pending(w0.poll(&cell, 1_000), 29_000);
    assert!(cell.set_ready(42));
    expect_ready(w0.poll(&cell, 2_000), 42);
    expect_ready(w1.poll(&cell, 2_000), 42);
    let w3 = Waiter::start(3_000, 30_000);
    expect_ready(w3.poll(&cell, 3_000), 42);
}

// Initialization fails at 1 s; a caller with a 10 s wait learns it at 1 s.
#[test]
fn failure_reaches_waiter_early() {
    let mut cell = started_cell();
    let w = Waiter::start(0, 10_000);
    expect_pending(w.poll(&cell, 0), 10_000);
    cell.set_error("connection refused".to_string());
    expect_error(
        w.poll(&cell, 1_000),
        WaitError::InitializationFailed("connection refused".to_string()),
    );
}

// Initialization never finishes; a 2 s wait times out at 2 s and not before.
#[test]
fn hanging_start_times_out() {
    let cell = started_cell();
    let w = Waiter::start(0, 2_000);
    expect_pending(w.poll(&cell, 0), 2_000);
    expect_pending(w.poll(&cell, 1_999), 1);
    expect_error(w.poll(&cell, 2_000), WaitError::Timeout);
    expect_error(w.poll(&cell, 5_000), WaitError::Timeout);
}

#[test]
fn is_ready_over_time() {
    let cell: ReadinessCell<u32> = ReadinessCell::new();
    assert!(!cell.is_ready());
    let mut ok = started_cell();
    ok.set_ready(1);
    assert!(ok.is_ready());
    let mut failed = started_cell();
    failed.set_error("connection refused".to_string());
    assert!(!failed.is_ready());
}

#[test]
fn late_and_early_waiters_agree() {
    let mut cell = started_cell();
    let early = Waiter::start(0, 5);
    cell.set_error("boom".to_string());
    let late = Waiter::start(1_000_000, 5);
    let a = early.poll(&cell, 1_000_000);
    let b = late.poll(&cell, 1_000_000);
    assert!(a == b);
}

#[test]
fn ready_pool_is_returned_after_deadline() {
    let mut cell = started_cell();
    cell.set_ready(9);
    let w = Waiter::start(0, 10);
    expect_ready(w.poll(&cell, 1_000), 9);
}

#[test]
fn wait_without_initialization_is_not_configured() {
    let cell: ReadinessCell<u32> = ReadinessCell::new();
    let w = Waiter::start(0, 30_000);
    expect_error(w.poll(&cell, 0), WaitError::NotConfigured);
}

#[test]
fn deadline_saturates() {
    assert_eq!(Waiter::start(u64::MAX - 5, 10).deadline_ms, u64::MAX);
    assert_eq!(Waiter::start(100, 30_000).deadline_ms, 30_100);
}

#[test]
fn wait_error_messages() {
    assert_eq!(
        WaitError::InitializationFailed("connection refused".to_string()).message(),
        "database initialization failed: connection refused"
    );
    assert_eq!(WaitError::Timeout.message(), "timed out waiting for the database");
    assert_eq!(WaitError::NotConfigured.message(), "database initialization was never started");
    assert_eq!(WaitError::Timeout.status_code(), 503);
}

#[test]
fn health_reports_each_state() {
    let starting: ReadinessCell<u32> = started_cell();
    assert_eq!(health_report(&starting, true), HealthStatus::Starting);
    assert_eq!(HealthStatus::Starting.status_code(), 503);
    let mut failed = started_cell();
    failed.set_error("migration failed".to_string());
    assert_eq!(health_report(&failed, true), HealthStatus::Unhealthy("migration failed".to_string()));
    let mut ready = started_cell();
    ready.set_ready(1);
    assert_eq!(health_report(&ready, true), HealthStatus::Healthy);
    assert_eq!(HealthStatus::Healthy.status_code(), 200);
    assert_eq!(
        health_report(&ready, false),
        HealthStatus::Unhealthy("database did not answer the liveness query".to_string())
    );
}
