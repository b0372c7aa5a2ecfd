use std::time::{Duration, Instant};

use shortwave::timeout::{timeout_poll, TimeoutPoll};

/// Polls a future that finishes after `future_ms` against a timer of
/// `timeout_ms`, deciding each poll with `timeout_poll`.
fn race(future_ms: u64, timeout_ms: u64) -> Option<()> {
    let start = Instant::now();
    loop {
        let elapsed = start.elapsed();
        let output = if elapsed >= Duration::from_millis(future_ms) { Some(()) } else { None };
        let fired = elapsed >= Duration::from_millis(timeout_ms);
        match timeout_poll(output, fired) {
            TimeoutPoll::Ready(result) => return result,
            TimeoutPoll::Pending => std::hint::spin_loop(),
        }
    }
}

#[test]
fn test_timeout_completes() {
    let result = race(10, 100);
    assert!(result.is_some());
}

#[test]
fn test_timeout_expires() {
    let result = race(100, 10);
    assert!(result.is_none());
}

#[test]
fn output_wins_over_timer() {
    assert!(matches!(timeout_poll(Some(5), true), TimeoutPoll::Ready(Some(5))));
    assert!(matches!(timeout_poll(Some(5), false), TimeoutPoll::Ready(Some(5))));
}

#[test]
fn fired_timer_ends_wait() {
    assert!(matches!(timeout_poll::<u8>(None, true), TimeoutPoll::Ready(None)));
    assert!(matches!(timeout_poll::<u8>(None, false), TimeoutPoll::Pending));
}
