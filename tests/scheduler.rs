use status_ingest::report::Status;
use status_ingest::scheduler::{
    retry_delay, Action, Event, FailureKind, FlushScheduler, PipelineConfig,
};

fn report(client: &str, status: &str) -> Status {
    Status::new(client.to_string(), status.to_string())
}

fn fresh() -> FlushScheduler {
    FlushScheduler::new(PipelineConfig::standard(), 0)
}

#[test]
fn two_reports_flushed_together_by_timer() {
    let mut s = fresh();
    assert_eq!(s.handle(Event::Arrived(report("c1", "up")), 1), Action::Wait);
    assert_eq!(s.handle(Event::Arrived(report("c2", "down")), 10), Action::Wait);
    assert_eq!(s.pending_len(), 2);
    assert_eq!(s.handle(Event::TimerFired, 100), Action::Flush);
    assert_eq!(
        s.in_flight().clone(),
        vec![report("c1", "up"), report("c2", "down")]
    );
    assert_eq!(s.pending_len(), 0);
    assert_eq!(s.handle(Event::FlushSucceeded, 105), Action::Wait);
    assert!(s.in_flight().is_empty());
    assert!(!s.is_flushing());
}

#[test]
fn latency_guard_flushes_without_timer() {
    let mut s = fresh();
    assert_eq!(s.handle(Event::Arrived(report("c1", "up")), 1), Action::Wait);
    assert_eq!(s.latency_deadline(), Some(501));
    assert_eq!(s.handle(Event::LatencyCheck, 500), Action::Wait);
    assert_eq!(s.handle(Event::LatencyCheck, 501), Action::Flush);
    assert_eq!(s.in_flight().clone(), vec![report("c1", "up")]);
    assert_eq!(s.latency_deadline(), None);
}

#[test]
fn latency_guard_fires_on_arrival() {
    let mut s = fresh();
    assert_eq!(s.handle(Event::Arrived(report("a", "1")), 100), Action::Wait);
    assert_eq!(s.handle(Event::Arrived(report("b", "2")), 600), Action::Flush);
    assert_eq!(s.in_flight().clone(), vec![report("a", "1"), report("b", "2")]);
}

#[test]
fn idle_scheduler_never_flushes() {
    let mut s = fresh();
    let mut now: u64 = 0;
    while now < 10_000 {
        assert_eq!(s.handle(Event::TimerFired, now), Action::Wait);
        assert_eq!(s.handle(Event::LatencyCheck, now + 50), Action::Wait);
        assert_eq!(s.handle(Event::FlushSucceeded, now + 60), Action::Wait);
        now += 100;
    }
    assert!(!s.is_flushing());
    assert_eq!(s.latency_deadline(), None);
}

#[test]
fn order_kept_across_batches() {
    let mut s = fresh();
    let mut written: Vec<Status> = Vec::new();
    let mut now: u64 = 0;
    let mut n: u32 = 0;
    while n < 25 {
        s.handle(Event::Arrived(report(&format!("c{}", n), "up")), now);
        now += 7;
        if n % 4 == 3 {
            if s.handle(Event::TimerFired, now) == Action::Flush {
                written.extend(s.in_flight().iter().cloned());
                assert_eq!(s.handle(Event::FlushSucceeded, now + 1), Action::Wait);
            }
        }
        n += 1;
    }
    assert_eq!(s.handle(Event::TimerFired, now + 100), Action::Flush);
    written.extend(s.in_flight().iter().cloned());
    let expected: Vec<Status> = (0..25).map(|i| report(&format!("c{}", i), "up")).collect();
    assert_eq!(written, expected);
}

#[test]
fn transient_failure_retries_same_batch() {
    let mut s = fresh();
    s.handle(Event::Arrived(report("c1", "up")), 0);
    assert_eq!(s.handle(Event::TimerFired, 100), Action::Flush);
    let batch = s.in_flight().clone();
    assert_eq!(
        s.handle(Event::FlushFailed(FailureKind::Transient), 110),
        Action::RetryAfter(50)
    );
    assert_eq!(s.in_flight().clone(), batch);
    assert_eq!(s.handle(Event::Arrived(report("c2", "down")), 120), Action::Wait);
    assert_eq!(s.handle(Event::TimerFired, 200), Action::Wait);
    assert_eq!(s.in_flight().clone(), batch);
    assert_eq!(s.handle(Event::FlushSucceeded, 210), Action::Wait);
    assert_eq!(s.handle(Event::TimerFired, 300), Action::Flush);
    assert_eq!(s.in_flight().clone(), vec![report("c2", "down")]);
}

#[test]
fn retries_exhausted_dead_letter() {
    let mut s = fresh();
    s.handle(Event::Arrived(report("c1", "up")), 0);
    assert_eq!(s.handle(Event::TimerFired, 100), Action::Flush);
    let fail = || Event::FlushFailed(FailureKind::Transient);
    assert_eq!(s.handle(fail(), 101), Action::RetryAfter(50));
    assert_eq!(s.handle(fail(), 102), Action::RetryAfter(100));
    assert_eq!(s.handle(fail(), 103), Action::RetryAfter(200));
    assert_eq!(s.handle(fail(), 104), Action::RetryAfter(400));
    assert_eq!(
        s.handle(fail(), 105),
        Action::DeadLetter(vec![report("c1", "up")])
    );
    assert!(!s.is_flushing());
    assert!(s.in_flight().is_empty());
}

#[test]
fn rejected_batch_dead_lettered_at_once() {
    let mut s = fresh();
    s.handle(Event::Arrived(report("c1", "up")), 0);
    s.handle(Event::Arrived(report("c1", "up")), 1);
    assert_eq!(s.handle(Event::TimerFired, 100), Action::Flush);
    assert_eq!(
        s.handle(Event::FlushFailed(FailureKind::Rejected), 101),
        Action::DeadLetter(vec![report("c1", "up"), report("c1", "up")])
    );
}

#[test]
fn closing_drains_then_stops() {
    let mut s = fresh();
    s.handle(Event::Arrived(report("c1", "up")), 0);
    assert_eq!(s.handle(Event::QueueClosed, 5), Action::Flush);
    assert_eq!(s.in_flight().clone(), vec![report("c1", "up")]);
    assert_eq!(s.handle(Event::FlushSucceeded, 6), Action::Stop);
}

#[test]
fn closing_idle_stops() {
    let mut s = fresh();
    assert_eq!(s.handle(Event::QueueClosed, 5), Action::Stop);
}

#[test]
fn result_without_write_is_ignored() {
    let mut s = fresh();
    s.handle(Event::Arrived(report("c1", "up")), 0);
    assert_eq!(s.handle(Event::FlushSucceeded, 10), Action::Wait);
    assert_eq!(
        s.handle(Event::FlushFailed(FailureKind::Rejected), 11),
        Action::Wait
    );
    assert_eq!(s.pending_len(), 1);
}

#[test]
fn backoff_doubles_up_to_cap() {
    assert_eq!(retry_delay(50, 2000, 0), 50);
    assert_eq!(retry_delay(50, 2000, 3), 400);
    assert_eq!(retry_delay(50, 2000, 6), 2000);
    assert_eq!(retry_delay(5000, 2000, 0), 2000);
    assert_eq!(retry_delay(u64::MAX / 2 + 1, u64::MAX, 1), u64::MAX);
    assert_eq!(retry_delay(1, u64::MAX, 63), 1u64 << 63);
    assert_eq!(retry_delay(1, u64::MAX, 64), u64::MAX);
}

#[test]
fn standard_config_values() {
    let c = PipelineConfig::standard();
    assert_eq!(c.queue_capacity, 1000);
    assert_eq!(c.flush_interval_ms, 100);
    assert_eq!(c.max_latency_ms, 500);
    assert_eq!(c.max_attempts, 5);
    assert_eq!(c.base_backoff_ms, 50);
    assert_eq!(c.max_backoff_ms, 2000);
    assert_eq!(c.write_timeout_ms, 5000);
}

#[test]
fn deadline_saturates() {
    let mut c = PipelineConfig::standard();
    c.max_latency_ms = u64::MAX;
    let mut s = FlushScheduler::new(c, 10);
    s.handle(Event::Arrived(report("c1", "up")), 11);
    assert_eq!(s.latency_deadline(), Some(u64::MAX));
}
