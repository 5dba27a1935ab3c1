use light_engine::limiter::{stream_permits, stream_refill, Builder, Limits, DEFAULT_MAX_CONCURRENCY};
use light_engine::watcher::{Quota, TrafficCounter};

#[test]
fn default_limits() {
    assert_eq!(Builder::new().build(), Limits { max_concurrency: 8, max_rate: None });
    assert_eq!(DEFAULT_MAX_CONCURRENCY, 8);
}

#[test]
fn configured_limits() {
    let l = Builder::new().max_concurrency(128).max_rate(16 * 1024 * 1024).build();
    assert_eq!(l, Limits { max_concurrency: 128, max_rate: Some(16 * 1024 * 1024) });
}

#[test]
fn refill_adds_a_twentieth_of_the_rate_below_the_threshold() {
    assert_eq!(stream_refill(2000, 0), 100);
    assert_eq!(stream_refill(2000, 1999), 100);
    assert_eq!(stream_refill(2000, 2000), 0);
    assert_eq!(stream_refill(1 << 20, 32767), (1 << 20) / 20);
    assert_eq!(stream_refill(1 << 20, 32768), 0);
    assert_eq!(stream_refill(19, 0), 0);
}

#[test]
fn stream_permits_truncate_to_u32() {
    assert_eq!(stream_permits(4096), 4096);
    assert_eq!(stream_permits(u32::MAX as usize), u32::MAX);
    assert_eq!(stream_permits((1usize << 32) + 5), 5);
}

#[test]
fn quota_per_second() {
    let q = Quota::bytes_per_second(10_000);
    assert_eq!(q.refill(0), 500);
    assert_eq!(q.refill(9_999), 500);
    assert_eq!(q.refill(10_000), 0);
    let small = Quota::bytes_per_second(999);
    assert_eq!(small.refill(0), 0);
}

#[test]
fn counter_counts_and_resets() {
    let mut c = TrafficCounter::new();
    c.record(10);
    c.record(32);
    assert_eq!(c.poll_counter(), 42);
    assert_eq!(c.poll_counter(), 0);
    c.record(usize::MAX);
    c.record(2);
    assert_eq!(c.poll_counter(), 1);
}

#[test]
fn a_second_of_refills_stays_within_the_rate() {
    let rate = 1000;
    let mut available = 0usize;
    let mut added = 0usize;
    for _ in 0..20 {
        let add = stream_refill(rate, available);
        added += add;
        available += add;
        assert!(available <= 1000 + 1000 / 20);
    }
    assert!(added <= rate);
    assert_eq!(added, 1000);
}
