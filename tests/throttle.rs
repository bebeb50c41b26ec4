use io_rate_limiter::{
    Admission, IOOp, IOPriority, IORateLimiter, IORateLimiterStatistics, IOThroughputEstimator,
    IOType, PriorityBasedIORateLimiter,
};

fn limiter_at(rate: usize, now: u64) -> PriorityBasedIORateLimiter {
    let mut l = PriorityBasedIORateLimiter::new(now);
    l.set_bytes_per_sec(rate);
    l
}

#[test]
fn estimator_emits_mean_on_fifth_sample() {
    let mut e = IOThroughputEstimator::new();
    assert_eq!(e.maybe_update_estimation(10), None);
    assert_eq!(e.maybe_update_estimation(20), None);
    assert_eq!(e.maybe_update_estimation(30), None);
    assert_eq!(e.maybe_update_estimation(40), None);
    assert_eq!(e.maybe_update_estimation(52), Some(30));
    assert_eq!(e.count, 5);
    assert_eq!(e.sum, 0);
    for _ in 0..4 {
        assert_eq!(e.maybe_update_estimation(5), None);
    }
    assert_eq!(e.maybe_update_estimation(5), Some(5));
}

#[test]
fn estimator_takes_largest_samples() {
    let mut e = IOThroughputEstimator::new();
    for _ in 0..4 {
        assert_eq!(e.maybe_update_estimation(usize::MAX), None);
    }
    assert_eq!(e.maybe_update_estimation(usize::MAX), Some(usize::MAX));
}

#[test]
fn fresh_limiter_is_disabled() {
    let mut l = PriorityBasedIORateLimiter::new(100);
    assert_eq!(l.next_refill_time(), 140);
    for p in [IOPriority::Low, IOPriority::Medium, IOPriority::High] {
        assert_eq!(l.bytes_per_epoch(p), 0);
        assert_eq!(l.request(p, 12345, 101), Admission::Granted(12345));
    }
}

#[test]
fn rate_sets_epoch_budget_on_all_tiers() {
    let l = limiter_at(2000, 0);
    assert_eq!(l.bytes_per_epoch(IOPriority::High), 80);
    assert_eq!(l.bytes_per_epoch(IOPriority::Medium), 80);
    assert_eq!(l.bytes_per_epoch(IOPriority::Low), 80);
    let l = limiter_at(24, 0);
    assert_eq!(l.bytes_per_epoch(IOPriority::High), 0);
    let l = limiter_at(usize::MAX, 0);
    assert_eq!(
        l.bytes_per_epoch(IOPriority::High),
        ((usize::MAX as u128) * 40 / 1000) as usize
    );
}

#[test]
fn rate_change_without_toggle_keeps_lower_tiers() {
    let mut l = limiter_at(2000, 0);
    l.set_bytes_per_sec(10000);
    assert_eq!(l.bytes_per_epoch(IOPriority::High), 400);
    assert_eq!(l.bytes_per_epoch(IOPriority::Medium), 80);
    assert_eq!(l.bytes_per_epoch(IOPriority::Low), 80);
}

#[test]
fn request_is_clamped_to_one_epoch() {
    let mut l = limiter_at(2000, 0);
    assert_eq!(l.request(IOPriority::High, 100, 1), Admission::Granted(80));
    assert_eq!(l.bytes_through(IOPriority::High), 80);
}

#[test]
fn request_over_budget_waits_for_next_epoch() {
    let mut l = limiter_at(2000, 0);
    assert_eq!(l.request(IOPriority::High, 70, 1), Admission::Granted(70));
    assert_eq!(
        l.request(IOPriority::High, 20, 2),
        Admission::Wait { bytes: 20, wait_ms: 38 }
    );
    assert_eq!(l.pending_bytes(IOPriority::High), 20);
    assert_eq!(l.bytes_through(IOPriority::High), 90);
}

#[test]
fn large_debt_adds_whole_epochs_to_wait() {
    let mut l = limiter_at(2000, 0);
    assert_eq!(l.request(IOPriority::Low, 80, 1), Admission::Granted(80));
    assert_eq!(l.request(IOPriority::Low, 80, 2), Admission::Wait { bytes: 80, wait_ms: 78 });
    assert_eq!(l.request(IOPriority::Low, 80, 3), Admission::Wait { bytes: 80, wait_ms: 117 });
    assert_eq!(l.pending_bytes(IOPriority::Low), 160);
}

#[test]
fn request_right_after_refill_retries() {
    let mut l = limiter_at(2000, 0);
    assert_eq!(l.request(IOPriority::High, 80, 1), Admission::Granted(80));
    assert_eq!(l.request(IOPriority::High, 30, 2), Admission::Wait { bytes: 30, wait_ms: 38 });
    l.refill(40);
    assert_eq!(l.next_refill_time(), 80);
    assert_eq!(l.bytes_through(IOPriority::High), 30);
    assert_eq!(l.pending_bytes(IOPriority::High), 0);
    assert_eq!(l.request(IOPriority::High, 60, 40), Admission::Retry);
    assert_eq!(l.bytes_through(IOPriority::High), 90);
}

#[test]
fn early_refill_does_nothing() {
    let mut l = limiter_at(2000, 0);
    assert_eq!(l.request(IOPriority::High, 50, 1), Admission::Granted(50));
    l.refill(10);
    assert_eq!(l.bytes_through(IOPriority::High), 50);
    assert_eq!(l.next_refill_time(), 40);
    l.refill(20);
    assert_eq!(l.bytes_through(IOPriority::High), 0);
    assert_eq!(l.next_refill_time(), 60);
}

#[test]
fn refill_of_disabled_limiter_does_nothing() {
    let mut l = PriorityBasedIORateLimiter::new(0);
    l.refill(1000);
    assert_eq!(l.next_refill_time(), 40);
}

#[test]
fn calibration_gives_lower_tiers_the_slack() {
    let mut l = limiter_at(2000, 0);
    let mut now: u64 = 0;
    for _ in 0..5 {
        assert_eq!(l.request(IOPriority::High, 30, now + 1), Admission::Granted(30));
        now += 40;
        l.refill(now);
    }
    assert_eq!(l.bytes_per_epoch(IOPriority::Medium), 50);
    assert_eq!(l.bytes_per_epoch(IOPriority::Low), 50);
}

#[test]
fn calibration_floor_keeps_lower_tiers_alive() {
    let mut l = limiter_at(2000, 0);
    let mut now: u64 = 0;
    for _ in 0..5 {
        assert_eq!(l.request(IOPriority::High, 500, now + 1), Admission::Granted(80));
        now += 40;
        l.refill(now);
    }
    assert_eq!(l.bytes_per_epoch(IOPriority::Medium), 1);
    assert_eq!(l.bytes_per_epoch(IOPriority::Low), 1);
}

#[test]
fn refill_pays_one_budget_of_debt() {
    let mut l = limiter_at(2000, 0);
    assert_eq!(l.request(IOPriority::Low, 80, 1), Admission::Granted(80));
    assert_eq!(l.request(IOPriority::Low, 80, 2), Admission::Wait { bytes: 80, wait_ms: 78 });
    assert_eq!(l.request(IOPriority::Low, 80, 3), Admission::Wait { bytes: 80, wait_ms: 117 });
    l.refill(40);
    assert_eq!(l.bytes_through(IOPriority::Low), 160);
    assert_eq!(l.pending_bytes(IOPriority::Low), 80);
    l.refill(80);
    assert_eq!(l.bytes_through(IOPriority::Low), 80);
    assert_eq!(l.pending_bytes(IOPriority::Low), 0);
    l.refill(120);
    assert_eq!(l.pending_bytes(IOPriority::Low), 0);
    assert_eq!(l.bytes_through(IOPriority::Low), 0);
}

#[test]
fn overdue_refill_runs_inside_request() {
    let mut l = limiter_at(2000, 0);
    assert_eq!(l.request(IOPriority::High, 80, 1), Admission::Granted(80));
    // the periodic refill did not come for 500 ms
    assert_eq!(
        l.request(IOPriority::High, 10, 500),
        Admission::Wait { bytes: 10, wait_ms: 0 }
    );
    assert_eq!(l.next_refill_time(), 540);
    assert_eq!(l.bytes_through(IOPriority::High), 10);
    assert_eq!(l.pending_bytes(IOPriority::High), 0);
    assert_eq!(l.request(IOPriority::High, 10, 501), Admission::Granted(10));
}

#[test]
fn disable_toggle_grants_in_full_then_throttles_again() {
    let mut l = limiter_at(2000, 0);
    assert_eq!(l.request(IOPriority::Medium, 500, 1), Admission::Granted(80));
    l.set_bytes_per_sec(0);
    for p in [IOPriority::Low, IOPriority::Medium, IOPriority::High] {
        assert_eq!(l.bytes_per_epoch(p), 0);
        assert_eq!(l.request(p, 500, 2), Admission::Granted(500));
    }
    l.set_bytes_per_sec(2000);
    let fresh = limiter_at(2000, 0);
    for p in [IOPriority::Low, IOPriority::Medium, IOPriority::High] {
        assert_eq!(l.bytes_per_epoch(p), fresh.bytes_per_epoch(p));
    }
    l.refill(40);
    assert_eq!(l.request(IOPriority::High, 500, 41), Admission::Granted(80));
}

#[test]
fn ample_budget_stays_on_fast_path() {
    let mut l = limiter_at(1_000_000_000, 0);
    let mut now: u64 = 0;
    for i in 0..2000u64 {
        if i % 100 == 99 {
            now += 40;
            l.refill(now);
        }
        for p in [IOPriority::Low, IOPriority::Medium, IOPriority::High] {
            assert_eq!(l.request(p, 4096, now + 1), Admission::Granted(4096));
        }
    }
}

#[test]
fn granted_is_positive_and_bounded() {
    for rate in [25usize, 1000, 2000, 123456] {
        let mut l = limiter_at(rate, 0);
        let budget = l.bytes_per_epoch(IOPriority::High);
        for amount in [1usize, 7, 80, 1000, 100000] {
            match l.request(IOPriority::High, amount, 5) {
                Admission::Granted(g) | Admission::Wait { bytes: g, .. } => {
                    assert!(g > 0 && g <= amount && g <= budget);
                }
                Admission::Retry => panic!("no refill happened"),
            }
        }
    }
}

#[test]
fn statistics_count_per_type_and_op() {
    let mut s = IORateLimiterStatistics::new();
    s.record(IOType::Compaction, IOOp::Write, 10);
    s.record(IOType::Compaction, IOOp::Write, 5);
    s.record(IOType::Compaction, IOOp::Read, 7);
    assert_eq!(s.fetch(IOType::Compaction, IOOp::Write), 15);
    assert_eq!(s.fetch(IOType::Compaction, IOOp::Read), 7);
    assert_eq!(s.fetch(IOType::Import, IOOp::Write), 0);
    s.record(IOType::Import, IOOp::Write, usize::MAX);
    s.record(IOType::Import, IOOp::Write, 1);
    assert_eq!(s.fetch(IOType::Import, IOOp::Write), usize::MAX);
    s.reset();
    assert_eq!(s.fetch(IOType::Compaction, IOOp::Write), 0);
    assert_eq!(s.fetch(IOType::Import, IOOp::Write), 0);
}

#[test]
fn facade_does_not_throttle_reads() {
    let mut l = IORateLimiter::new(true, 0);
    l.set_io_rate_limit(2000);
    assert_eq!(
        l.request(IOType::ForegroundRead, IOOp::Read, 1000, 1),
        Admission::Granted(1000)
    );
    assert_eq!(
        l.request(IOType::ForegroundWrite, IOOp::Write, 1000, 1),
        Admission::Granted(80)
    );
    let s = l.statistics().unwrap();
    assert_eq!(s.fetch(IOType::ForegroundRead, IOOp::Read), 1000);
    assert_eq!(s.fetch(IOType::ForegroundWrite, IOOp::Write), 80);
}

#[test]
fn facade_uses_priority_map() {
    let mut l = IORateLimiter::new(false, 0);
    assert!(l.statistics().is_none());
    assert_eq!(l.io_priority(IOType::Import), IOPriority::High);
    l.set_io_priority(IOType::Import, IOPriority::Low);
    assert_eq!(l.io_priority(IOType::Import), IOPriority::Low);
    assert_eq!(l.io_priority(IOType::Compaction), IOPriority::High);
    l.set_io_rate_limit(2000);
    assert_eq!(
        l.request(IOType::Import, IOOp::Write, 50, 1),
        Admission::Granted(50)
    );
    let t = l.throughput_limiter();
    assert_eq!(t.bytes_through(IOPriority::Low), 50);
    assert_eq!(t.bytes_through(IOPriority::High), 0);
    l.refill(40);
    assert_eq!(l.throughput_limiter().bytes_through(IOPriority::Low), 0);
}

#[test]
fn facade_records_nothing_on_retry() {
    let mut l = IORateLimiter::new(true, 0);
    l.set_io_rate_limit(2000);
    assert_eq!(l.request(IOType::Gc, IOOp::Write, 80, 1), Admission::Granted(80));
    assert_eq!(
        l.request(IOType::Gc, IOOp::Write, 30, 2),
        Admission::Wait { bytes: 30, wait_ms: 38 }
    );
    l.refill(40);
    assert_eq!(l.request(IOType::Gc, IOOp::Write, 60, 40), Admission::Retry);
    assert_eq!(l.statistics().unwrap().fetch(IOType::Gc, IOOp::Write), 110);
}

#[test]
fn priority_names() {
    assert_eq!(IOPriority::Low.as_str(), "low");
    assert_eq!(IOPriority::Medium.as_str(), "medium");
    assert_eq!(IOPriority::High.as_str(), "high");
}

#[test]
fn estimator_counts_every_sample() {
    let mut e = IOThroughputEstimator::new();
    for v in [10usize, 20, 30, 40] {
        assert_eq!(e.maybe_update_estimation(v), None);
    }
    assert_eq!(e.maybe_update_estimation(50), Some(30));
    assert_eq!(e.count, 5);
    assert_eq!(e.sum, 0);
    assert_eq!(e.maybe_update_estimation(7), None);
    assert_eq!(e.count, 6);
    assert_eq!(e.sum, 7);
}

#[test]
fn facade_counts_first_write() {
    let mut l = IORateLimiter::new(true, 0);
    l.set_io_rate_limit(3000);
    assert_eq!(l.throughput_limiter().bytes_per_epoch(IOPriority::High), 120);
    assert!(l.throughput_limiter().epochs_countable());
    assert_eq!(
        l.request(IOType::Compaction, IOOp::Write, 1, 1),
        Admission::Granted(1)
    );
    assert_eq!(l.statistics().unwrap().fetch(IOType::Compaction, IOOp::Write), 1);
    assert_eq!(l.statistics().unwrap().fetch(IOType::Compaction, IOOp::Read), 0);
}
