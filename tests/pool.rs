use worker_gate::pool::{DrainStep, PoolError, WorkerPool, DRAIN_POLL_INTERVAL_MS};

fn pool_of(size: usize) -> WorkerPool {
    match WorkerPool::new(size) {
        Ok(p) => p,
        Err(e) => panic!("a pool of size {} was refused: {:?}", size, e),
    }
}

#[test]
fn zero_capacity_is_refused() {
    assert!(matches!(WorkerPool::new(0), Err(PoolError::InvalidConfiguration)));
}

#[test]
fn positive_capacity_starts_empty() {
    for size in [1usize, 2, 7, 1000, usize::MAX] {
        let p = pool_of(size);
        assert_eq!(p.size(), size);
        assert_eq!(p.active_workers(), 0);
        assert!(p.can_accept_work());
        assert!(p.is_drained());
    }
}

#[test]
fn interleaved_admits_and_releases_count_exactly() {
    let mut p = pool_of(3);
    // five admissions and three releases, mixed
    let ops = [true, true, false, true, true, false, false, true];
    for op in ops {
        if op {
            p.increment_active();
        } else {
            p.decrement_active();
        }
    }
    assert_eq!(p.active_workers(), 5 - 3);
    assert_eq!(p.size(), 3);
}

#[test]
fn can_accept_work_compares_with_capacity() {
    let mut p = pool_of(3);
    for expected_active in 0..6usize {
        assert_eq!(p.active_workers(), expected_active);
        assert_eq!(p.can_accept_work(), expected_active < 3);
        p.increment_active();
    }
}

#[test]
fn capacity_two_fill_and_release() {
    let mut p = pool_of(2);
    p.increment_active();
    p.increment_active();
    assert_eq!(p.active_workers(), 2);
    assert!(!p.can_accept_work());
    p.decrement_active();
    assert_eq!(p.active_workers(), 1);
    assert!(p.can_accept_work());
}

#[test]
fn check_then_act_race_over_admits() {
    let mut p = pool_of(1);
    // two callers both look before either takes a slot
    let first_sees_room = p.can_accept_work();
    let second_sees_room = p.can_accept_work();
    assert!(first_sees_room);
    assert!(second_sees_room);
    p.increment_active();
    p.increment_active();
    assert_eq!(p.active_workers(), 2);
    assert!(p.active_workers() > p.size());
    assert!(!p.can_accept_work());
}

#[test]
fn drain_waits_until_every_slot_is_back() {
    let mut p = pool_of(4);
    assert_eq!(p.drain_step(), DrainStep::Complete);
    p.increment_active();
    p.increment_active();
    assert_eq!(p.drain_step(), DrainStep::Wait { millis: DRAIN_POLL_INTERVAL_MS });
    assert_eq!(DRAIN_POLL_INTERVAL_MS, 10);
    p.decrement_active();
    assert!(!p.is_drained());
    assert_eq!(p.drain_step(), DrainStep::Wait { millis: 10 });
    p.decrement_active();
    assert!(p.is_drained());
    assert_eq!(p.drain_step(), DrainStep::Complete);
}

#[test]
fn leaked_slot_never_drains() {
    let mut p = pool_of(2);
    p.increment_active();
    for _ in 0..1000 {
        assert!(matches!(p.drain_step(), DrainStep::Wait { .. }));
    }
    assert_eq!(p.active_workers(), 1);
}
