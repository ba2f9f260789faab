use pktio::counters::Counters;
use pktio::pool::{Pool, PoolError};
use pktio::shared_queue::RecycleQueue;

fn pool(num_pkts: usize, num_partitions: usize, partition_size: usize) -> Pool {
    let q = RecycleQueue::with_capacity(num_pkts.max(1));
    let c = Counters::new("pool_tests");
    Pool::new("pool_tests", q, c, num_pkts, num_partitions, partition_size)
}

#[test]
fn exhaustion_then_recovery() {
    let mut p = pool(2, 3, 64);
    let a = p.allocate().expect("first allocation");
    let b = p.allocate().expect("second allocation");
    assert!(p.allocate().is_none());
    assert_eq!(p.counters().alloc_fail(), 1);
    assert!(p.reclaim(b).is_ok());
    let c = p.allocate().expect("allocation after reclaim");
    assert!(p.reclaim(a).is_ok());
    assert!(p.reclaim(c).is_ok());
    assert_eq!(p.avail_now(), 2);
    assert_eq!(p.free_now(), 3);
}

#[test]
fn ten_buffers_then_nothing() {
    let mut p = pool(10, 20, 3072);
    let mut held = Vec::new();
    for _ in 0..10 {
        held.push(p.allocate().expect("within the checkout budget"));
    }
    assert!(p.allocate().is_none());
    for b in held {
        assert!(p.reclaim(b).is_ok());
    }
    assert_eq!(p.avail_now(), 10);
    assert_eq!(p.free_now(), 20);
}

#[test]
fn checked_out_partitions_are_distinct() {
    let mut p = pool(8, 8, 64);
    let mut held = Vec::new();
    for _ in 0..8 {
        held.push(p.allocate().expect("within the checkout budget"));
    }
    for i in 0..held.len() {
        for j in 0..i {
            assert_ne!(held[i].part(), held[j].part());
        }
    }
}

#[test]
fn more_handles_than_partitions() {
    let mut p = pool(5, 2, 64);
    let a = p.allocate().expect("first partition");
    let _b = p.allocate().expect("second partition");
    assert!(p.allocate().is_none());
    assert!(p.reclaim(a).is_ok());
    assert!(p.allocate().is_some());
}

#[test]
fn foreign_buffer_is_fatal() {
    let mut ours = pool(2, 2, 64);
    let mut other = pool(2, 2, 128);
    let stray = other.allocate().expect("allocation from the other pool");
    assert_eq!(ours.reclaim(stray), Err(PoolError::InvariantViolation));
    assert_eq!(ours.avail_now(), 2);
    assert_eq!(ours.free_now(), 2);
}

#[test]
fn free_partition_reclaim_is_fatal() {
    let mut a = pool(2, 2, 64);
    let mut b = pool(2, 2, 64);
    let stray = b.allocate().expect("allocation from the twin pool");
    // The stray handle names a partition of `a` that is still free: the
    // double-free check must refuse it.
    assert_eq!(a.reclaim(stray), Err(PoolError::InvariantViolation));
}

#[test]
fn header_room_beyond_partition_is_refused() {
    let mut p = pool(2, 2, 64);
    assert!(p.allocate_with_room(65).is_none());
    assert_eq!(p.counters().alloc_fail(), 1);
    let b = p.allocate_with_room(64).expect("room equal to the partition");
    assert_eq!(b.cap(), 64);
}

#[test]
fn alloc_fail_counts_every_miss() {
    let mut p = pool(1, 1, 64);
    let _held = p.allocate().expect("the only buffer");
    assert!(p.allocate().is_none());
    assert!(p.allocate().is_none());
    assert_eq!(p.counters().alloc_fail(), 2);
}

#[test]
fn foreign_buffer_with_matching_partition_is_fatal() {
    let q_left = RecycleQueue::with_capacity(2);
    let c_left = Counters::new("pool_tests_left");
    let mut left = Pool::new("pool_tests_left", q_left, c_left, 2, 2, 64);
    let q_right = RecycleQueue::with_capacity(2);
    let c_right = Counters::new("pool_tests_right");
    let mut right = Pool::new("pool_tests_right", q_right, c_right, 2, 2, 64);
    let mine = left.allocate().expect("left buffer");
    let stray = right.allocate().expect("right buffer");
    // The stray handle matches a checked-out partition of `left` in
    // index and size; only the owner mark tells the arenas apart.
    assert_eq!(stray.part(), mine.part());
    assert_eq!(left.reclaim(stray), Err(PoolError::InvariantViolation));
    assert!(left.reclaim(mine).is_ok());
}
