use pktio::counters::Counters;
use pktio::pool::Pool;
use pktio::shared_queue::RecycleQueue;

#[test]
fn drained_handles_are_each_reclaimed_once() {
    let q = RecycleQueue::with_capacity(4);
    let c = Counters::new("recycle_tests");
    let mut p = Pool::new("recycle_tests", q.share(), c, 4, 4, 64);
    let a = p.allocate().expect("first");
    let b = p.allocate().expect("second");
    let d = p.allocate().expect("third");
    assert_eq!(p.avail_now(), 1);
    assert_eq!(p.free_now(), 1);
    assert!(q.push(a));
    assert!(q.push(b));
    assert!(q.push(d));
    // Parked handles are not yet reclaimed.
    assert_eq!(p.free_now(), 1);
    let drained = p.drain_recycle_queue().expect("drain succeeds");
    assert_eq!(drained, 3);
    assert_eq!(p.avail_now(), 4);
    assert_eq!(p.free_now(), 4);
    // A second drain finds nothing: nothing is reclaimed twice.
    let again = p.drain_recycle_queue().expect("drain of an empty queue");
    assert_eq!(again, 0);
    assert_eq!(p.avail_now(), 4);
    assert_eq!(p.free_now(), 4);
}

#[test]
fn push_on_full_queue_fails_silently() {
    let q = RecycleQueue::with_capacity(1);
    let c = Counters::new("recycle_tests");
    let mut p = Pool::new("recycle_tests", q.share(), c, 2, 2, 64);
    let a = p.allocate().expect("first");
    let b = p.allocate().expect("second");
    assert!(q.push(a));
    // The queue is sized to one handle: the second push is refused and
    // the buffer is leaked, never blocking the producer.
    assert!(!q.push(b));
    assert_eq!(p.drain_recycle_queue().expect("drain"), 1);
    assert_eq!(p.avail_now(), 1);
    assert_eq!(p.free_now(), 1);
}

#[test]
fn drain_interleaves_with_allocation() {
    let q = RecycleQueue::with_capacity(2);
    let c = Counters::new("recycle_tests");
    let mut p = Pool::new("recycle_tests", q.share(), c, 2, 2, 64);
    let a = p.allocate().expect("first");
    let b = p.allocate().expect("second");
    assert!(p.allocate().is_none());
    assert!(q.push(a));
    assert_eq!(p.drain_recycle_queue().expect("drain"), 1);
    let c2 = p.allocate().expect("after the drain");
    assert!(q.push(b));
    assert!(q.push(c2));
    assert_eq!(p.drain_recycle_queue().expect("drain"), 2);
    assert_eq!(p.avail_now(), 2);
    assert_eq!(p.free_now(), 2);
}
