use pktio::counters::Counters;
use pktio::pool::Pool;
use pktio::shared_queue::RecycleQueue;

fn small_pool(partition_size: usize) -> Pool {
    let q = RecycleQueue::with_capacity(4);
    let c = Counters::new("buffer_tests");
    Pool::new("buffer_tests", q, c, 4, 4, partition_size)
}

#[test]
fn append_then_read_round_trips() {
    let mut pool = small_pool(3072);
    let mut b = pool.allocate().expect("fresh pool must allocate");
    let payload: Vec<u8> = (0..1500usize).map(|x| (x % 256) as u8).collect();
    assert!(b.append(payload.as_slice()));
    assert_eq!(b.len(), 1500);
    let (bytes, n) = b.data(0).expect("offset 0 is in bounds");
    assert_eq!(n, 1500);
    for i in 0..1500usize {
        assert_eq!(bytes[i], (i % 256) as u8);
    }
}

#[test]
fn append_beyond_capacity_is_refused_unchanged() {
    let mut pool = small_pool(16);
    let mut b = pool.allocate().expect("fresh pool must allocate");
    let big = vec![7u8; 17];
    assert!(!b.append(big.as_slice()));
    assert_eq!(b.len(), 0);
    let small = vec![1u8, 2, 3];
    assert!(b.append(small.as_slice()));
    assert_eq!(b.len(), 3);
    let too_much = vec![9u8; 14];
    assert!(!b.append(too_much.as_slice()));
    assert_eq!(b.len(), 3);
    let (bytes, n) = b.data(0).expect("offset 0 is in bounds");
    assert_eq!(n, 3);
    assert_eq!(bytes, &[1u8, 2, 3]);
}

#[test]
fn append_respects_header_room() {
    let mut pool = small_pool(3072);
    let mut b = pool
        .allocate_with_room(100)
        .expect("fresh pool must allocate");
    let fits: Vec<u8> = vec![5u8; 2972];
    assert!(b.append(fits.as_slice()));
    let one_more = vec![5u8];
    assert!(!b.append(one_more.as_slice()));
    assert_eq!(b.len(), 2972);
}

#[test]
fn data_at_offsets() {
    let mut pool = small_pool(32);
    let mut b = pool.allocate().expect("fresh pool must allocate");
    let payload = vec![10u8, 20, 30, 40];
    assert!(b.append(payload.as_slice()));
    let (tail, n) = b.data(2).expect("offset 2 is in bounds");
    assert_eq!(n, 2);
    assert_eq!(tail, &[30u8, 40]);
    let (rest, n_end) = b.data(4).expect("offset == len is still in bounds");
    assert_eq!(n_end, 0);
    assert!(rest.is_empty());
    assert!(b.data(5).is_none());
}

#[test]
fn empty_buffer_reads_empty() {
    let mut pool = small_pool(32);
    let b = pool.allocate().expect("fresh pool must allocate");
    assert_eq!(b.len(), 0);
    let (bytes, n) = b.data(0).expect("offset 0 of an empty buffer");
    assert_eq!(n, 0);
    assert!(bytes.is_empty());
}
