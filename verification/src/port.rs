//! Ports: send/receive endpoints bound to one interface and driven by
//! one thread each. A port hands whole frames to its link and fills
//! receive buffers drawn from a pool; the payload bytes pass through
//! unmodified in both directions.

use vstd::prelude::*;
use vstd::slice::slice_to_vec;
use crate::buffer::BoxPkt;
use crate::counters::{
    Counters,
    counters_unchanged,
    only_alloc_fail_bumped,
    only_rx_drop_bumped,
    only_rx_pkts_bumped,
    only_tx_pkts_bumped,
};
use crate::pool::{Pool, config_unchanged};
use crate::shared_queue::{frame_queue_bound, FrameRing, RecycleQueue};
use crossbeam_queue::ArrayQueue;

verus! {

/// The backend a port drives: a kernel raw socket bound to an existing
/// interface, or a user-space polling driver queue. The set is closed
/// and fixed at port creation.
#[derive(Clone, Copy, Debug, PartialEq, Eq, Structural)]
pub enum BackendKind {
    AfPacket,
    Dpdk,
}

/// A port's lifecycle: registered but not yet bound, bound and usable,
/// or closed for good.
#[derive(Clone, Copy, Debug, PartialEq, Eq, Structural)]
pub enum PortState {
    Down,
    Up,
    Closed,
}

/// A port's attachment to its interface: one ring of frames towards the
/// wire and one ring of frames arriving from it. For the polling driver
/// the rings are the device queue itself; for the kernel-socket backend
/// the thread that owns the socket moves frames between the rings and
/// the kernel.
pub struct Link {
    tx: FrameRing,
    rx: FrameRing,
}

impl Link {
    /// The ring this end transmits into.
    pub closed spec fn tx_spec(self) -> ArrayQueue<Vec<u8>> {
        self.tx.queue_spec()
    }

    /// The ring this end receives from.
    pub closed spec fn rx_spec(self) -> ArrayQueue<Vec<u8>> {
        self.rx.queue_spec()
    }
}

/// Two ends of one wire, such as the two interfaces of a veth pair:
/// what one end transmits into is the very ring the other end receives
/// from, and the other way round. Both rings carry at most `cap` frames
/// in flight.
pub fn link_pair(cap: usize) -> (r: (Link, Link))
    requires
        1 <= cap <= usize::MAX / 2,
    ensures
        r.0.tx_spec() == r.1.rx_spec(),
        r.0.rx_spec() == r.1.tx_spec(),
        frame_queue_bound(r.0.tx_spec()) == cap,
        frame_queue_bound(r.0.rx_spec()) == cap,
{
    let a = FrameRing::with_capacity(cap);
    let b = FrameRing::with_capacity(cap);
    let left = Link { tx: a.share(), rx: b.share() };
    let right = Link { tx: b, rx: a };
    (left, right)
}

/// What the receive path's compute step does with one delivered frame:
/// draw a buffer from the pool and copy the frame into it. The result is
/// a buffer exactly when the pool has a handle and a partition free and
/// the frame fits a partition; its payload is then byte-for-byte the
/// frame.
pub open spec fn rx_fill_post(pre: Pool, post: Pool, frame: Seq<u8>, r: Option<BoxPkt>) -> bool {
    &&& post.wf()
    &&& config_unchanged(pre, post)
    &&& (r is Some <==> frame.len() <= pre.partition_size_spec() && pre.avail_handles() > 0
            && pre.free_count() > 0)
    &&& (r matches Some(b) ==> {
        &&& b.wf()
        &&& b@ == frame
        &&& b.head_room() == 0
        &&& b.capacity() == pre.partition_size_spec()
        &&& b.owner_spec() == pre.label_spec()
        &&& b.part_id() < pre.num_partitions_spec()
        &&& !pre.checked_out(b.part_id() as int)
        &&& post.checked_out(b.part_id() as int)
        &&& forall|j: int| j != b.part_id() ==> post.checked_out(j) == pre.checked_out(j)
        &&& post.free_count() == pre.free_count() - 1
        &&& post.avail_handles() == pre.avail_handles() - 1
        &&& counters_unchanged(pre.counters_spec(), post.counters_spec())
    })
    &&& (frame.len() > pre.partition_size_spec() ==> post == pre)
    &&& ((frame.len() <= pre.partition_size_spec() && r is None) ==> {
        &&& post.free_count() == pre.free_count()
        &&& post.avail_handles() == pre.avail_handles()
        &&& (forall|j: int| post.checked_out(j) == pre.checked_out(j))
        &&& only_alloc_fail_bumped(pre.counters_spec(), post.counters_spec())
    })
}

/// Fill a buffer from `pool` with one delivered frame: the receive
/// path's compute step, byte-exact for every frame the wire may hand
/// over.
pub fn fill_from_frame(pool: &mut Pool, frame: &Vec<u8>) -> (r: Option<BoxPkt>)
    requires
        old(pool).wf(),
    ensures
        rx_fill_post(*old(pool), *final(pool), frame@, r),
{
    if frame.len() > pool.partition_size() {
        return None;
    }
    match pool.allocate() {
        None => None,
        Some(mut b) => {
            let ok = b.append(frame.as_slice());
            proof {
                assert(ok);
                assert(b@ =~= frame@);
            }
            Some(b)
        },
    }
}

/// The buffer's payload as one frame for the wire, byte for byte.
fn frame_of(pkt: &BoxPkt) -> (f: Vec<u8>)
    ensures
        f@ == pkt@,
{
    let (sl, _rest) = pkt.data(0).unwrap();
    proof {
        assert(sl@ =~= pkt@);
    }
    slice_to_vec(sl)
}

/// A send/receive endpoint bound to one interface and one backend,
/// created through the registry.
pub struct Port {
    name: String,
    kind: BackendKind,
    state: PortState,
    link: Link,
    recycle: RecycleQueue,
    counters: Counters,
}

impl Port {
    pub closed spec fn name_spec(self) -> Seq<char> {
        self.name@
    }

    pub closed spec fn kind_spec(self) -> BackendKind {
        self.kind
    }

    pub closed spec fn state_spec(self) -> PortState {
        self.state
    }

    pub closed spec fn counters_spec(self) -> Counters {
        self.counters
    }

    /// The ring this port transmits into.
    pub closed spec fn tx_ring_spec(self) -> ArrayQueue<Vec<u8>> {
        self.link.tx_spec()
    }

    /// The ring this port receives from.
    pub closed spec fn rx_ring_spec(self) -> ArrayQueue<Vec<u8>> {
        self.link.rx_spec()
    }

    /// The queue this port parks spent transmit buffers in: it must be
    /// the one the buffers' pool drains.
    pub closed spec fn recycle_spec(self) -> ArrayQueue<BoxPkt> {
        self.recycle.queue_spec()
    }

    /// The port's identity — its name, backend, and wiring — held
    /// steady across an operation.
    pub open spec fn identity_unchanged(a: Port, b: Port) -> bool {
        &&& b.name_spec() == a.name_spec()
        &&& b.kind_spec() == a.kind_spec()
        &&& b.tx_ring_spec() == a.tx_ring_spec()
        &&& b.rx_ring_spec() == a.rx_ring_spec()
        &&& b.recycle_spec() == a.recycle_spec()
    }

    /// A port attached to its interface but not yet bound: it starts
    /// `Down`, wired to exactly the link and recycle queue it was given.
    /// The registry alone creates ports.
    pub(crate) fn attach(
        name: String,
        kind: BackendKind,
        link: Link,
        recycle: RecycleQueue,
        counters: Counters,
    ) -> (r: Port)
        ensures
            r.name_spec() == name@,
            r.kind_spec() == kind,
            r.state_spec() == PortState::Down,
            r.counters_spec() == counters,
            r.tx_ring_spec() == link.tx_spec(),
            r.rx_ring_spec() == link.rx_spec(),
            r.recycle_spec() == recycle.queue_spec(),
    {
        Port { name, kind, state: PortState::Down, link, recycle, counters }
    }

    /// The backend bind succeeded: the port becomes usable.
    pub(crate) fn activate(&mut self)
        requires
            old(self).state_spec() == PortState::Down,
        ensures
            Port::identity_unchanged(*old(self), *final(self)),
            final(self).state_spec() == PortState::Up,
            counters_unchanged(old(self).counters_spec(), final(self).counters_spec()),
    {
        self.state = PortState::Up;
    }

    /// Close the port for good; no frame passes it afterwards.
    pub fn close(&mut self)
        ensures
            Port::identity_unchanged(*old(self), *final(self)),
            final(self).state_spec() == PortState::Closed,
            counters_unchanged(old(self).counters_spec(), final(self).counters_spec()),
    {
        self.state = PortState::Closed;
    }

    pub fn state(&self) -> (r: PortState)
        ensures
            r == self.state_spec(),
    {
        self.state
    }

    pub fn name(&self) -> (r: &String)
        ensures
            r@ == self.name_spec(),
    {
        &self.name
    }

    /// The port's counter set, read-only.
    pub fn counters(&self) -> (r: &Counters)
        ensures
            *r == self.counters_spec(),
    {
        &self.counters
    }

    /// Transmit the buffer's written payload and hand the spent buffer
    /// back to its pool through the recycle queue. Returns the byte
    /// count given to the wire: the buffer's whole length, or zero when
    /// the port is not up, the buffer is empty, or the device ring had
    /// no room — a transmit whose count differs from the buffer's length
    /// failed, and the caller decides whether to retry.
    pub fn sendmsg(&mut self, pkt: BoxPkt) -> (sent: usize)
        ensures
            Port::identity_unchanged(*old(self), *final(self)),
            final(self).state_spec() == old(self).state_spec(),
            sent == pkt@.len() || sent == 0,
            old(self).state_spec() != PortState::Up ==> sent == 0,
            pkt@.len() == 0 ==> sent == 0,
            sent != 0 ==> old(self).state_spec() == PortState::Up && only_tx_pkts_bumped(
                old(self).counters_spec(),
                final(self).counters_spec(),
            ),
            sent == 0 ==> counters_unchanged(
                old(self).counters_spec(),
                final(self).counters_spec(),
            ),
    {
        match self.state {
            PortState::Up => {},
            _ => {
                return 0;
            },
        }
        let n = pkt.len();
        if n == 0 {
            let _parked = self.recycle.push(pkt);
            return 0;
        }
        let frame = frame_of(&pkt);
        let accepted = self.link.tx.push(frame);
        let _parked = self.recycle.push(pkt);
        if accepted {
            self.counters.bump_tx_pkts();
            n
        } else {
            0
        }
    }

    /// Attempt to receive one packet: poll the device ring once, draw
    /// the destination buffer from `pool`, and fill it with the frame.
    /// Nothing comes back on an empty ring, when the pool is exhausted,
    /// or when the frame cannot fit a partition; the cases are told
    /// apart through the counters, not the return, so callers re-poll
    /// either way. `timeout_ms` bounds the backend's native wait; the
    /// polling ring answers at once and does not consult it.
    #[allow(unused_variables)]
    pub fn recvmsg(&mut self, pool: &mut Pool, timeout_ms: u64) -> (r: Option<BoxPkt>)
        requires
            old(pool).wf(),
        ensures
            Port::identity_unchanged(*old(self), *final(self)),
            final(self).state_spec() == old(self).state_spec(),
            final(pool).wf(),
            config_unchanged(*old(pool), *final(pool)),
            old(self).state_spec() != PortState::Up ==> r is None && *final(pool) == *old(pool)
                && counters_unchanged(old(self).counters_spec(), final(self).counters_spec()),
            r matches Some(b) ==> {
                &&& old(self).state_spec() == PortState::Up
                &&& b.wf()
                &&& b.head_room() == 0
                &&& b.capacity() == old(pool).partition_size_spec()
                &&& b@.len() <= old(pool).partition_size_spec()
                &&& b.part_id() < old(pool).num_partitions_spec()
                &&& !old(pool).checked_out(b.part_id() as int)
                &&& final(pool).checked_out(b.part_id() as int)
                &&& forall|j: int| j != b.part_id() ==> final(pool).checked_out(j) == old(
                    pool,
                ).checked_out(j)
                &&& final(pool).free_count() == old(pool).free_count() - 1
                &&& final(pool).avail_handles() == old(pool).avail_handles() - 1
                &&& counters_unchanged(old(pool).counters_spec(), final(pool).counters_spec())
                &&& only_rx_pkts_bumped(old(self).counters_spec(), final(self).counters_spec())
            },
            r is None ==> {
                &&& final(pool).free_count() == old(pool).free_count()
                &&& final(pool).avail_handles() == old(pool).avail_handles()
                &&& (forall|j: int| final(pool).checked_out(j) == old(pool).checked_out(j))
                &&& (counters_unchanged(old(self).counters_spec(), final(self).counters_spec())
                    || only_rx_drop_bumped(old(self).counters_spec(), final(self).counters_spec()))
                &&& (counters_unchanged(old(pool).counters_spec(), final(pool).counters_spec())
                    || only_alloc_fail_bumped(
                    old(pool).counters_spec(),
                    final(pool).counters_spec(),
                ))
            },
    {
        match self.state {
            PortState::Up => {},
            _ => {
                return None;
            },
        }
        match self.link.rx.pop() {
            None => None,
            Some(frame) => {
                match fill_from_frame(pool, &frame) {
                    Some(b) => {
                        self.counters.bump_rx_pkts();
                        Some(b)
                    },
                    None => {
                        self.counters.bump_rx_drop();
                        None
                    },
                }
            },
        }
    }
}

/// Law: a payload transmitted through a port and delivered by the wire
/// to the paired port is received with the same length and the same
/// bytes. The send path hands the wire exactly the buffer's payload and
/// the receive path returns exactly the delivered frame; the wire
/// between them is the link's queue, relied on to deliver elements
/// unchanged.
pub proof fn lemma_round_trip(
    sent_payload: Seq<u8>,
    delivered: Seq<u8>,
    pre: Pool,
    post: Pool,
    b: BoxPkt,
)
    requires
        delivered == sent_payload,
        rx_fill_post(pre, post, delivered, Some(b)),
    ensures
        b@ == sent_payload,
        b@.len() == sent_payload.len(),
{
}

} // verus!
