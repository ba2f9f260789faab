//! The packet pool: a partitioned arena laid out once at construction,
//! a free list of buffer handles, and the drain step that reclaims
//! handles parked in the recycle queue. All free-list mutation belongs to
//! the one thread that owns the pool; every other thread returns buffers
//! through the recycle queue alone.

use vstd::prelude::*;
use vstd::seq_lib::*;
use vstd::set_lib::*;
use vstd::string::StringExecFns;
use crate::buffer::BoxPkt;
use crate::counters::{Counters, counters_unchanged, only_alloc_fail_bumped};
use crate::shared_queue::RecycleQueue;
use crossbeam_queue::ArrayQueue;

verus! {

/// The one fatal pool error: a buffer was handed back that does not
/// belong to this pool's arena, or whose partition is not checked out —
/// a double free. It signals memory-accounting corruption and must not
/// be swallowed.
#[derive(Debug, PartialEq, Eq, Structural)]
pub enum PoolError {
    InvariantViolation,
}

/// A packet pool. `num_pkts` bounds how many buffers may be checked out
/// at once; `num_partitions` is the number of backing memory slots in
/// the arena; each slot holds `partition_size` bytes.
pub struct Pool {
    label: String,
    num_pkts: usize,
    num_partitions: usize,
    partition_size: usize,
    /// Buffer-handle budget still available for checkout.
    avail: usize,
    /// Free partitions, each carried by its handle.
    free: Vec<BoxPkt>,
    /// Per partition: whether it is away from the free list (checked out
    /// or in flight through the recycle queue).
    in_use: Vec<bool>,
    /// The queue this pool drains.
    queue: RecycleQueue,
    counters: Counters,
}

/// The configuration of `b` agrees with that of `a`.
pub open spec fn config_unchanged(a: Pool, b: Pool) -> bool {
    &&& b.label_spec() == a.label_spec()
    &&& b.num_pkts_spec() == a.num_pkts_spec()
    &&& b.num_partitions_spec() == a.num_partitions_spec()
    &&& b.partition_size_spec() == a.partition_size_spec()
    &&& b.drains_spec() == a.drains_spec()
}

/// Everything `Pool::allocate_with_room` promises, as a relation between
/// the pool before the call, the pool after it, and the result.
pub open spec fn allocate_post(pre: Pool, post: Pool, room: int, r: Option<BoxPkt>) -> bool {
    &&& post.wf()
    &&& config_unchanged(pre, post)
    &&& (r is Some <==> pre.avail_handles() > 0 && pre.free_count() > 0
            && room <= pre.partition_size_spec())
    &&& (r matches Some(b) ==> {
        &&& b.wf()
        &&& b@ == Seq::<u8>::empty()
        &&& b.capacity() == pre.partition_size_spec()
        &&& b.head_room() == room
        &&& b.owner_spec() == pre.label_spec()
        &&& b.part_id() < pre.num_partitions_spec()
        &&& !pre.checked_out(b.part_id() as int)
        &&& post.checked_out(b.part_id() as int)
        &&& forall|j: int| j != b.part_id() ==> post.checked_out(j) == pre.checked_out(j)
        &&& post.free_count() == pre.free_count() - 1
        &&& post.avail_handles() == pre.avail_handles() - 1
        &&& counters_unchanged(pre.counters_spec(), post.counters_spec())
    })
    &&& (r is None ==> {
        &&& post.free_count() == pre.free_count()
        &&& post.avail_handles() == pre.avail_handles()
        &&& (forall|j: int| post.checked_out(j) == pre.checked_out(j))
        &&& only_alloc_fail_bumped(pre.counters_spec(), post.counters_spec())
    })
}

/// Everything `Pool::reclaim` promises: the buffer's partition returns to
/// the free list exactly when the buffer belongs to this pool's arena and
/// its partition is currently checked out; anything else is fatal.
pub open spec fn reclaim_post(pre: Pool, post: Pool, pkt: BoxPkt, r: Result<(), PoolError>) -> bool {
    &&& post.wf()
    &&& config_unchanged(pre, post)
    &&& counters_unchanged(pre.counters_spec(), post.counters_spec())
    &&& (r is Ok <==> pkt.owner_spec() == pre.label_spec()
            && pkt.part_id() < pre.num_partitions_spec()
            && pkt.capacity() == pre.partition_size_spec()
            && pre.checked_out(pkt.part_id() as int))
    &&& (r is Ok ==> {
        &&& !post.checked_out(pkt.part_id() as int)
        &&& forall|j: int| j != pkt.part_id() ==> post.checked_out(j) == pre.checked_out(j)
        &&& post.free_count() == pre.free_count() + 1
        &&& post.avail_handles() == pre.avail_handles() + 1
    })
    &&& (r is Err ==> {
        &&& r == Err::<(), PoolError>(PoolError::InvariantViolation)
        &&& post.free_count() == pre.free_count()
        &&& post.avail_handles() == pre.avail_handles()
        &&& (forall|j: int| post.checked_out(j) == pre.checked_out(j))
    })
}

impl Pool {
    pub closed spec fn label_spec(self) -> Seq<char> {
        self.label@
    }

    pub closed spec fn num_pkts_spec(self) -> usize {
        self.num_pkts
    }

    pub closed spec fn num_partitions_spec(self) -> usize {
        self.num_partitions
    }

    pub closed spec fn partition_size_spec(self) -> usize {
        self.partition_size
    }

    /// How many buffer handles are still free to check out.
    pub closed spec fn avail_handles(self) -> int {
        self.avail as int
    }

    /// How many partitions sit on the free list.
    pub closed spec fn free_count(self) -> int {
        self.free@.len() as int
    }

    /// Whether partition `i` is away from the free list: checked out by
    /// a holder or in flight through the recycle queue.
    pub closed spec fn checked_out(self, i: int) -> bool {
        0 <= i < self.in_use@.len() && self.in_use@[i]
    }

    pub closed spec fn counters_spec(self) -> Counters {
        self.counters
    }

    /// The shared queue this pool drains: spent buffers pushed anywhere
    /// else never come back.
    pub closed spec fn drains_spec(self) -> ArrayQueue<BoxPkt> {
        self.queue.queue_spec()
    }

    /// How many buffers are currently away from the pool.
    pub open spec fn outstanding(self) -> int {
        self.num_pkts_spec() - self.avail_handles()
    }

    pub closed spec fn wf(self) -> bool {
        &&& self.in_use@.len() == self.num_partitions
        &&& self.avail <= self.num_pkts
        &&& self.num_pkts - self.avail == self.num_partitions - self.free@.len()
        &&& (forall|i: int| 0 <= i < self.free@.len() ==> {
            &&& (#[trigger] self.free@[i]).wf()
            &&& self.free@[i].part_id() < self.num_partitions
            &&& self.free@[i].capacity() == self.partition_size
            &&& self.free@[i].head_room() == 0
            &&& self.free@[i].owner_spec() == self.label@
            &&& self.free@[i]@.len() == 0
            &&& !self.in_use@[self.free@[i].part_id() as int]
        })
        &&& (forall|i: int, j: int|
            0 <= i < j < self.free@.len() ==> (#[trigger] self.free@[i]).part_id() != (
            #[trigger] self.free@[j]).part_id())
    }

    /// A pool over a fresh arena of `num_partitions` slots of
    /// `partition_size` bytes, with a checkout budget of `num_pkts`
    /// handles, draining `queue` and reporting through `counters`.
    pub fn new(
        label: &str,
        queue: RecycleQueue,
        counters: Counters,
        num_pkts: usize,
        num_partitions: usize,
        partition_size: usize,
    ) -> (r: Pool)
        ensures
            r.wf(),
            r.label_spec() == label@,
            r.num_pkts_spec() == num_pkts,
            r.num_partitions_spec() == num_partitions,
            r.partition_size_spec() == partition_size,
            r.avail_handles() == num_pkts as int,
            r.free_count() == num_partitions as int,
            forall|j: int| !r.checked_out(j),
            r.counters_spec() == counters,
            r.drains_spec() == queue.queue_spec(),
    {
        let label_owned = String::from_str(label);
        let mut free: Vec<BoxPkt> = Vec::new();
        let mut in_use: Vec<bool> = Vec::new();
        let mut i: usize = 0;
        while i < num_partitions
            invariant
                i <= num_partitions,
                free@.len() == i,
                in_use@.len() == i,
                label_owned@ == label@,
                forall|k: int| 0 <= k < i ==> {
                    &&& (#[trigger] free@[k]).wf()
                    &&& free@[k].part_id() == k
                    &&& free@[k].capacity() == partition_size
                    &&& free@[k].head_room() == 0
                    &&& free@[k].owner_spec() == label@
                    &&& free@[k]@.len() == 0
                },
                forall|k: int| 0 <= k < i ==> !in_use@[k],
            decreases num_partitions - i,
        {
            free.push(BoxPkt::with_partition(label_owned.clone(), i, partition_size, 0));
            in_use.push(false);
            i = i + 1;
        }
        Pool {
            label: label_owned,
            num_pkts,
            num_partitions,
            partition_size,
            avail: num_pkts,
            free,
            in_use,
            queue,
            counters,
        }
    }

    /// A buffer from the free list with `room` bytes of header room
    /// reserved, in constant time; nothing once `num_pkts` buffers are
    /// out, when the arena has no free partition, or when the room asked
    /// for exceeds a partition. Exhaustion is signalled by the empty
    /// return and a counter, never by an error: callers retry after the
    /// next drain.
    pub fn allocate_with_room(&mut self, room: usize) -> (r: Option<BoxPkt>)
        requires
            old(self).wf(),
        ensures
            allocate_post(*old(self), *final(self), room as int, r),
    {
        if self.avail == 0 || self.free.len() == 0 || room > self.partition_size {
            self.counters.bump_alloc_fail();
            return None;
        }
        let mut b = self.free.pop().unwrap();
        b.set_head_room(room);
        let p = b.part();
        self.in_use[p] = true;
        self.avail = self.avail - 1;
        proof {
            assert(b@ =~= Seq::<u8>::empty());
        }
        Some(b)
    }

    /// A buffer with no header room; see `allocate_with_room`.
    pub fn allocate(&mut self) -> (r: Option<BoxPkt>)
        requires
            old(self).wf(),
        ensures
            allocate_post(*old(self), *final(self), 0, r),
    {
        self.allocate_with_room(0)
    }

    /// Return a checked-out buffer's partition to the free list. Fails —
    /// fatally, it indicates a double free or a foreign buffer — when the
    /// buffer does not reference a checked-out partition of this pool's
    /// arena. The handle's content is dropped either way.
    pub fn reclaim(&mut self, pkt: BoxPkt) -> (r: Result<(), PoolError>)
        requires
            old(self).wf(),
        ensures
            reclaim_post(*old(self), *final(self), pkt, r),
    {
        if !(*pkt.owner() == self.label) {
            return Err(PoolError::InvariantViolation);
        }
        let p = pkt.part();
        if p >= self.num_partitions || pkt.cap() != self.partition_size || !self.in_use[p] {
            return Err(PoolError::InvariantViolation);
        }
        proof {
            self.lemma_free_list_misses_one(p as int);
        }
        let mut pkt = pkt;
        pkt.reset();
        self.in_use[p] = false;
        self.free.push(pkt);
        self.avail = self.avail + 1;
        Ok(())
    }

    /// With partition `p` checked out, the free list cannot cover the
    /// whole arena: its parts are distinct, inside the arena, and all
    /// different from `p`.
    proof fn lemma_free_list_misses_one(self, p: int)
        requires
            self.wf(),
            0 <= p < self.num_partitions,
            self.in_use@[p],
        ensures
            self.free@.len() < self.num_partitions,
            self.avail < self.num_pkts,
    {
        broadcast use vstd::set::group_set_axioms;

        let parts = self.free@.map_values(|b: BoxPkt| b.part_id() as int);
        assert(parts.no_duplicates());
        parts.unique_seq_to_set();
        let range = set_int_range(0, self.num_partitions as int);
        lemma_int_range(0, self.num_partitions as int);
        let allowed = range.remove(p);
        assert forall|x: int| parts.to_set().contains(x) implies allowed.contains(x) by {
            let i = choose|i: int| 0 <= i < parts.len() && parts[i] == x;
            assert(self.free@[i].part_id() != p);
        }
        lemma_len_subset(parts.to_set(), allowed);
        assert(allowed.len() == range.len() - 1);
    }

    /// Pop every handle currently parked in the recycle queue and reclaim
    /// each; the count reclaimed is returned. A handle that fails the
    /// reclaim check aborts the drain with the fatal error.
    pub fn drain_recycle_queue(&mut self) -> (r: Result<usize, PoolError>)
        requires
            old(self).wf(),
        ensures
            final(self).wf(),
            config_unchanged(*old(self), *final(self)),
            counters_unchanged(old(self).counters_spec(), final(self).counters_spec()),
            r matches Ok(n) ==> {
                &&& final(self).free_count() == old(self).free_count() + n
                &&& final(self).avail_handles() == old(self).avail_handles() + n
            },
            r is Err ==> r == Err::<usize, PoolError>(PoolError::InvariantViolation),
    {
        let mut n: usize = 0;
        loop
            invariant
                self.wf(),
                config_unchanged(*old(self), *self),
                counters_unchanged(old(self).counters_spec(), self.counters_spec()),
                self.free_count() == old(self).free_count() + n,
                self.avail_handles() == old(self).avail_handles() + n,
                n <= self.num_partitions_spec(),
            decreases self.num_partitions_spec() - self.free_count(),
        {
            match self.queue.pop() {
                None => {
                    return Ok(n);
                },
                Some(pkt) => {
                    match self.reclaim(pkt) {
                        Ok(_) => {
                            n = n + 1;
                        },
                        Err(e) => {
                            return Err(e);
                        },
                    }
                },
            }
        }
    }

    /// How many buffer handles are still free to check out.
    pub fn avail_now(&self) -> (r: usize)
        ensures
            r as int == self.avail_handles(),
    {
        self.avail
    }

    /// How many partitions sit on the free list.
    pub fn free_now(&self) -> (r: usize)
        ensures
            r as int == self.free_count(),
    {
        self.free.len()
    }

    /// The pool's counter set, read-only.
    pub fn counters(&self) -> (r: &Counters)
        ensures
            *r == self.counters_spec(),
    {
        &self.counters
    }

    /// The number of bytes each partition holds.
    pub fn partition_size(&self) -> (r: usize)
        ensures
            r == self.partition_size_spec(),
    {
        self.partition_size
    }
}

/// Law: no two concurrently checked-out buffers reference the same
/// partition. A buffer handed out by `allocate` takes a partition that
/// was not checked out before the call, so it aliases no buffer that is
/// still out; `reclaim` is the only step that clears a partition's mark,
/// and only for the handle given back to it.
pub proof fn lemma_no_aliasing(pre: Pool, post: Pool, live: BoxPkt, fresh: BoxPkt, room: int)
    requires
        pre.checked_out(live.part_id() as int),
        allocate_post(pre, post, room, Some(fresh)),
    ensures
        fresh.part_id() != live.part_id(),
        post.checked_out(live.part_id() as int),
        post.checked_out(fresh.part_id() as int),
{
}

/// Law: a partition is reclaimed at most once per checkout. Directly
/// after a successful reclaim, handing back another handle for the same
/// partition is refused as a double free, however that handle was made.
pub proof fn lemma_reclaim_at_most_once(
    p0: Pool,
    p1: Pool,
    p2: Pool,
    pkt1: BoxPkt,
    pkt2: BoxPkt,
    r1: Result<(), PoolError>,
    r2: Result<(), PoolError>,
)
    requires
        reclaim_post(p0, p1, pkt1, r1),
        r1 is Ok,
        reclaim_post(p1, p2, pkt2, r2),
        pkt2.part_id() == pkt1.part_id(),
    ensures
        r2 is Err,
{
}

/// Law: once `num_pkts` distinct buffers are checked out and none has
/// been reclaimed, `allocate` returns nothing; directly after one
/// successful reclaim, the next allocation succeeds.
pub proof fn lemma_exhaustion_and_recovery(
    p0: Pool,
    p1: Pool,
    p2: Pool,
    p3: Pool,
    pkt: BoxPkt,
    r1: Option<BoxPkt>,
    room1: int,
    r2: Result<(), PoolError>,
    room3: int,
    r3: Option<BoxPkt>,
)
    requires
        p0.outstanding() == p0.num_pkts_spec(),
        allocate_post(p0, p1, room1, r1),
        reclaim_post(p1, p2, pkt, r2),
        r2 is Ok,
        allocate_post(p2, p3, room3, r3),
        0 <= room3 <= p2.partition_size_spec(),
    ensures
        r1 is None,
        r3 is Some,
{
}

} // verus!
