//! The lock-free bounded queues that cross thread boundaries: the recycle
//! queue through which buffer ownership returns to its pool, and the
//! frame rings a polling port drives as its device queue. Both are
//! `crossbeam_queue::ArrayQueue`, taken on trust against its source; what
//! such a queue holds depends on every thread that shares it, so the
//! contracts state only what holds of every outcome.

use vstd::prelude::*;
use crossbeam_queue::ArrayQueue;
use std::sync::Arc;
use crate::buffer::BoxPkt;

verus! {

#[verifier::external_type_specification]
#[verifier::external_body]
#[verifier::reject_recursive_types(T)]
pub struct ExArrayQueue<T>(ArrayQueue<T>);

/// The bound a queue of packet handles was created with: how many
/// elements it can park at once.
pub uninterp spec fn pkt_queue_bound(q: ArrayQueue<BoxPkt>) -> usize;

/// The bound a queue of frames was created with: how many frames it can
/// hold in flight at once.
pub uninterp spec fn frame_queue_bound(q: ArrayQueue<Vec<u8>>) -> usize;

/// Relies on crossbeam_queue::ArrayQueue::new: a queue bounded at
/// exactly `cap` elements. It panics when `cap` is zero and when a lap
/// of slot stamps cannot be addressed, which any capacity at or below
/// half the address space avoids.
#[verifier::external_body]
fn new_pkt_queue(cap: usize) -> (q: ArrayQueue<BoxPkt>)
    requires
        1 <= cap <= usize::MAX / 2,
    ensures
        pkt_queue_bound(q) == cap,
{
    ArrayQueue::new(cap)
}

/// Relies on crossbeam_queue::ArrayQueue::new: a queue bounded at
/// exactly `cap` elements. It panics when `cap` is zero and when a lap
/// of slot stamps cannot be addressed, which any capacity at or below
/// half the address space avoids.
#[verifier::external_body]
fn new_frame_queue(cap: usize) -> (q: ArrayQueue<Vec<u8>>)
    requires
        1 <= cap <= usize::MAX / 2,
    ensures
        frame_queue_bound(q) == cap,
{
    ArrayQueue::new(cap)
}

/// Relies on crossbeam_queue::ArrayQueue::push: on a full queue the value
/// comes back to the caller unchanged; otherwise it enters the queue.
pub assume_specification<T>[ ArrayQueue::<T>::push ](q: &ArrayQueue<T>, value: T) -> (r: Result<
    (),
    T,
>)
    ensures
        r matches Err(v) ==> v == value,
;

/// Relies on crossbeam_queue::ArrayQueue::pop: either one element that a
/// thread pushed and that no pop has returned before, or nothing when the
/// queue is observed empty. Which element comes back depends on the other
/// threads, so nothing more is stated of it.
pub assume_specification<T>[ ArrayQueue::<T>::pop ](q: &ArrayQueue<T>) -> (r: Option<T>)
;

/// Relies on Arc::clone: a second handle to the same shared value.
#[verifier::external_body]
fn clone_shared<T>(v: &Arc<T>) -> (r: Arc<T>)
    ensures
        r == *v,
{
    Arc::clone(v)
}

/// The recycle queue: the only cross-thread path by which a finished
/// buffer returns to the pool that owns its partition. Any thread done
/// with a buffer pushes it; the pool's owning thread alone drains it.
pub struct RecycleQueue {
    q: Arc<ArrayQueue<BoxPkt>>,
}

impl RecycleQueue {
    /// The shared queue this handle leads to. Two handles with the same
    /// value reach the same queue.
    pub closed spec fn queue_spec(self) -> ArrayQueue<BoxPkt> {
        *self.q
    }

    /// How many handles the queue can park at once.
    pub open spec fn bound_spec(self) -> usize {
        pkt_queue_bound(self.queue_spec())
    }

    /// A queue parking at most `cap` handles at a time.
    pub fn with_capacity(cap: usize) -> (r: RecycleQueue)
        requires
            1 <= cap <= usize::MAX / 2,
        ensures
            r.bound_spec() == cap,
    {
        RecycleQueue { q: Arc::new(new_pkt_queue(cap)) }
    }

    /// A second handle to the same queue, for a producer thread.
    pub fn share(&self) -> (r: RecycleQueue)
        ensures
            r.queue_spec() == self.queue_spec(),
    {
        RecycleQueue { q: clone_shared(&self.q) }
    }

    /// Park a finished buffer for the owning pool to reclaim. On a full
    /// queue the push fails and the buffer is dropped: the caller must
    /// size the capacity to the worst-case number of outstanding buffers.
    pub fn push(&self, pkt: BoxPkt) -> (accepted: bool)
    {
        match self.q.push(pkt) {
            Ok(_) => true,
            Err(_leaked) => false,
        }
    }

    /// One parked handle, or nothing when the queue is observed empty.
    pub(crate) fn pop(&self) -> (r: Option<BoxPkt>)
    {
        self.q.pop()
    }
}

/// One direction of a polling port's device queue: whole frames, in
/// flight between the two ends of a link.
pub struct FrameRing {
    q: Arc<ArrayQueue<Vec<u8>>>,
}

impl FrameRing {
    /// The shared ring this handle leads to. Two handles with the same
    /// value reach the same ring.
    pub closed spec fn queue_spec(self) -> ArrayQueue<Vec<u8>> {
        *self.q
    }

    /// How many frames the ring can hold in flight at once.
    pub open spec fn bound_spec(self) -> usize {
        frame_queue_bound(self.queue_spec())
    }

    /// A ring holding at most `cap` frames in flight.
    pub fn with_capacity(cap: usize) -> (r: FrameRing)
        requires
            1 <= cap <= usize::MAX / 2,
        ensures
            r.bound_spec() == cap,
    {
        FrameRing { q: Arc::new(new_frame_queue(cap)) }
    }

    /// A second handle to the same ring, for the peer end of the link.
    pub fn share(&self) -> (r: FrameRing)
        ensures
            r.queue_spec() == self.queue_spec(),
    {
        FrameRing { q: clone_shared(&self.q) }
    }

    /// Hand a frame to the wire; false when the ring is full and the
    /// frame was not accepted.
    pub(crate) fn push(&self, frame: Vec<u8>) -> (accepted: bool)
    {
        match self.q.push(frame) {
            Ok(_) => true,
            Err(_dropped) => false,
        }
    }

    /// One frame off the wire, or nothing when the ring is observed
    /// empty.
    pub(crate) fn pop(&self) -> (r: Option<Vec<u8>>)
    {
        self.q.pop()
    }
}

} // verus!
