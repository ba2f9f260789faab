//! Packet buffers: move-only handles over one arena partition each, with
//! an append/read contract that never copies the payload on hand-over.

use vstd::prelude::*;
use vstd::slice::slice_subrange;

verus! {

/// A packet buffer: a handle over exactly one partition of its pool's
/// arena, together with a write cursor. The handle is move-only; once it
/// is handed to a port or a recycle queue the previous holder cannot use
/// it again.
pub struct BoxPkt {
    /// The label of the pool whose arena backs this buffer: handed back
    /// to any other pool, the handle is refused as foreign.
    owner: String,
    /// Partition index inside the owning pool's arena.
    part: usize,
    /// Partition size in bytes.
    cap: usize,
    /// Header room reserved at the front of the partition.
    head: usize,
    /// The partition's written payload.
    bytes: Vec<u8>,
}

impl View for BoxPkt {
    type V = Seq<u8>;

    closed spec fn view(&self) -> Seq<u8> {
        self.bytes@
    }
}

/// A payload may be appended when it fits into the partition beside what
/// is already written and the reserved header room.
pub open spec fn append_allowed(b: BoxPkt, data: Seq<u8>) -> bool {
    b@.len() + data.len() + b.head_room() <= b.capacity()
}

/// The payload of a buffer after a successful append.
pub open spec fn view_after_append(b: BoxPkt, data: Seq<u8>) -> Seq<u8> {
    b@ + data
}

/// What a read at `offset` yields from a payload: the suffix starting
/// there, or nothing when the offset lies beyond the written length.
pub open spec fn read_view(payload: Seq<u8>, offset: int) -> Option<Seq<u8>> {
    if 0 <= offset <= payload.len() {
        Some(payload.subrange(offset, payload.len() as int))
    } else {
        None
    }
}

impl BoxPkt {
    /// The label of the pool whose arena backs this buffer.
    pub closed spec fn owner_spec(self) -> Seq<char> {
        self.owner@
    }

    /// Partition index this buffer is backed by.
    pub closed spec fn part_id(self) -> usize {
        self.part
    }

    /// Partition size in bytes.
    pub closed spec fn capacity(self) -> usize {
        self.cap
    }

    /// Header room reserved at the front of the partition.
    pub closed spec fn head_room(self) -> usize {
        self.head
    }

    /// Bytes left for payload once the header room is reserved.
    pub open spec fn payload_capacity(self) -> int {
        self.capacity() - self.head_room()
    }

    pub open spec fn wf(self) -> bool {
        self.head_room() <= self.capacity()
        && self@.len() + self.head_room() <= self.capacity()
    }

    /// A fresh handle over partition `part`, used by the pool when the
    /// arena is laid out.
    pub(crate) fn with_partition(owner: String, part: usize, cap: usize, head: usize) -> (r:
        BoxPkt)
        requires
            head <= cap,
        ensures
            r.wf(),
            r.owner_spec() == owner@,
            r.part_id() == part,
            r.capacity() == cap,
            r.head_room() == head,
            r@ == Seq::<u8>::empty(),
    {
        BoxPkt { owner, part, cap, head, bytes: Vec::with_capacity(cap) }
    }

    /// Reserve `room` bytes of header room in an empty buffer.
    pub(crate) fn set_head_room(&mut self, room: usize)
        requires
            old(self)@.len() == 0,
            room <= old(self).capacity(),
        ensures
            final(self).wf(),
            final(self).owner_spec() == old(self).owner_spec(),
            final(self).part_id() == old(self).part_id(),
            final(self).capacity() == old(self).capacity(),
            final(self).head_room() == room,
            final(self)@ == old(self)@,
    {
        self.head = room;
    }

    /// Drop the written payload and the header room, readying the handle
    /// for the pool's free list.
    pub(crate) fn reset(&mut self)
        ensures
            final(self).wf(),
            final(self).owner_spec() == old(self).owner_spec(),
            final(self).part_id() == old(self).part_id(),
            final(self).capacity() == old(self).capacity(),
            final(self).head_room() == 0,
            final(self)@ == Seq::<u8>::empty(),
    {
        self.head = 0;
        self.bytes.clear();
    }

    /// The label of the pool whose arena backs this buffer.
    pub fn owner(&self) -> (r: &String)
        ensures
            r@ == self.owner_spec(),
    {
        &self.owner
    }

    /// Partition index this buffer is backed by.
    pub fn part(&self) -> (r: usize)
        ensures
            r == self.part_id(),
    {
        self.part
    }

    /// Partition size in bytes.
    pub fn cap(&self) -> (r: usize)
        ensures
            r == self.capacity(),
    {
        self.cap
    }

    /// Total written payload length.
    pub fn len(&self) -> (n: usize)
        ensures
            n == self@.len(),
    {
        self.bytes.len()
    }

    /// Copy `data` into the buffer at the current write cursor. Returns
    /// false, leaving the buffer unmodified, when the write would exceed
    /// the partition capacity less the header room.
    pub fn append(&mut self, data: &[u8]) -> (ok: bool)
        requires
            old(self).wf(),
        ensures
            final(self).wf(),
            final(self).owner_spec() == old(self).owner_spec(),
            final(self).part_id() == old(self).part_id(),
            final(self).capacity() == old(self).capacity(),
            final(self).head_room() == old(self).head_room(),
            ok == append_allowed(*old(self), data@),
            ok ==> final(self)@ == view_after_append(*old(self), data@),
            !ok ==> final(self)@ == old(self)@,
    {
        if data.len() <= self.cap - self.head - self.bytes.len() {
            self.bytes.extend_from_slice(data);
            true
        } else {
            false
        }
    }

    /// A zero-copy view of the payload from `offset` on, with its length;
    /// nothing when the offset lies beyond the written length.
    pub fn data<'a>(&'a self, offset: usize) -> (r: Option<(&'a [u8], usize)>)
        ensures
            r is Some <==> offset <= self@.len(),
            r matches Some(p) ==> {
                &&& read_view(self@, offset as int) == Some(p.0@)
                &&& p.0@ == self@.subrange(offset as int, self@.len() as int)
                &&& p.1 == self@.len() - offset
            },
    {
        let n = self.bytes.len();
        if offset <= n {
            let sl = slice_subrange(self.bytes.as_slice(), offset, n);
            Some((sl, n - offset))
        } else {
            None
        }
    }
}

/// Law: a payload no longer than the partition size less the header room,
/// appended to a fresh buffer, is accepted, and a read from offset zero
/// then yields exactly the appended bytes in order.
pub proof fn lemma_append_then_read(b: BoxPkt, data: Seq<u8>)
    requires
        b.wf(),
        b@.len() == 0,
        data.len() <= b.payload_capacity(),
    ensures
        append_allowed(b, data),
        view_after_append(b, data) == data,
        read_view(view_after_append(b, data), 0) == Some(data),
{
    assert(view_after_append(b, data) =~= data);
    assert(data.subrange(0, data.len() as int) =~= data);
}

} // verus!
