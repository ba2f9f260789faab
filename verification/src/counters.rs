//! Named event counters. Each pool and each port owns one set, keyed by a
//! diagnostic label; the core only ever increments them, and observers
//! only ever read them.

use vstd::prelude::*;
use vstd::string::StringExecFns;

verus! {

/// A counter increments monotonically and pins at the top of its range
/// rather than wrapping.
pub open spec fn bumped(c: u64) -> u64 {
    if c == u64::MAX {
        c
    } else {
        (c + 1) as u64
    }
}

/// The counter set of one subsystem (a pool or a port).
pub struct Counters {
    label: String,
    alloc_fail: u64,
    tx_pkts: u64,
    rx_pkts: u64,
    rx_drop: u64,
}

/// `b` is `a` with the exhausted-allocation counter bumped once and
/// nothing else touched.
pub open spec fn only_alloc_fail_bumped(a: Counters, b: Counters) -> bool {
    &&& b.alloc_fail_spec() == bumped(a.alloc_fail_spec())
    &&& b.tx_pkts_spec() == a.tx_pkts_spec()
    &&& b.rx_pkts_spec() == a.rx_pkts_spec()
    &&& b.rx_drop_spec() == a.rx_drop_spec()
    &&& b.label_spec() == a.label_spec()
}

/// `b` is `a` with the transmit counter bumped once and nothing else
/// touched.
pub open spec fn only_tx_pkts_bumped(a: Counters, b: Counters) -> bool {
    &&& b.tx_pkts_spec() == bumped(a.tx_pkts_spec())
    &&& b.alloc_fail_spec() == a.alloc_fail_spec()
    &&& b.rx_pkts_spec() == a.rx_pkts_spec()
    &&& b.rx_drop_spec() == a.rx_drop_spec()
    &&& b.label_spec() == a.label_spec()
}

/// `b` is `a` with the receive counter bumped once and nothing else
/// touched.
pub open spec fn only_rx_pkts_bumped(a: Counters, b: Counters) -> bool {
    &&& b.rx_pkts_spec() == bumped(a.rx_pkts_spec())
    &&& b.alloc_fail_spec() == a.alloc_fail_spec()
    &&& b.tx_pkts_spec() == a.tx_pkts_spec()
    &&& b.rx_drop_spec() == a.rx_drop_spec()
    &&& b.label_spec() == a.label_spec()
}

/// `b` is `a` with the receive-drop counter bumped once and nothing else
/// touched.
pub open spec fn only_rx_drop_bumped(a: Counters, b: Counters) -> bool {
    &&& b.rx_drop_spec() == bumped(a.rx_drop_spec())
    &&& b.alloc_fail_spec() == a.alloc_fail_spec()
    &&& b.tx_pkts_spec() == a.tx_pkts_spec()
    &&& b.rx_pkts_spec() == a.rx_pkts_spec()
    &&& b.label_spec() == a.label_spec()
}

/// The counter views of `a` and `b` agree.
pub open spec fn counters_unchanged(a: Counters, b: Counters) -> bool {
    &&& b.alloc_fail_spec() == a.alloc_fail_spec()
    &&& b.tx_pkts_spec() == a.tx_pkts_spec()
    &&& b.rx_pkts_spec() == a.rx_pkts_spec()
    &&& b.rx_drop_spec() == a.rx_drop_spec()
    &&& b.label_spec() == a.label_spec()
}


impl Counters {
    pub closed spec fn label_spec(self) -> Seq<char> {
        self.label@
    }

    /// Allocation attempts that found the pool exhausted.
    pub closed spec fn alloc_fail_spec(self) -> u64 {
        self.alloc_fail
    }

    /// Packets handed to the wire.
    pub closed spec fn tx_pkts_spec(self) -> u64 {
        self.tx_pkts
    }

    /// Packets delivered to a caller.
    pub closed spec fn rx_pkts_spec(self) -> u64 {
        self.rx_pkts
    }

    /// Frames dropped on receive for want of a buffer or of room.
    pub closed spec fn rx_drop_spec(self) -> u64 {
        self.rx_drop
    }

    pub fn new(label: &str) -> (r: Counters)
        ensures
            r.label_spec() == label@,
            r.alloc_fail_spec() == 0,
            r.tx_pkts_spec() == 0,
            r.rx_pkts_spec() == 0,
            r.rx_drop_spec() == 0,
    {
        Counters {
            label: String::from_str(label),
            alloc_fail: 0,
            tx_pkts: 0,
            rx_pkts: 0,
            rx_drop: 0,
        }
    }

    pub(crate) fn bump_alloc_fail(&mut self)
        ensures
            final(self).alloc_fail_spec() == bumped(old(self).alloc_fail_spec()),
            final(self).tx_pkts_spec() == old(self).tx_pkts_spec(),
            final(self).rx_pkts_spec() == old(self).rx_pkts_spec(),
            final(self).rx_drop_spec() == old(self).rx_drop_spec(),
            final(self).label_spec() == old(self).label_spec(),
    {
        if self.alloc_fail < u64::MAX {
            self.alloc_fail = self.alloc_fail + 1;
        }
    }

    pub(crate) fn bump_tx_pkts(&mut self)
        ensures
            final(self).tx_pkts_spec() == bumped(old(self).tx_pkts_spec()),
            final(self).alloc_fail_spec() == old(self).alloc_fail_spec(),
            final(self).rx_pkts_spec() == old(self).rx_pkts_spec(),
            final(self).rx_drop_spec() == old(self).rx_drop_spec(),
            final(self).label_spec() == old(self).label_spec(),
    {
        if self.tx_pkts < u64::MAX {
            self.tx_pkts = self.tx_pkts + 1;
        }
    }

    pub(crate) fn bump_rx_pkts(&mut self)
        ensures
            final(self).rx_pkts_spec() == bumped(old(self).rx_pkts_spec()),
            final(self).alloc_fail_spec() == old(self).alloc_fail_spec(),
            final(self).tx_pkts_spec() == old(self).tx_pkts_spec(),
            final(self).rx_drop_spec() == old(self).rx_drop_spec(),
            final(self).label_spec() == old(self).label_spec(),
    {
        if self.rx_pkts < u64::MAX {
            self.rx_pkts = self.rx_pkts + 1;
        }
    }

    pub(crate) fn bump_rx_drop(&mut self)
        ensures
            final(self).rx_drop_spec() == bumped(old(self).rx_drop_spec()),
            final(self).alloc_fail_spec() == old(self).alloc_fail_spec(),
            final(self).tx_pkts_spec() == old(self).tx_pkts_spec(),
            final(self).rx_pkts_spec() == old(self).rx_pkts_spec(),
            final(self).label_spec() == old(self).label_spec(),
    {
        if self.rx_drop < u64::MAX {
            self.rx_drop = self.rx_drop + 1;
        }
    }

    pub fn alloc_fail(&self) -> (r: u64)
        ensures
            r == self.alloc_fail_spec(),
    {
        self.alloc_fail
    }

    pub fn tx_pkts(&self) -> (r: u64)
        ensures
            r == self.tx_pkts_spec(),
    {
        self.tx_pkts
    }

    pub fn rx_pkts(&self) -> (r: u64)
        ensures
            r == self.rx_pkts_spec(),
    {
        self.rx_pkts
    }

    pub fn rx_drop(&self) -> (r: u64)
        ensures
            r == self.rx_drop_spec(),
    {
        self.rx_drop
    }
}

} // verus!
