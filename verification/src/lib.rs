//! A zero-copy packet I/O layer: a partitioned buffer pool with a
//! cross-thread recycle queue, and port send/receive endpoints bound to
//! one network interface each.

pub mod buffer;
pub mod counters;
pub mod pool;
pub mod port;
pub mod registry;
pub mod shared_queue;
