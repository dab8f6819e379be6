//! The buffer cache: a fixed set of block buffers under one spin lock.
use vstd::prelude::*;
use crate::buf::Buf;
use crate::param::NBUF;
use crate::spinlock::SpinLock;

verus! {

/// The block buffer cache.
pub struct Bcache {
    /// Guards the buffers' identities and the recently-used list.
    pub lock: SpinLock,
    pub buf: Vec<Buf>,
    /// Slot of the most recently used buffer.
    pub head: Option<usize>,
}

impl Bcache {
    /// `NBUF` empty buffers. The cache lock gets identity `first_id` and
    /// buffer `i`'s sleep lock `first_id + 1 + i`.
    pub fn new(first_id: u64) -> (r: Bcache)
        requires
            first_id + NBUF < u64::MAX,
        ensures
            r.lock.wf(),
            !r.lock.locked,
            r.lock.id == first_id,
            r.head.is_none(),
            r.buf@.len() == NBUF,
            forall|i: int|
                0 <= i < NBUF ==> (#[trigger] r.buf@[i]).lock.chan() == first_id + 1 + i
                    && !r.buf@[i].lock.locked && r.buf@[i].refcnt == 0,
    {
        let mut buf: Vec<Buf> = Vec::new();
        let mut i: usize = 0;
        while i < NBUF
            invariant
                i <= NBUF,
                first_id + NBUF < u64::MAX,
                buf@.len() == i,
                forall|j: int|
                    0 <= j < i ==> (#[trigger] buf@[j]).lock.chan() == first_id + 1 + j
                        && !buf@[j].lock.locked && buf@[j].refcnt == 0,
            decreases NBUF - i,
        {
            buf.push(Buf::new(first_id + 1 + i as u64));
            i = i + 1;
        }
        Bcache { lock: SpinLock::new("bcache", first_id), buf, head: None }
    }
}

} // verus!
