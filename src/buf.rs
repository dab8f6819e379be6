//! A block buffer: an in-memory copy of one disk block.
use vstd::prelude::*;
use crate::param::BSIZE;
use crate::sleeplock::SleepLock;

verus! {

/// One cached disk block.
pub struct Buf {
    /// Whether the data has been read from disk.
    pub valid: bool,
    /// Whether the disk owns the buffer.
    pub disk: bool,
    pub dev: u32,
    pub blockno: u32,
    /// Held while a process uses the buffer.
    pub lock: SleepLock,
    pub refcnt: u32,
    /// Neighbours in the cache's most-recently-used list, by slot.
    pub prev: Option<usize>,
    pub next: Option<usize>,
    /// Next buffer in the disk queue, by slot.
    pub qnext: Option<usize>,
    /// The block's bytes.
    pub data: Vec<u8>,
}

impl Buf {
    /// An empty buffer of `BSIZE` zero bytes, not linked to any other, whose
    /// lock has identity `lock_id`.
    pub fn new(lock_id: u64) -> (r: Buf)
        ensures
            r.lock.wf(),
            !r.lock.locked,
            !r.lock.lk.locked,
            r.lock.chan() == lock_id,
            !r.valid,
            !r.disk,
            r.refcnt == 0,
            r.prev.is_none() && r.next.is_none() && r.qnext.is_none(),
            r.data@ == Seq::new(BSIZE as nat, |i: int| 0u8),
    {
        let mut data: Vec<u8> = Vec::new();
        let mut i: usize = 0;
        while i < BSIZE
            invariant
                i <= BSIZE,
                data@ == Seq::new(i as nat, |j: int| 0u8),
            decreases BSIZE - i,
        {
            data.push(0);
            i = i + 1;
            assert(data@ =~= Seq::new(i as nat, |j: int| 0u8));
        }
        Buf {
            valid: false,
            disk: false,
            dev: 0,
            blockno: 0,
            lock: SleepLock::new("buffer", lock_id),
            refcnt: 0,
            prev: None,
            next: None,
            qnext: None,
            data,
        }
    }
}

} // verus!
