//! Long-held mutual exclusion whose holder may block.
//!
//! A sleep lock keeps a `locked` flag and its holder's pid under an internal
//! spin lock, its guard. A process that finds it held sleeps on the lock's
//! channel, the guard's id, instead of spinning, and the holder's `release`
//! wakes every such sleeper.
use vstd::prelude::*;
use crate::cpu::{lemma_push_pop, popped, same_nesting, Cpu};
use crate::param::{NCPU, NPROC};
use crate::proc::{after_sleep, after_wakeup, lemma_harts_in_table, Proc, ProcState, State};
use crate::spinlock::SpinLock;

verus! {

/// A lock for long critical sections.
#[derive(Clone, Copy, Debug)]
pub struct SleepLock {
    /// Whether the lock is held.
    pub locked: bool,
    /// Guards `locked` and `pid`.
    pub lk: SpinLock,
    /// Diagnostic label.
    pub name: &'static str,
    /// Pid of the holder; 0 while the lock is free.
    pub pid: i32,
}

impl SleepLock {
    /// The guard keeps its invariant and a free lock records no holder.
    pub open spec fn wf(self) -> bool {
        &&& self.lk.wf()
        &&& !self.locked ==> self.pid == 0
    }

    /// The channel that waiters sleep on: the lock's own identity.
    pub open spec fn chan(self) -> u64 {
        self.lk.id
    }

    /// The lock once the process with pid `pid` has taken it.
    pub open spec fn acquired(self, pid: i32) -> SleepLock {
        SleepLock { locked: true, pid, ..self }
    }

    /// The lock once its holder has let it go.
    pub open spec fn released(self) -> SleepLock {
        SleepLock { locked: false, pid: 0, ..self }
    }

    /// A free sleep lock whose guard has identity `id`.
    pub fn new(name: &'static str, id: u64) -> (r: SleepLock)
        ensures
            r.wf(),
            !r.locked,
            !r.lk.locked,
            r.pid == 0,
            r.chan() == id,
            r.lk.cpu.is_none(),
            r.lk.name == "sleep lock",
            r.lk.id == id,
            r.name == name,
    {
        SleepLock { locked: false, lk: SpinLock::new("sleep lock", id), name, pid: 0 }
    }

    /// Takes the guard and looks at the lock: a free lock is taken for the
    /// executing process, and `true` returned; a held one makes the process
    /// sleep on the lock's channel, letting the guard go, and `false` is
    /// returned. A process put to sleep goes on with `resume_acquire` once the
    /// scheduler switches to it again. The caller is the running process.
    /// Each step runs whole on one hart, so the guard and the caller's own
    /// lock are free on every hart when it starts.
    pub fn acquire(&mut self, os: &mut State) -> (acquired: bool)
        requires
            old(os).wf(),
            old(os).cpus.valid(),
            old(os).cpus.cur().proc.is_some(),
            old(os).cpus.cur().noff == 0,
            !old(os).procs.0@[old(os).cpus.cur().proc.unwrap() as int].lock.locked,
            old(os).procs.0@[old(os).cpus.cur().proc.unwrap() as int].state == ProcState::Running,
            old(self).wf(),
            !old(self).lk.locked,
        ensures
            final(self).wf(),
            final(os).wf(),
            old(os).same_globals(*final(os)),
            acquired == !old(self).locked,
            ({
                let p = old(os).cpus.cur().proc.unwrap() as int;
                acquired ==> {
                    &&& *final(self) == old(self).acquired(old(os).procs.0@[p].pid)
                    &&& final(os).procs.0@ == old(os).procs.0@
                    &&& final(os).procs.0@[p].chan.is_none()
                    &&& old(os).cpus.restored(final(os).cpus)
                }
            }),
            ({
                let p = old(os).cpus.cur().proc.unwrap() as int;
                !acquired ==> {
                    &&& *final(self) == *old(self)
                    &&& final(os).procs.0@ == old(os).procs.0@.update(
                        p,
                        after_sleep(old(os).procs.0@[p], old(self).chan()),
                    )
                    &&& final(os).cpus.tp == old(os).cpus.tp
                    &&& forall|h: int|
                        0 <= h < NCPU && h != old(os).cpus.tp ==> #[trigger] final(os).cpus.harts@[h]
                            == old(os).cpus.harts@[h]
                    &&& same_nesting(Cpu { proc: None, ..old(os).cpus.cur() }, final(os).cpus.cur())
                }
            }),
    {
        let p = match os.myproc() {
            Ok(p) => p,
            Err(_) => {
                return false;
            },
        };
        let ghost c0 = os.cpus.cur();
        self.lk.acquire(&mut os.cpus);
        proof {
            lemma_push_pop(c0);
            lemma_push_pop(Cpu { proc: None, ..c0 });
            lemma_harts_in_table(old(os).cpus, os.cpus);
        }
        if self.locked {
            let chan = self.lk.id;
            os.sleep(chan, &mut self.lk);
            false
        } else {
            self.locked = true;
            self.pid = os.procs.0[p].pid;
            self.lk.release(&mut os.cpus);
            proof {
                lemma_harts_in_table(old(os).cpus, os.cpus);
            }
            true
        }
    }

    /// Goes on with `acquire` for a process that slept on the lock and that
    /// the scheduler has switched to again: the process finishes its sleep
    /// with `resume`, then takes the guard and looks at the lock anew, with
    /// the outcomes of `acquire`. The guard is free on every hart when this
    /// step starts.
    pub fn resume_acquire(&mut self, os: &mut State) -> (acquired: bool)
        requires
            old(os).wf(),
            old(os).cpus.valid(),
            old(os).cpus.cur().proc.is_some(),
            old(os).procs.0@[old(os).cpus.cur().proc.unwrap() as int].lock.held_by(old(os).cpus.tp),
            old(os).procs.0@[old(os).cpus.cur().proc.unwrap() as int].state == ProcState::Running,
            old(os).cpus.cur().noff == 1,
            old(self).wf(),
            !old(self).lk.locked,
        ensures
            final(self).wf(),
            final(os).wf(),
            old(os).same_globals(*final(os)),
            acquired == !old(self).locked,
            ({
                let p = old(os).cpus.cur().proc.unwrap() as int;
                let q = Proc { chan: None, lock: old(os).procs.0@[p].lock.released(), ..old(os).procs.0@[p] };
                &&& acquired ==> *final(self) == old(self).acquired(q.pid)
                &&& acquired ==> final(os).procs.0@ == old(os).procs.0@.update(p, q)
                &&& acquired ==> final(os).procs.0@[p].chan.is_none()
                &&& acquired ==> final(os).cpus.cur().proc == Some(p as usize)
                &&& acquired ==> final(os).cpus.cur().noff == 0
                &&& !acquired ==> *final(self) == *old(self)
                &&& !acquired ==> final(os).procs.0@ == old(os).procs.0@.update(p, after_sleep(q, old(self).chan()))
                &&& !acquired ==> final(os).cpus.cur().proc.is_none()
                &&& !acquired ==> final(os).cpus.cur().noff == 0
            }),
            final(os).cpus.tp == old(os).cpus.tp,
            forall|h: int|
                0 <= h < NCPU && h != old(os).cpus.tp ==> #[trigger] final(os).cpus.harts@[h]
                    == old(os).cpus.harts@[h],
    {
        os.resume();
        proof {
            assert(os.cpus.cur() == popped(old(os).cpus.cur()));
        }
        self.acquire(os)
    }

    /// Lets the lock go and wakes every process sleeping on its channel, all
    /// under the guard. The executing process must be the holder. Each step
    /// runs whole on one hart, so the guard and every process lock are free
    /// on every hart when it starts.
    pub fn release(&mut self, os: &mut State)
        requires
            old(os).wf(),
            old(os).cpus.valid(),
            old(os).cpus.cur().proc.is_some(),
            old(os).cpus.cur().noff < i32::MAX - 1,
            old(os).proc_locks_free(),
            old(self).wf(),
            !old(self).lk.locked,
            old(self).locked,
            old(self).pid == old(os).procs.0@[old(os).cpus.cur().proc.unwrap() as int].pid,
        ensures
            final(self).wf(),
            final(os).wf(),
            final(os).proc_locks_free(),
            *final(self) == old(self).released(),
            forall|i: int|
                0 <= i < NPROC ==> #[trigger] final(os).procs.0@[i] == after_wakeup(
                    old(os).procs.0@[i],
                    old(self).chan(),
                ),
            old(os).cpus.restored(final(os).cpus),
            old(os).same_globals(*final(os)),
    {
        let ghost c0 = os.cpus.cur();
        self.lk.acquire(&mut os.cpus);
        proof {
            lemma_harts_in_table(old(os).cpus, os.cpus);
        }
        self.locked = false;
        self.pid = 0;
        let chan = self.lk.id;
        os.wakeup(chan);
        self.lk.release(&mut os.cpus);
        proof {
            lemma_push_pop(c0);
            lemma_harts_in_table(old(os).cpus, os.cpus);
        }
    }

    /// Whether the executing process holds the lock, read under the guard.
    /// Each step runs whole on one hart, so the guard is free on every hart
    /// when it starts.
    pub fn holding(&mut self, os: &mut State) -> (r: bool)
        requires
            old(os).wf(),
            old(os).cpus.valid(),
            old(os).cpus.cur().proc.is_some(),
            old(os).cpus.cur().noff < i32::MAX,
            old(self).wf(),
            !old(self).lk.locked,
        ensures
            r == (old(self).locked && old(self).pid == old(os).procs.0@[old(os).cpus.cur().proc.unwrap() as int].pid),
            *final(self) == *old(self),
            final(os).wf(),
            final(os).procs.0@ == old(os).procs.0@,
            old(os).cpus.restored(final(os).cpus),
            old(os).same_globals(*final(os)),
    {
        let p = match os.myproc() {
            Ok(p) => p,
            Err(_) => {
                return false;
            },
        };
        let ghost c0 = os.cpus.cur();
        self.lk.acquire(&mut os.cpus);
        let r = self.locked && self.pid == os.procs.0[p].pid;
        self.lk.release(&mut os.cpus);
        proof {
            lemma_push_pop(c0);
            lemma_harts_in_table(old(os).cpus, os.cpus);
        }
        r
    }
}

/// `acquire` followed by `release` on a free sleep lock gives back the lock
/// exactly as it was: not held, no holder pid, the same guard.
pub proof fn lemma_sleep_round_trip(l: SleepLock, pid: i32)
    requires
        l.wf(),
        !l.locked,
    ensures
        l.acquired(pid).released() == l,
        l.acquired(pid).wf(),
{
}

/// Of two processes that try a free sleep lock, the first takes it and the
/// lock is then held, so the second is put to sleep on the lock's channel;
/// the first one's `release` frees the lock and makes the sleeper runnable,
/// so that its next look at the lock finds it free.
pub proof fn lemma_sleep_handoff(l: SleepLock, first: i32, second: Proc)
    requires
        l.wf(),
        !l.locked,
    ensures
        l.acquired(first).locked,
        after_sleep(second, l.chan()).state == crate::proc::ProcState::Sleeping,
        !l.acquired(first).released().locked,
        after_wakeup(after_sleep(second, l.chan()), l.acquired(first).released().chan()).state
            == crate::proc::ProcState::Runnable,
{
}

} // verus!
