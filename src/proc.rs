//! The process table, its state machine, the scheduler step, and the
//! sleep/wakeup channel mechanism.
//!
//! A process's `state` and `chan` change only while its own lock is held by
//! the changing hart: every operation here that touches them takes that lock
//! first and lets it go afterwards.
//!
//! The context switch suspends one flow of control and resumes another. Here
//! it is a pair of steps: `sched` hands the executing hart from a process to
//! its scheduler, and `schedule_once` hands it from the scheduler to a
//! process, which then goes on with `resume`.
use vstd::prelude::*;
use crate::cpu::{lemma_push_pop, popped, pushed, same_nesting, Context, Cpu, Cpus};
use crate::memlayout::{kstack, TRAMPOLINE};
use crate::param::{NCPU, NPROC};
use crate::riscv::{intr_enabled, lemma_sstatus_bits, sstatus_on, PGSIZE};
use crate::spinlock::SpinLock;

verus! {

/// Failures of looking up the executing hart or its process, and of
/// allocating a process slot.
#[derive(Clone, Copy, Debug, PartialEq, Eq, Structural)]
pub enum StateErr {
    /// The thread pointer names no hart record.
    CpuIndexErr,
    /// No process runs on the executing hart.
    ProcessDoesntExistErr,
    /// Every slot of the process table is in use.
    NoFreeSlot,
}

/// The life cycle of a process slot.
#[derive(Clone, Copy, Debug, PartialEq, Eq, Structural)]
pub enum ProcState {
    Unused,
    Sleeping,
    Runnable,
    Running,
    Zombie,
}

/// Saved user registers of a process, kept in a page of its own while the
/// process is in the kernel.
#[derive(Clone, Copy, Debug)]
pub struct Trapframe {
    pub kernel_satp: u64,
    pub kernel_sp: u64,
    pub kernel_trap: u64,
    pub epc: u64,
    pub kernel_hartid: u64,
    pub ra: u64,
    pub sp: u64,
    pub gp: u64,
    pub tp: u64,
    pub t0: u64,
    pub t1: u64,
    pub t2: u64,
    pub s0: u64,
    pub s1: u64,
    pub a0: u64,
    pub a1: u64,
    pub a2: u64,
    pub a3: u64,
    pub a4: u64,
    pub a5: u64,
    pub a6: u64,
    pub a7: u64,
    pub s2: u64,
    pub s3: u64,
    pub s4: u64,
    pub s5: u64,
    pub s6: u64,
    pub s7: u64,
    pub s8: u64,
    pub s9: u64,
    pub s10: u64,
    pub s11: u64,
    pub t3: u64,
    pub t4: u64,
    pub t5: u64,
    pub t6: u64,
}

/// One process control block.
#[derive(Clone, Copy, Debug)]
pub struct Proc {
    /// Guards `state`, `chan`, `killed` and `xstate`.
    pub lock: SpinLock,
    pub state: ProcState,
    /// Slot of the parent process.
    pub parent: Option<usize>,
    /// The channel the process sleeps on; meaningful only while sleeping.
    pub chan: Option<u64>,
    /// Set when the process has been killed.
    pub killed: bool,
    /// Exit status, meaningful once a zombie.
    pub xstate: i32,
    pub pid: i32,
    /// Top of the process's kernel stack.
    pub kstack: u64,
    /// Size of the process's memory in bytes.
    pub sz: u64,
    /// Physical address of the user page table.
    pub pagetable: u64,
    /// Address of the trap frame page.
    pub tf: u64,
    /// Registers to switch to when the process is run.
    pub context: Context,
    /// Slot of the current directory's inode.
    pub cwd: Option<usize>,
    /// Diagnostic name.
    pub name: &'static str,
}

/// What `wakeup(c)` makes of a process state.
pub open spec fn woken(state: ProcState, chan: Option<u64>, c: u64) -> ProcState {
    if state == ProcState::Sleeping && chan == Some(c) {
        ProcState::Runnable
    } else {
        state
    }
}

/// A process as `wakeup(c)` leaves it.
pub open spec fn after_wakeup(p: Proc, c: u64) -> Proc {
    Proc { state: woken(p.state, p.chan, c), ..p }
}

/// A process as `sleep(c, _)` leaves it.
pub open spec fn after_sleep(p: Proc, c: u64) -> Proc {
    Proc { chan: Some(c), state: ProcState::Sleeping, ..p }
}

/// A running process that no hart holds the lock of waits on no channel: the
/// channel is cleared, under that lock, as soon as a woken process runs.
pub open spec fn unchanneled(p: Proc) -> bool {
    p.state == ProcState::Running && !p.lock.locked ==> p.chan.is_none()
}

/// Every hart that runs a process runs one of the table.
pub open spec fn harts_in_table(cpus: Cpus) -> bool {
    forall|h: int| 0 <= h < cpus.harts@.len() ==> in_table((#[trigger] cpus.harts@[h]).proc)
}

/// A slot of the process table, or none.
pub open spec fn in_table(p: Option<usize>) -> bool {
    match p {
        Some(i) => i < NPROC,
        None => true,
    }
}

/// Changing only the executing hart's record, to one that runs a process of
/// the table or none, keeps every hart in the table.
pub(crate) proof fn lemma_harts_in_table(a: Cpus, b: Cpus)
    requires
        harts_in_table(a),
        a.valid(),
        a.harts@.len() == b.harts@.len(),
        b.tp == a.tp,
        forall|h: int| 0 <= h < a.harts@.len() && h != a.tp ==> b.harts@[h] == a.harts@[h],
        in_table(b.cur().proc),
    ensures
        harts_in_table(b),
{
    assert forall|h: int| 0 <= h < b.harts@.len() implies in_table((#[trigger] b.harts@[h]).proc) by {
        if h != a.tp {
            assert(in_table(a.harts@[h].proc));
        }
    }
}

impl Proc {
    /// An unused process slot `slot`, whose lock has id `slot + 1`.
    pub fn new(slot: usize) -> (r: Proc)
        requires
            slot < NPROC,
        ensures
            r.lock.wf(),
            !r.lock.locked,
            r.lock.id == slot + 1,
            r.state == ProcState::Unused,
            r.parent.is_none(),
            r.chan.is_none(),
            !r.killed,
            r.xstate == 0,
            r.pid == 0,
            r.kstack == TRAMPOLINE - (slot + 1) * 2 * PGSIZE,
            r.sz == 0,
            r.pagetable == 0,
            r.tf == 0,
            r.context == Context::zero(),
            r.cwd.is_none(),
    {
        Proc {
            lock: SpinLock::new("proc", slot as u64 + 1),
            state: ProcState::Unused,
            parent: None,
            chan: None,
            killed: false,
            xstate: 0,
            pid: 0,
            kstack: kstack(slot as u64),
            sz: 0,
            pagetable: 0,
            tf: 0,
            context: Context::new(),
            cwd: None,
            name: "",
        }
    }
    /// Wakes this process if it sleeps on its own channel, the identity of
    /// its lock, as a parent waiting for a child does; used when a child
    /// exits. The executing hart holds the process's lock, and a process in
    /// any other state or on any other channel is left as it is.
    pub fn wakeup1(&mut self, cpus: &Cpus)
        requires
            old(self).lock.held_by(cpus.tp),
        ensures
            *final(self) == after_wakeup(*old(self), old(self).lock.id),
    {
        let own = match self.chan {
            Some(c) => c == self.lock.id,
            None => false,
        };
        if self.state == ProcState::Sleeping && own {
            self.state = ProcState::Runnable;
        }
    }
}

/// The process table.
pub struct Procs(pub Vec<Proc>);

/// Slot of the first user process, once made.
#[derive(Clone, Copy, Debug)]
pub struct InitProc(pub Option<usize>);

/// The kernel: every hart, the process table, and the pid counter.
pub struct State {
    pub cpus: Cpus,
    pub procs: Procs,
    pub initproc: InitProc,
    /// The last pid handed out.
    pub nextpid: i32,
    /// Guards `nextpid`.
    pub pid_lock: SpinLock,
    /// The id that the next lock made by `alloc_lock_id` gets.
    pub next_lock_id: u64,
}

impl State {
    /// Process `i` of the table.
    pub open spec fn proc_at(self, i: int) -> Proc {
        self.procs.0@[i]
    }

    /// The table and the harts keep their invariants: every process lock
    /// has its slot's id, a running process whose lock is free has no
    /// channel, the pid lock has id 0, and every running slot exists.
    pub open spec fn wf(self) -> bool {
        &&& self.cpus.wf()
        &&& self.procs.0@.len() == NPROC
        &&& forall|i: int| 0 <= i < NPROC ==> (#[trigger] self.procs.0@[i]).lock.wf() && self.procs.0@[i].lock.id == i + 1
        &&& forall|i: int| 0 <= i < NPROC ==> unchanneled(#[trigger] self.procs.0@[i])
        &&& self.pid_lock.wf()
        &&& self.pid_lock.id == 0
        &&& self.next_lock_id > NPROC
        &&& harts_in_table(self.cpus)
    }

    /// No hart holds the lock of any process.
    pub open spec fn proc_locks_free(self) -> bool {
        forall|i: int| 0 <= i < NPROC ==> !(#[trigger] self.procs.0@[i]).lock.locked
    }

    /// The fields beside the harts and the table are as in `self`.
    pub open spec fn same_globals(self, new: State) -> bool {
        &&& new.nextpid == self.nextpid
        &&& new.pid_lock == self.pid_lock
        &&& new.next_lock_id == self.next_lock_id
        &&& new.initproc == self.initproc
    }

    /// The kernel at boot: every hart idle, every slot unused, pids to be
    /// handed out from 2 on.
    pub fn new() -> (r: State)
        ensures
            r.wf(),
            r.proc_locks_free(),
            !r.pid_lock.locked,
            r.nextpid == 1,
            r.next_lock_id == NPROC + 1,
            r.pid_lock.name == "nexPid",
            r.pid_lock.cpu.is_none(),
            r.initproc.0.is_none(),
            r.cpus.tp == 0,
            forall|i: int| 0 <= i < NPROC ==> (#[trigger] r.procs.0@[i]).state == ProcState::Unused
                && r.procs.0@[i].pid == 0 && r.procs.0@[i].chan.is_none(),
            forall|h: int| 0 <= h < NCPU ==> #[trigger] r.cpus.harts@[h] == Cpu::boot(),
    {
        let mut v: Vec<Proc> = Vec::new();
        let mut i: usize = 0;
        while i < NPROC
            invariant
                i <= NPROC,
                v@.len() == i,
                forall|j: int| 0 <= j < i ==> (#[trigger] v@[j]).lock.wf() && v@[j].lock.id == j + 1
                    && !v@[j].lock.locked && v@[j].state == ProcState::Unused && v@[j].pid == 0
                    && v@[j].chan.is_none(),
            decreases NPROC - i,
        {
            v.push(Proc::new(i));
            i = i + 1;
        }
        State {
            cpus: Cpus::new(),
            procs: Procs(v),
            initproc: InitProc(None),
            nextpid: 1,
            pid_lock: SpinLock::new("nexPid", 0),
            next_lock_id: NPROC as u64 + 1,
        }
    }

    /// A fresh id for a lock made outside the kernel's tables.
    pub fn alloc_lock_id(&mut self) -> (r: u64)
        requires
            old(self).next_lock_id < u64::MAX,
        ensures
            r == old(self).next_lock_id,
            final(self).next_lock_id == r + 1,
            final(self).cpus == old(self).cpus,
            final(self).procs.0@ == old(self).procs.0@,
            final(self).nextpid == old(self).nextpid,
            final(self).pid_lock == old(self).pid_lock,
            final(self).initproc == old(self).initproc,
    {
        let r = self.next_lock_id;
        self.next_lock_id = r + 1;
        r
    }

    /// The id of the executing hart.
    pub fn cpuid(&self) -> (r: u64)
        ensures
            r == self.cpus.tp,
    {
        self.cpus.cpuid()
    }

    /// The index of the executing hart's record, or `CpuIndexErr`.
    pub fn mycpu(&self) -> (r: Result<usize, StateErr>)
        ensures
            self.cpus.valid() ==> r == Ok::<usize, StateErr>(self.cpus.tp as usize),
            !self.cpus.valid() ==> r == Err::<usize, StateErr>(StateErr::CpuIndexErr),
    {
        self.cpus.mycpu()
    }

    /// The slot of the process running on the executing hart:
    /// `CpuIndexErr` when the thread pointer names no hart,
    /// `ProcessDoesntExistErr` when the hart runs no process.
    pub fn myproc(&self) -> (r: Result<usize, StateErr>)
        requires
            self.wf(),
        ensures
            !self.cpus.valid() ==> r == Err::<usize, StateErr>(StateErr::CpuIndexErr),
            self.cpus.valid() && self.cpus.cur().proc.is_none() ==> r == Err::<usize, StateErr>(
                StateErr::ProcessDoesntExistErr,
            ),
            self.cpus.valid() && self.cpus.cur().proc.is_some() ==> r == Ok::<usize, StateErr>(
                self.cpus.cur().proc.unwrap(),
            ),
            r.is_ok() ==> r.unwrap() < NPROC,
    {
        match self.mycpu() {
            Ok(id) => match self.cpus.harts[id].proc {
                Some(p) => Ok(p),
                None => Err(StateErr::ProcessDoesntExistErr),
            },
            Err(e) => Err(e),
        }
    }

    /// `push_off` on the executing hart.
    pub fn push_off(&mut self)
        requires
            old(self).cpus.wf(),
            old(self).cpus.valid(),
            old(self).cpus.cur().noff < i32::MAX,
        ensures
            final(self).cpus.wf(),
            old(self).cpus.with_cur(final(self).cpus, pushed(old(self).cpus.cur())),
            final(self).procs.0@ == old(self).procs.0@,
            old(self).same_globals(*final(self)),
    {
        self.cpus.push_off();
    }

    /// `pop_off` on the executing hart.
    pub fn pop_off(&mut self)
        requires
            old(self).cpus.wf(),
            old(self).cpus.valid(),
            old(self).cpus.cur().noff >= 1,
        ensures
            final(self).cpus.wf(),
            old(self).cpus.with_cur(final(self).cpus, popped(old(self).cpus.cur())),
            final(self).procs.0@ == old(self).procs.0@,
            old(self).same_globals(*final(self)),
    {
        self.cpus.pop_off();
    }

    /// Hands out the next pid under the pid lock. Each step runs whole on one
    /// hart, so the pid lock is free on every hart when it starts.
    pub fn allocpid(&mut self) -> (pid: i32)
        requires
            old(self).wf(),
            old(self).cpus.valid(),
            old(self).cpus.cur().noff < i32::MAX,
            !old(self).pid_lock.locked,
            old(self).nextpid < i32::MAX,
        ensures
            final(self).wf(),
            pid == old(self).nextpid + 1,
            final(self).nextpid == pid,
            final(self).pid_lock == old(self).pid_lock,
            final(self).next_lock_id == old(self).next_lock_id,
            final(self).initproc == old(self).initproc,
            final(self).procs.0@ == old(self).procs.0@,
            old(self).cpus.restored(final(self).cpus),
    {
        let ghost c0 = self.cpus.cur();
        let won = self.pid_lock.acquire(&mut self.cpus);
        self.nextpid = self.nextpid + 1;
        let pid = self.nextpid;
        self.pid_lock.release(&mut self.cpus);
        proof {
            lemma_push_pop(c0);
            lemma_harts_in_table(old(self).cpus, self.cpus);
        }
        pid
    }

    /// Finds the first unused slot, under its lock gives it the next pid and
    /// makes it runnable, with no channel, no parent, not killed and exit
    /// status 0. Fails with `NoFreeSlot` when every slot is in use. Each step
    /// runs whole on one hart, so the pid lock and every process lock are
    /// free on every hart when it starts.
    pub fn allocproc(&mut self) -> (r: Result<usize, StateErr>)
        requires
            old(self).wf(),
            old(self).cpus.valid(),
            old(self).cpus.cur().noff < i32::MAX - 1,
            old(self).proc_locks_free(),
            !old(self).pid_lock.locked,
            old(self).nextpid < i32::MAX,
        ensures
            final(self).wf(),
            final(self).proc_locks_free(),
            final(self).pid_lock == old(self).pid_lock,
            final(self).next_lock_id == old(self).next_lock_id,
            final(self).initproc == old(self).initproc,
            old(self).cpus.restored(final(self).cpus),
            r.is_err() ==> {
                &&& r == Err::<usize, StateErr>(StateErr::NoFreeSlot)
                &&& forall|i: int| 0 <= i < NPROC ==> (#[trigger] old(self).procs.0@[i]).state != ProcState::Unused
                &&& final(self).procs.0@ == old(self).procs.0@
                &&& final(self).nextpid == old(self).nextpid
            },
            r.is_ok() ==> {
                let i = r.unwrap() as int;
                &&& 0 <= i < NPROC
                &&& old(self).procs.0@[i].state == ProcState::Unused
                &&& forall|j: int| 0 <= j < i ==> (#[trigger] old(self).procs.0@[j]).state != ProcState::Unused
                &&& final(self).nextpid == old(self).nextpid + 1
                &&& final(self).procs.0@ == old(self).procs.0@.update(i, Proc {
                    state: ProcState::Runnable,
                    pid: (old(self).nextpid + 1) as i32,
                    parent: None,
                    chan: None,
                    killed: false,
                    xstate: 0,
                    ..old(self).procs.0@[i]
                })
            },
    {
        let ghost s0 = *self;
        let mut i: usize = 0;
        while i < NPROC
            invariant
                0 <= i <= NPROC,
                s0 == *old(self),
                s0.wf(),
                s0.cpus.valid(),
                s0.cpus.cur().noff < i32::MAX - 1,
                s0.nextpid < i32::MAX,
                !s0.pid_lock.locked,
                self.wf(),
                self.proc_locks_free(),
                self.procs.0@ == s0.procs.0@,
                forall|j: int| 0 <= j < i ==> (#[trigger] s0.procs.0@[j]).state != ProcState::Unused,
                s0.cpus.restored(self.cpus),
                s0.same_globals(*self),
            decreases NPROC - i,
        {
            let ghost c1 = self.cpus.cur();
            let ghost cp = self.cpus;
            self.procs.0[i].lock.acquire(&mut self.cpus);
            if self.procs.0[i].state == ProcState::Unused {
                let ghost cq = self.cpus;
                proof {
                    lemma_harts_in_table(cp, self.cpus);
                }
                let pid = self.allocpid();
                self.procs.0[i].pid = pid;
                self.procs.0[i].state = ProcState::Runnable;
                self.procs.0[i].parent = None;
                self.procs.0[i].chan = None;
                self.procs.0[i].killed = false;
                self.procs.0[i].xstate = 0;
                let ghost cr = self.cpus;
                self.procs.0[i].lock.release(&mut self.cpus);
                proof {
                    lemma_push_pop(c1);
                    lemma_harts_in_table(cr, self.cpus);
                }
                return Ok(i);
            }
            self.procs.0[i].lock.release(&mut self.cpus);
            proof {
                lemma_push_pop(c1);
                lemma_harts_in_table(cp, self.cpus);
            }
            i = i + 1;
        }
        Err(StateErr::NoFreeSlot)
    }

    /// Ends the executing process: under its own lock it records its exit
    /// status and becomes a zombie, then `sched` switches to the scheduler.
    /// Called holding no lock.
    pub fn mark_zombie(&mut self, xstate: i32)
        requires
            old(self).wf(),
            old(self).cpus.valid(),
            old(self).cpus.cur().proc.is_some(),
            !old(self).procs.0@[old(self).cpus.cur().proc.unwrap() as int].lock.locked,
            old(self).cpus.cur().noff == 0,
        ensures
            final(self).wf(),
            ({
                let p = old(self).cpus.cur().proc.unwrap() as int;
                final(self).procs.0@ == old(self).procs.0@.update(p, Proc {
                    state: ProcState::Zombie,
                    xstate,
                    ..old(self).procs.0@[p]
                })
            }),
            final(self).cpus.tp == old(self).cpus.tp,
            forall|h: int|
                0 <= h < NCPU && h != old(self).cpus.tp ==> #[trigger] final(self).cpus.harts@[h]
                    == old(self).cpus.harts@[h],
            same_nesting(Cpu { proc: None, ..old(self).cpus.cur() }, final(self).cpus.cur()),
            old(self).same_globals(*final(self)),
    {
        let p = match self.myproc() {
            Ok(p) => p,
            Err(_) => {
                return ;
            },
        };
        let ghost c0 = self.cpus.cur();
        let ghost cp = self.cpus;
        self.procs.0[p].lock.acquire(&mut self.cpus);
        self.procs.0[p].xstate = xstate;
        self.procs.0[p].state = ProcState::Zombie;
        proof {
            lemma_harts_in_table(cp, self.cpus);
            lemma_push_pop(Cpu { proc: None, ..c0 });
        }
        sched(self);
    }

    /// Returns zombie slot `p` to the unused pool, under its lock. Returns
    /// whether `p` was a zombie; any other slot is left as it is.
    pub fn reap(&mut self, p: usize) -> (r: bool)
        requires
            old(self).wf(),
            old(self).cpus.valid(),
            old(self).cpus.cur().noff < i32::MAX,
            p < NPROC,
            !old(self).procs.0@[p as int].lock.locked,
        ensures
            final(self).wf(),
            r == (old(self).procs.0@[p as int].state == ProcState::Zombie),
            r ==> final(self).procs.0@ == old(self).procs.0@.update(p as int, Proc {
                state: ProcState::Unused,
                pid: 0,
                parent: None,
                chan: None,
                killed: false,
                xstate: 0,
                ..old(self).procs.0@[p as int]
            }),
            !r ==> final(self).procs.0@ == old(self).procs.0@,
            old(self).cpus.restored(final(self).cpus),
            old(self).same_globals(*final(self)),
    {
        let ghost c1 = self.cpus.cur();
        let ghost cp = self.cpus;
        self.procs.0[p].lock.acquire(&mut self.cpus);
        let r = self.procs.0[p].state == ProcState::Zombie;
        if r {
            self.procs.0[p].state = ProcState::Unused;
            self.procs.0[p].pid = 0;
            self.procs.0[p].parent = None;
            self.procs.0[p].chan = None;
            self.procs.0[p].killed = false;
            self.procs.0[p].xstate = 0;
        }
        self.procs.0[p].lock.release(&mut self.cpus);
        proof {
            lemma_push_pop(c1);
            lemma_harts_in_table(cp, self.cpus);
        }
        r
    }

    /// Wakes every process sleeping on `chan`. Visits each slot in turn and,
    /// under that process's own lock, makes it runnable if it sleeps on
    /// `chan`; every other process keeps its state. Called with no process
    /// lock held; as each step runs whole on one hart, no other hart holds
    /// one either.
    pub fn wakeup(&mut self, chan: u64)
        requires
            old(self).wf(),
            old(self).cpus.valid(),
            old(self).cpus.cur().noff < i32::MAX,
            old(self).proc_locks_free(),
        ensures
            final(self).wf(),
            final(self).proc_locks_free(),
            forall|i: int|
                0 <= i < NPROC ==> #[trigger] final(self).procs.0@[i] == after_wakeup(
                    old(self).procs.0@[i],
                    chan,
                ),
            old(self).cpus.restored(final(self).cpus),
            old(self).same_globals(*final(self)),
    {
        let ghost s0 = *self;
        let mut i: usize = 0;
        while i < NPROC
            invariant
                0 <= i <= NPROC,
                s0 == *old(self),
                s0.wf(),
                s0.cpus.cur().noff < i32::MAX,
                self.wf(),
                self.proc_locks_free(),
                s0.cpus.valid(),
                forall|j: int| 0 <= j < i ==> #[trigger] self.procs.0@[j] == after_wakeup(s0.procs.0@[j], chan),
                forall|j: int| i <= j < NPROC ==> #[trigger] self.procs.0@[j] == s0.procs.0@[j],
                s0.cpus.restored(self.cpus),
                s0.same_globals(*self),
            decreases NPROC - i,
        {
            let ghost c1 = self.cpus.cur();
            let ghost cp = self.cpus;
            self.procs.0[i].lock.acquire(&mut self.cpus);
            let on_chan = match self.procs.0[i].chan {
                Some(c) => c == chan,
                None => false,
            };
            if self.procs.0[i].state == ProcState::Sleeping && on_chan {
                self.procs.0[i].state = ProcState::Runnable;
            }
            self.procs.0[i].lock.release(&mut self.cpus);
            proof {
                lemma_push_pop(c1);
                lemma_harts_in_table(cp, self.cpus);
            }
            i = i + 1;
        }
    }

    /// One round of the executing hart's scheduler loop: enables interrupts,
    /// then scans the table in order, taking each process's lock. The first
    /// runnable process found is marked running and recorded as the hart's
    /// process, and the hart switches to it, still holding its lock, which the
    /// process lets go in `resume`. Returns its slot, or `None` when no
    /// process is runnable.
    pub fn schedule_once(&mut self) -> (r: Option<usize>)
        requires
            old(self).wf(),
            old(self).cpus.valid(),
            old(self).cpus.cur().proc.is_none(),
            old(self).cpus.cur().noff == 0,
            old(self).proc_locks_free(),
        ensures
            final(self).wf(),
            final(self).cpus.tp == old(self).cpus.tp,
            forall|h: int|
                0 <= h < NCPU && h != old(self).cpus.tp ==> #[trigger] final(self).cpus.harts@[h]
                    == old(self).cpus.harts@[h],
            final(self).cpus.cur().scheduler == old(self).cpus.cur().scheduler,
            old(self).same_globals(*final(self)),
            r.is_none() ==> {
                &&& forall|i: int| 0 <= i < NPROC ==> (#[trigger] old(self).procs.0@[i]).state != ProcState::Runnable
                &&& final(self).procs.0@ == old(self).procs.0@
                &&& final(self).cpus.cur().proc.is_none()
                &&& final(self).cpus.cur().noff == 0
                &&& final(self).cpus.cur().sstatus == sstatus_on(old(self).cpus.cur().sstatus)
            },
            r.is_some() ==> {
                let i = r.unwrap() as int;
                &&& 0 <= i < NPROC
                &&& old(self).procs.0@[i].state == ProcState::Runnable
                &&& forall|j: int| 0 <= j < i ==> (#[trigger] old(self).procs.0@[j]).state != ProcState::Runnable
                &&& final(self).procs.0@ == old(self).procs.0@.update(i, Proc {
                    state: ProcState::Running,
                    lock: old(self).procs.0@[i].lock.acquired(old(self).cpus.tp),
                    ..old(self).procs.0@[i]
                })
                &&& final(self).cpus.cur().proc == Some(i as usize)
                &&& final(self).cpus.cur().noff == 1
                &&& !intr_enabled(final(self).cpus.cur().sstatus)
            },
    {
        let ghost s0 = *self;
        let ghost t = self.cpus.tp as int;
        let ghost cp0 = self.cpus;
        self.cpus.intr_on();
        proof {
            lemma_harts_in_table(cp0, self.cpus);
            lemma_sstatus_bits(s0.cpus.cur().sstatus);
        }
        let ghost on_status = sstatus_on(s0.cpus.cur().sstatus);
        let mut i: usize = 0;
        while i < NPROC
            invariant
                0 <= i <= NPROC,
                s0 == *old(self),
                s0.wf(),
                t == s0.cpus.tp,
                s0.cpus.valid(),
                self.wf(),
                self.proc_locks_free(),
                self.procs.0@ == s0.procs.0@,
                forall|j: int| 0 <= j < i ==> (#[trigger] s0.procs.0@[j]).state != ProcState::Runnable,
                self.cpus.tp == s0.cpus.tp,
                forall|h: int| 0 <= h < NCPU && h != t ==> #[trigger] self.cpus.harts@[h] == s0.cpus.harts@[h],
                self.cpus.cur().noff == 0,
                self.cpus.cur().proc.is_none(),
                self.cpus.cur().sstatus == on_status,
                intr_enabled(on_status),
                self.cpus.cur().scheduler == s0.cpus.cur().scheduler,
                s0.same_globals(*self),
            decreases NPROC - i,
        {
            let ghost cp = self.cpus;
            self.procs.0[i].lock.acquire(&mut self.cpus);
            if self.procs.0[i].state == ProcState::Runnable {
                self.procs.0[i].state = ProcState::Running;
                let ghost cq = self.cpus;
                self.cpus.set_proc(Some(i));
                proof {
                    lemma_sstatus_bits(on_status);
                    lemma_harts_in_table(cq, self.cpus);
                }
                return Some(i);
            }
            self.procs.0[i].lock.release(&mut self.cpus);
            proof {
                lemma_sstatus_bits(on_status);
                lemma_harts_in_table(cp, self.cpus);
            }
            i = i + 1;
        }
        None
    }

    /// What a process does first when the scheduler has switched to it: it
    /// clears its channel and lets go of its own lock, which the scheduler
    /// took before the switch.
    pub fn resume(&mut self)
        requires
            old(self).wf(),
            old(self).cpus.valid(),
            old(self).cpus.cur().proc.is_some(),
            old(self).procs.0@[old(self).cpus.cur().proc.unwrap() as int].lock.held_by(old(self).cpus.tp),
            old(self).cpus.cur().noff == 1,
        ensures
            final(self).wf(),
            ({
                let p = old(self).cpus.cur().proc.unwrap() as int;
                final(self).procs.0@ == old(self).procs.0@.update(p, Proc {
                    chan: None,
                    lock: old(self).procs.0@[p].lock.released(),
                    ..old(self).procs.0@[p]
                })
            }),
            old(self).cpus.with_cur(final(self).cpus, popped(old(self).cpus.cur())),
            old(self).same_globals(*final(self)),
    {
        let p = match self.myproc() {
            Ok(p) => p,
            Err(_) => {
                return ;
            },
        };
        let ghost cp = self.cpus;
        self.procs.0[p].chan = None;
        self.procs.0[p].lock.release(&mut self.cpus);
        proof {
            lemma_harts_in_table(cp, self.cpus);
        }
    }

    /// Atomically lets go of `lk` and puts the executing process to sleep on
    /// `chan`. The process takes its own lock before it lets go of `lk`, so
    /// that no `wakeup` can run between its decision to sleep and its being
    /// marked sleeping; then it records the channel, becomes `Sleeping`, and
    /// gives the hart back to the scheduler with `sched`.
    ///
    /// `lk` is a lock outside the process table and is held by the executing
    /// hart, which holds no other lock. When the process is later switched to
    /// again, it goes on with `sleep_return`, which takes `lk` back. When the
    /// condition's lock is the process's own lock, `sleep_own` is the form
    /// to call.
    pub fn sleep(&mut self, chan: u64, lk: &mut SpinLock)
        requires
            old(self).wf(),
            old(self).cpus.valid(),
            old(self).cpus.cur().proc.is_some(),
            !old(self).procs.0@[old(self).cpus.cur().proc.unwrap() as int].lock.locked,
            old(self).cpus.cur().noff == 1,
            old(lk).wf(),
            old(lk).held_by(old(self).cpus.tp),
        ensures
            final(self).wf(),
            ({
                let p = old(self).cpus.cur().proc.unwrap() as int;
                final(self).procs.0@ == old(self).procs.0@.update(p, after_sleep(old(self).procs.0@[p], chan))
            }),
            final(lk).wf(),
            *final(lk) == old(lk).released(),
            old(self).cpus.with_cur(final(self).cpus, popped(Cpu { proc: None, ..old(self).cpus.cur() })),
            old(self).same_globals(*final(self)),
    {
        let p = match self.myproc() {
            Ok(p) => p,
            Err(_) => {
                return ;
            },
        };
        let ghost c0 = self.cpus.cur();
        let ghost cp = self.cpus;
        self.procs.0[p].lock.acquire(&mut self.cpus);
        lk.release(&mut self.cpus);
        self.procs.0[p].chan = Some(chan);
        self.procs.0[p].state = ProcState::Sleeping;
        proof {
            lemma_sstatus_bits(c0.sstatus);
            assert(self.cpus.cur() == c0);
            assert(self.cpus.harts@ =~= cp.harts@);
            lemma_harts_in_table(cp, self.cpus);
        }
        sched(self);
    }

    /// Finishes a `sleep` once the scheduler has switched back to the
    /// process: `resume` clears the channel and lets the process's own lock
    /// go, then the process takes `lk` back, so that it holds `lk` again as
    /// it did when it called `sleep`. As each step runs whole on one hart,
    /// `lk` is free on every hart when this step starts.
    pub fn sleep_return(&mut self, lk: &mut SpinLock)
        requires
            old(self).wf(),
            old(self).cpus.valid(),
            old(self).cpus.cur().proc.is_some(),
            old(self).procs.0@[old(self).cpus.cur().proc.unwrap() as int].lock.held_by(old(self).cpus.tp),
            old(self).cpus.cur().noff == 1,
            old(lk).wf(),
            !old(lk).locked,
        ensures
            final(self).wf(),
            ({
                let p = old(self).cpus.cur().proc.unwrap() as int;
                final(self).procs.0@ == old(self).procs.0@.update(p, Proc {
                    chan: None,
                    lock: old(self).procs.0@[p].lock.released(),
                    ..old(self).procs.0@[p]
                })
            }),
            final(lk).wf(),
            *final(lk) == old(lk).acquired(old(self).cpus.tp),
            old(self).cpus.with_cur(final(self).cpus, pushed(popped(old(self).cpus.cur()))),
            old(self).same_globals(*final(self)),
    {
        self.resume();
        let ghost cp = self.cpus;
        lk.acquire(&mut self.cpus);
        proof {
            lemma_harts_in_table(cp, self.cpus);
            assert(self.cpus.harts@ =~= old(self).cpus.harts@.update(
                old(self).cpus.tp as int,
                pushed(popped(old(self).cpus.cur())),
            ));
        }
    }

    /// `sleep` when the lock that guards the condition is the process's own
    /// lock, which the executing hart holds and no other lock: the process
    /// records the channel, becomes `Sleeping`, and `sched` switches to the
    /// scheduler. No lock is taken or let go here but by that switch; once
    /// switched to again the process goes on with `resume_own`, holding its
    /// own lock as on entry.
    pub fn sleep_own(&mut self, chan: u64)
        requires
            old(self).wf(),
            old(self).cpus.valid(),
            old(self).cpus.cur().proc.is_some(),
            old(self).procs.0@[old(self).cpus.cur().proc.unwrap() as int].lock.held_by(old(self).cpus.tp),
            old(self).cpus.cur().noff == 1,
        ensures
            final(self).wf(),
            ({
                let p = old(self).cpus.cur().proc.unwrap() as int;
                final(self).procs.0@ == old(self).procs.0@.update(p, Proc {
                    lock: old(self).procs.0@[p].lock.released(),
                    ..after_sleep(old(self).procs.0@[p], chan)
                })
            }),
            old(self).cpus.with_cur(final(self).cpus, popped(Cpu { proc: None, ..old(self).cpus.cur() })),
            old(self).same_globals(*final(self)),
    {
        let p = match self.myproc() {
            Ok(p) => p,
            Err(_) => {
                return ;
            },
        };
        self.procs.0[p].chan = Some(chan);
        self.procs.0[p].state = ProcState::Sleeping;
        sched(self);
    }

    /// Finishes a `sleep_own` once the scheduler has switched back to the
    /// process: the channel is cleared, and the process keeps its own lock,
    /// which the scheduler took before the switch.
    pub fn resume_own(&mut self)
        requires
            old(self).wf(),
            old(self).cpus.valid(),
            old(self).cpus.cur().proc.is_some(),
            old(self).procs.0@[old(self).cpus.cur().proc.unwrap() as int].lock.held_by(old(self).cpus.tp),
        ensures
            final(self).wf(),
            ({
                let p = old(self).cpus.cur().proc.unwrap() as int;
                final(self).procs.0@ == old(self).procs.0@.update(p, Proc {
                    chan: None,
                    ..old(self).procs.0@[p]
                })
            }),
            final(self).procs.0@[old(self).cpus.cur().proc.unwrap() as int].lock.held_by(old(self).cpus.tp),
            final(self).cpus == old(self).cpus,
            old(self).same_globals(*final(self)),
    {
        let p = match self.myproc() {
            Ok(p) => p,
            Err(_) => {
                return ;
            },
        };
        self.procs.0[p].chan = None;
    }

    /// Gives up the hart for one scheduling round: under its own lock the
    /// executing process becomes runnable, then `sched` switches to the
    /// scheduler. Called holding no lock.
    pub fn yield_cpu(&mut self)
        requires
            old(self).wf(),
            old(self).cpus.valid(),
            old(self).cpus.cur().proc.is_some(),
            !old(self).procs.0@[old(self).cpus.cur().proc.unwrap() as int].lock.locked,
            old(self).cpus.cur().noff == 0,
        ensures
            final(self).wf(),
            ({
                let p = old(self).cpus.cur().proc.unwrap() as int;
                final(self).procs.0@ == old(self).procs.0@.update(p, Proc {
                    state: ProcState::Runnable,
                    ..old(self).procs.0@[p]
                })
            }),
            final(self).cpus.tp == old(self).cpus.tp,
            forall|h: int|
                0 <= h < NCPU && h != old(self).cpus.tp ==> #[trigger] final(self).cpus.harts@[h]
                    == old(self).cpus.harts@[h],
            same_nesting(Cpu { proc: None, ..old(self).cpus.cur() }, final(self).cpus.cur()),
            old(self).same_globals(*final(self)),
    {
        let p = match self.myproc() {
            Ok(p) => p,
            Err(_) => {
                return ;
            },
        };
        let ghost c0 = self.cpus.cur();
        let ghost cp = self.cpus;
        self.procs.0[p].lock.acquire(&mut self.cpus);
        self.procs.0[p].state = ProcState::Runnable;
        proof {
            lemma_harts_in_table(cp, self.cpus);
            lemma_push_pop(Cpu { proc: None, ..c0 });
        }
        sched(self);
    }
}

/// A process that `sleep` left sleeping on `c` is made runnable by the next
/// `wakeup(c)`, and only once: a further `wakeup(c)` leaves it as it is, and a
/// `wakeup(c)` that comes before the process is marked sleeping never changes
/// a process that is not sleeping.
pub proof fn lemma_no_lost_wakeup(p: Proc, c: u64)
    ensures
        after_wakeup(after_sleep(p, c), c).state == ProcState::Runnable,
        after_wakeup(after_wakeup(after_sleep(p, c), c), c) == after_wakeup(after_sleep(p, c), c),
        p.state != ProcState::Sleeping ==> after_wakeup(p, c) == p,
{
}

/// `wakeup(c)` changes exactly the processes that sleep on `c`: they become
/// runnable, and every other process, asleep on another channel or not
/// asleep, is left unchanged.
pub proof fn lemma_wakeup_selective(p: Proc, c: u64)
    ensures
        (p.state == ProcState::Sleeping && p.chan == Some(c)) ==> after_wakeup(p, c).state
            == ProcState::Runnable,
        !(p.state == ProcState::Sleeping && p.chan == Some(c)) ==> after_wakeup(p, c) == p,
        after_wakeup(p, c) == (Proc { state: after_wakeup(p, c).state, ..p }),
{
}

/// Hands the executing hart from its process to the hart's scheduler. The
/// process holds its own lock and no other, and has already left the
/// `Running` state; entering the switch otherwise is fatal, and is ruled out
/// by the precondition. The scheduler, resumed on the hart, records that the
/// hart runs no process and lets the process's lock go.
pub fn sched(os: &mut State)
    requires
        old(os).wf(),
        old(os).cpus.valid(),
        old(os).cpus.cur().proc.is_some(),
        old(os).procs.0@[old(os).cpus.cur().proc.unwrap() as int].lock.held_by(old(os).cpus.tp),
        old(os).procs.0@[old(os).cpus.cur().proc.unwrap() as int].state != ProcState::Running,
        old(os).cpus.cur().noff == 1,
    ensures
        final(os).wf(),
        ({
            let p = old(os).cpus.cur().proc.unwrap() as int;
            final(os).procs.0@ == old(os).procs.0@.update(p, Proc {
                lock: old(os).procs.0@[p].lock.released(),
                ..old(os).procs.0@[p]
            })
        }),
        old(os).cpus.with_cur(final(os).cpus, popped(Cpu { proc: None, ..old(os).cpus.cur() })),
        old(os).same_globals(*final(os)),
{
    let p = match os.myproc() {
        Ok(p) => p,
        Err(_) => {
            return ;
        },
    };
    let ghost cp = os.cpus;
    os.cpus.set_proc(None);
    os.procs.0[p].lock.release(&mut os.cpus);
    proof {
        lemma_harts_in_table(cp, os.cpus);
        assert(os.cpus.harts@ =~= cp.harts@.update(cp.tp as int, popped(Cpu { proc: None, ..cp.cur() })));
    }
}

} // verus!
