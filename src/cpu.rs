//! Per-hart state: the process a hart runs, its scheduler context, its
//! interrupt-nesting counter, and its interrupt-enable registers.
//!
//! `push_off` and `pop_off` are matched versions of masking and unmasking
//! interrupts: it takes two `pop_off`s to undo two `push_off`s, and if
//! interrupts were off before the first `push_off`, they stay off after the
//! last `pop_off`.
use vstd::prelude::*;
use crate::param::NCPU;
use crate::proc::StateErr;
use crate::riscv::{get, intr_enabled, lemma_sstatus_bits, off, on, sie_on, sstatus_off, sstatus_on};

verus! {

/// Callee-saved registers, saved and restored by the context switch.
#[derive(Clone, Copy, Debug, PartialEq, Eq)]
pub struct Context {
    pub ra: u64,
    pub sp: u64,
    pub s0: u64,
    pub s1: u64,
    pub s2: u64,
    pub s3: u64,
    pub s4: u64,
    pub s5: u64,
    pub s6: u64,
    pub s7: u64,
    pub s8: u64,
    pub s9: u64,
    pub s10: u64,
    pub s11: u64,
}

impl Context {
    /// Every register zero.
    pub open spec fn zero() -> Context {
        Context {
            ra: 0,
            sp: 0,
            s0: 0,
            s1: 0,
            s2: 0,
            s3: 0,
            s4: 0,
            s5: 0,
            s6: 0,
            s7: 0,
            s8: 0,
            s9: 0,
            s10: 0,
            s11: 0,
        }
    }

    /// A context with every register zero.
    pub fn new() -> (r: Context)
        ensures
            r == Context::zero(),
    {
        Context {
            ra: 0,
            sp: 0,
            s0: 0,
            s1: 0,
            s2: 0,
            s3: 0,
            s4: 0,
            s5: 0,
            s6: 0,
            s7: 0,
            s8: 0,
            s9: 0,
            s10: 0,
            s11: 0,
        }
    }
}

/// The state of one hart.
#[derive(Clone, Copy, Debug)]
pub struct Cpu {
    /// Slot of the process running on this hart, if any.
    pub proc: Option<usize>,
    /// Saved registers of this hart's scheduler loop.
    pub scheduler: Context,
    /// Depth of `push_off` nesting.
    pub noff: i32,
    /// Whether interrupts were enabled before the outermost `push_off`.
    pub intena: bool,
    /// This hart's `sstatus` register.
    pub sstatus: u64,
    /// This hart's `sie` register.
    pub sie: u64,
}

impl Cpu {
    /// The nesting counter is never negative, and interrupts stay masked
    /// while it is positive.
    pub open spec fn inv(self) -> bool {
        &&& self.noff >= 0
        &&& self.noff > 0 ==> !intr_enabled(self.sstatus)
    }

    /// A hart at boot: no process, no nesting, every interrupt masked.
    pub open spec fn boot() -> Cpu {
        Cpu { proc: None, scheduler: Context::zero(), noff: 0, intena: false, sstatus: 0, sie: 0 }
    }

    /// A hart at boot: no process, interrupts off, no nesting.
    pub fn new() -> (r: Cpu)
        ensures
            r == Cpu::boot(),
            r.inv(),
            !intr_enabled(r.sstatus),
    {
        let r = Cpu { proc: None, scheduler: Context::new(), noff: 0, intena: false, sstatus: 0, sie: 0 };
        assert(!(0u64 & 2u64 != 0)) by (bit_vector);
        r
    }
}

/// The hart after one `push_off`.
pub open spec fn pushed(c: Cpu) -> Cpu {
    Cpu {
        sstatus: sstatus_off(c.sstatus),
        intena: if c.noff == 0 { intr_enabled(c.sstatus) } else { c.intena },
        noff: (c.noff + 1) as i32,
        ..c
    }
}

/// The hart after one `pop_off`.
pub open spec fn popped(c: Cpu) -> Cpu {
    let reenable = c.noff - 1 == 0 && c.intena;
    Cpu {
        noff: (c.noff - 1) as i32,
        sstatus: if reenable { sstatus_on(c.sstatus) } else { c.sstatus },
        sie: if reenable { sie_on(c.sie) } else { c.sie },
        ..c
    }
}

/// The hart after `n` `push_off`s.
pub open spec fn push_n(c: Cpu, n: nat) -> Cpu
    decreases n,
{
    if n == 0 {
        c
    } else {
        pushed(push_n(c, (n - 1) as nat))
    }
}

/// The hart after `n` `pop_off`s.
pub open spec fn pop_n(c: Cpu, n: nat) -> Cpu
    decreases n,
{
    if n == 0 {
        c
    } else {
        pop_n(popped(c), (n - 1) as nat)
    }
}

/// Two hart states that differ at most in what the nesting counter keeps
/// only while it is positive: the saved enable flag, once the counter is
/// back at zero, and the interrupt sources that re-enabling unmasked.
pub open spec fn same_nesting(a: Cpu, b: Cpu) -> bool {
    &&& a.proc == b.proc
    &&& a.scheduler == b.scheduler
    &&& a.noff == b.noff
    &&& a.sstatus == b.sstatus
    &&& a.noff > 0 ==> a.intena == b.intena
}

proof fn lemma_push_n(c: Cpu, n: nat)
    requires
        c.inv(),
        c.noff + n <= i32::MAX,
    ensures
        n > 0 ==> push_n(c, n) == (Cpu {
            sstatus: sstatus_off(c.sstatus),
            intena: if c.noff == 0 { intr_enabled(c.sstatus) } else { c.intena },
            noff: (c.noff + n) as i32,
            ..c
        }),
    decreases n,
{
    reveal_with_fuel(push_n, 2);
    lemma_sstatus_bits(c.sstatus);
    if n > 1 {
        lemma_push_n(c, (n - 1) as nat);
        lemma_sstatus_bits(sstatus_off(c.sstatus));
    }
}

proof fn lemma_pop_n(d: Cpu, k: nat)
    requires
        k < d.noff,
    ensures
        pop_n(d, k) == (Cpu { noff: (d.noff - k) as i32, ..d }),
    decreases k,
{
    if k > 0 {
        lemma_pop_n(popped(d), (k - 1) as nat);
    }
}

/// For every `n`, `n` `push_off`s followed by `n` `pop_off`s give back the
/// hart's exact `sstatus`, and so its interrupt-enabled state, and its
/// nesting depth; interrupts are masked at every point strictly between the
/// first `push_off` and the last `pop_off`.
pub proof fn lemma_nesting_symmetry(c: Cpu, n: nat)
    requires
        c.inv(),
        n > 0,
        c.noff + n <= i32::MAX,
    ensures
        pop_n(push_n(c, n), n).sstatus == c.sstatus,
        intr_enabled(pop_n(push_n(c, n), n).sstatus) == intr_enabled(c.sstatus),
        pop_n(push_n(c, n), n).noff == c.noff,
        forall|k: nat| 0 < k <= n ==> !intr_enabled(#[trigger] push_n(c, k).sstatus),
        forall|k: nat| k < n ==> !intr_enabled(#[trigger] pop_n(push_n(c, n), k).sstatus),
{
    lemma_sstatus_bits(c.sstatus);
    lemma_push_n(c, n);
    let d = push_n(c, n);
    assert forall|k: nat| 0 < k <= n implies !intr_enabled(#[trigger] push_n(c, k).sstatus) by {
        lemma_push_n(c, k);
    }
    assert forall|k: nat| k < n implies !intr_enabled(#[trigger] pop_n(d, k).sstatus) by {
        lemma_pop_n(d, k);
    }
    lemma_pop_n(d, (n - 1) as nat);
    lemma_pop_n_split(d, (n - 1) as nat);
}

proof fn lemma_pop_n_split(d: Cpu, k: nat)
    ensures
        pop_n(d, k + 1) == popped(pop_n(d, k)),
    decreases k,
{
    reveal_with_fuel(pop_n, 2);
    if k > 0 {
        lemma_pop_n_split(popped(d), (k - 1) as nat);
        assert(pop_n(d, k) == pop_n(popped(d), (k - 1) as nat));
        assert(pop_n(d, k + 1) == pop_n(popped(d), k));
    }
}

/// One `push_off` followed by one `pop_off` leaves the hart as it was, up to
/// the bookkeeping that only matters while interrupts are pushed off.
pub proof fn lemma_push_pop(c: Cpu)
    requires
        c.inv(),
        c.noff < i32::MAX,
    ensures
        same_nesting(c, popped(pushed(c))),
        popped(pushed(c)).inv(),
{
    reveal_with_fuel(push_n, 2);
    reveal_with_fuel(pop_n, 2);
    lemma_nesting_symmetry(c, 1);
    assert(push_n(c, 1) == pushed(c));
    assert(pop_n(pushed(c), 1) == popped(pushed(c)));
}

/// All harts of the machine, and the thread-pointer register of the hart now
/// executing, which holds that hart's id.
pub struct Cpus {
    pub harts: Vec<Cpu>,
    pub tp: u64,
}

impl Cpus {
    /// One record per hart, each keeping its invariant.
    pub open spec fn wf(self) -> bool {
        &&& self.harts@.len() == NCPU
        &&& forall|h: int| 0 <= h < NCPU ==> (#[trigger] self.harts@[h]).inv()
    }

    /// The executing hart has a record.
    pub open spec fn valid(self) -> bool {
        self.tp < NCPU
    }

    /// The record of the executing hart.
    pub open spec fn cur(self) -> Cpu {
        self.harts@[self.tp as int]
    }

    /// `new` is `self` with the executing hart's record replaced by `c`.
    pub open spec fn with_cur(self, new: Cpus, c: Cpu) -> bool {
        &&& new.tp == self.tp
        &&& new.harts@ == self.harts@.update(self.tp as int, c)
    }

    /// `new` is `self` up to nesting bookkeeping of the executing hart.
    pub open spec fn restored(self, new: Cpus) -> bool {
        &&& new.tp == self.tp
        &&& new.harts@.len() == self.harts@.len()
        &&& forall|h: int| 0 <= h < self.harts@.len() && h != self.tp ==> new.harts@[h] == self.harts@[h]
        &&& same_nesting(self.cur(), new.cur())
    }

    /// All harts at boot, with hart 0 executing.
    pub fn new() -> (r: Cpus)
        ensures
            r.wf(),
            r.tp == 0,
            forall|h: int| 0 <= h < NCPU ==> #[trigger] r.harts@[h] == Cpu::boot(),
    {
        let mut harts: Vec<Cpu> = Vec::new();
        let mut i: usize = 0;
        while i < NCPU
            invariant
                i <= NCPU,
                harts@.len() == i,
                forall|h: int| 0 <= h < i ==> #[trigger] harts@[h] == Cpu::boot(),
            decreases NCPU - i,
        {
            harts.push(Cpu::new());
            i = i + 1;
        }
        Cpus { harts, tp: 0 }
    }

    /// Hands execution to another hart: writes its id to the thread pointer.
    pub fn set_hart(&mut self, hart: u64)
        ensures
            final(self).tp == hart,
            final(self).harts@ == old(self).harts@,
    {
        self.tp = hart;
    }

    /// The id of the executing hart. Meaningful only with interrupts masked,
    /// so that the process is not moved to another hart meanwhile.
    pub fn cpuid(&self) -> (r: u64)
        ensures
            r == self.tp,
    {
        self.tp
    }

    /// The index of the executing hart's record, or `CpuIndexErr` when the
    /// thread pointer names no hart.
    pub fn mycpu(&self) -> (r: Result<usize, StateErr>)
        ensures
            self.valid() ==> r == Ok::<usize, StateErr>(self.tp as usize),
            !self.valid() ==> r == Err::<usize, StateErr>(StateErr::CpuIndexErr),
    {
        let id = self.cpuid();
        if id < NCPU as u64 {
            Ok(id as usize)
        } else {
            Err(StateErr::CpuIndexErr)
        }
    }

    /// Records the process that the executing hart runs.
    pub fn set_proc(&mut self, p: Option<usize>)
        requires
            old(self).wf(),
            old(self).valid(),
        ensures
            final(self).wf(),
            old(self).with_cur(*final(self), Cpu { proc: p, ..old(self).cur() }),
    {
        let id = self.tp as usize;
        let mut c = self.harts[id];
        c.proc = p;
        self.harts.set(id, c);
    }

    /// Whether device interrupts are enabled on the executing hart.
    pub fn intr_get(&self) -> (r: bool)
        requires
            self.wf(),
            self.valid(),
        ensures
            r == intr_enabled(self.cur().sstatus),
    {
        get(self.harts[self.tp as usize].sstatus)
    }

    /// Enables device interrupts on the executing hart, which must hold no
    /// spin lock.
    pub fn intr_on(&mut self)
        requires
            old(self).wf(),
            old(self).valid(),
            old(self).cur().noff == 0,
        ensures
            final(self).wf(),
            old(self).with_cur(*final(self), Cpu {
                sstatus: sstatus_on(old(self).cur().sstatus),
                sie: sie_on(old(self).cur().sie),
                ..old(self).cur()
            }),
    {
        let id = self.tp as usize;
        let mut c = self.harts[id];
        let (sie, sstatus) = on(c.sie, c.sstatus);
        c.sie = sie;
        c.sstatus = sstatus;
        self.harts.set(id, c);
    }

    /// Masks interrupts on the executing hart, remembering at the outermost
    /// level whether they were enabled.
    pub fn push_off(&mut self)
        requires
            old(self).wf(),
            old(self).valid(),
            old(self).cur().noff < i32::MAX,
        ensures
            final(self).wf(),
            old(self).with_cur(*final(self), pushed(old(self).cur())),
            !intr_enabled(final(self).cur().sstatus),
    {
        let id = self.tp as usize;
        let mut c = self.harts[id];
        let old_on = get(c.sstatus);
        c.sstatus = off(c.sstatus);
        if c.noff == 0 {
            c.intena = old_on;
        }
        c.noff = c.noff + 1;
        self.harts.set(id, c);
    }

    /// Undoes one `push_off`; interrupts come back on when the outermost
    /// level is left and they were on before it.
    pub fn pop_off(&mut self)
        requires
            old(self).wf(),
            old(self).valid(),
            old(self).cur().noff >= 1,
        ensures
            final(self).wf(),
            old(self).with_cur(*final(self), popped(old(self).cur())),
    {
        let id = self.tp as usize;
        let mut c = self.harts[id];
        c.noff = c.noff - 1;
        if c.noff == 0 && c.intena {
            let (sie, sstatus) = on(c.sie, c.sstatus);
            c.sie = sie;
            c.sstatus = sstatus;
        }
        self.harts.set(id, c);
    }
}

} // verus!
