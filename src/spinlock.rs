//! Busy-wait mutual exclusion with interrupt-nesting bookkeeping.
//!
//! A lock is known by a small integer id given when it is made; two locks are
//! the same lock exactly when their ids are equal. The hart that holds a lock
//! is recorded only to detect self-deadlock and to answer `holding`.
use vstd::prelude::*;
use crate::cpu::{lemma_push_pop, popped, pushed, Cpus};
use crate::riscv::{intr_enabled, lock_release, lock_test_and_set};

verus! {

/// A spin lock.
#[derive(Clone, Copy, Debug)]
pub struct SpinLock {
    /// Identity of the lock.
    pub id: u64,
    /// Set by an atomic test-and-set while the lock is held.
    pub locked: bool,
    /// Diagnostic label.
    pub name: &'static str,
    /// The hart holding the lock; set only while `locked`.
    pub cpu: Option<u64>,
}

impl SpinLock {
    /// The owner is recorded exactly while the lock is held.
    pub open spec fn wf(self) -> bool {
        self.locked == self.cpu.is_some()
    }

    /// The lock is held by `hart`.
    pub open spec fn held_by(self, hart: u64) -> bool {
        self.locked && self.cpu == Some(hart)
    }

    /// The lock once `hart` has taken it.
    pub open spec fn acquired(self, hart: u64) -> SpinLock {
        SpinLock { locked: true, cpu: Some(hart), ..self }
    }

    /// The lock once its holder has let it go.
    pub open spec fn released(self) -> SpinLock {
        SpinLock { locked: false, cpu: None, ..self }
    }

    /// A free lock with the given label and identity.
    pub fn new(name: &'static str, id: u64) -> (r: SpinLock)
        ensures
            r.wf(),
            !r.locked,
            r.cpu.is_none(),
            r.name == name,
            r.id == id,
    {
        SpinLock { id, locked: false, name, cpu: None }
    }

    /// Masks interrupts on the executing hart, then makes one atomic
    /// test-and-set on the lock. Returns whether the lock was won; a hart that
    /// lost keeps interrupts masked and goes on with `spin` until it wins.
    ///
    /// Taking a lock that the executing hart already holds is a fatal error,
    /// and is ruled out by the precondition.
    pub fn acquire(&mut self, cpus: &mut Cpus) -> (won: bool)
        requires
            old(self).wf(),
            old(cpus).wf(),
            old(cpus).valid(),
            old(cpus).cur().noff < i32::MAX,
            !old(self).held_by(old(cpus).tp),
        ensures
            final(self).wf(),
            final(cpus).wf(),
            old(cpus).with_cur(*final(cpus), pushed(old(cpus).cur())),
            won == !old(self).locked,
            won ==> *final(self) == old(self).acquired(old(cpus).tp),
            !won ==> *final(self) == *old(self),
    {
        cpus.push_off();
        self.spin(cpus)
    }

    /// One more atomic test-and-set by a hart that lost the lock and spins on
    /// it with interrupts masked. Returns whether the lock was won.
    pub fn spin(&mut self, cpus: &Cpus) -> (won: bool)
        requires
            old(self).wf(),
            cpus.wf(),
            cpus.valid(),
            cpus.cur().noff > 0,
            !old(self).held_by(cpus.tp),
        ensures
            final(self).wf(),
            won == !old(self).locked,
            won ==> *final(self) == old(self).acquired(cpus.tp),
            !won ==> *final(self) == *old(self),
    {
        let won = !lock_test_and_set(&mut self.locked, true);
        if won {
            self.cpu = Some(cpus.cpuid());
        }
        won
    }

    /// Lets the lock go and undoes the `push_off` of its `acquire`.
    ///
    /// Releasing a lock that the executing hart does not hold is a fatal
    /// error, and is ruled out by the precondition.
    pub fn release(&mut self, cpus: &mut Cpus)
        requires
            old(self).wf(),
            old(cpus).wf(),
            old(cpus).valid(),
            old(cpus).cur().noff >= 1,
            old(self).held_by(old(cpus).tp),
        ensures
            final(self).wf(),
            final(cpus).wf(),
            *final(self) == old(self).released(),
            old(cpus).with_cur(*final(cpus), popped(old(cpus).cur())),
    {
        self.cpu = None;
        lock_release(&mut self.locked);
        cpus.pop_off();
    }

    /// Whether the executing hart holds the lock.
    pub fn holding(&self, cpus: &Cpus) -> (r: bool)
        ensures
            r == self.held_by(cpus.tp),
    {
        let me = cpus.cpuid();
        match self.cpu {
            Some(h) => self.locked && h == me,
            None => false,
        }
    }
}

/// At any moment at most one hart holds a lock.
pub proof fn lemma_mutual_exclusion(l: SpinLock, h1: u64, h2: u64)
    requires
        l.wf(),
    ensures
        l.held_by(h1) && l.held_by(h2) ==> h1 == h2,
{
}

/// A hart that has just won a lock holds it, so a second `acquire` by the
/// same hart without a `release` in between is the fatal self-deadlock and
/// never succeeds; any other hart's attempt loses.
pub proof fn lemma_no_reacquire(l: SpinLock, hart: u64, other: u64)
    requires
        l.wf(),
        !l.locked,
    ensures
        l.acquired(hart).wf(),
        l.acquired(hart).held_by(hart),
        other != hart ==> !l.acquired(hart).held_by(other),
        l.acquired(hart).locked,
{
}

/// `acquire` followed by `release` on a free lock gives back the lock exactly
/// as it was, and the executing hart's nesting depth and interrupt state.
pub proof fn lemma_spin_round_trip(l: SpinLock, cpus: Cpus, hart: u64)
    requires
        l.wf(),
        !l.locked,
        cpus.wf(),
        cpus.valid(),
        cpus.cur().noff < i32::MAX,
    ensures
        l.acquired(hart).released() == l,
        crate::cpu::same_nesting(cpus.cur(), popped(pushed(cpus.cur()))),
        intr_enabled(popped(pushed(cpus.cur())).sstatus) == intr_enabled(cpus.cur().sstatus),
{
    lemma_push_pop(cpus.cur());
}

} // verus!
