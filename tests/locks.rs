use roton::cpu::Cpus;
use roton::proc::{ProcState, State, StateErr};
use roton::riscv::get;
use roton::sleeplock::SleepLock;
use roton::spinlock::SpinLock;

fn intr(cpus: &Cpus) -> bool {
    get(cpus.harts[cpus.tp as usize].sstatus)
}

#[test]
fn spin_round_trip() {
    let mut cpus = Cpus::new();
    cpus.intr_on();
    let before = cpus.harts[0];
    let mut l = SpinLock::new("l", 7);
    assert!(l.acquire(&mut cpus));
    assert!(l.locked);
    assert_eq!(l.cpu, Some(0));
    assert!(l.holding(&cpus));
    assert!(!intr(&cpus));
    l.release(&mut cpus);
    assert!(!l.locked);
    assert_eq!(l.cpu, None);
    assert_eq!(l.id, 7);
    assert!(!l.holding(&cpus));
    assert_eq!(cpus.harts[0].noff, before.noff);
    assert_eq!(cpus.harts[0].sstatus, before.sstatus);
    assert!(intr(&cpus));
}

#[test]
fn spin_mutual_exclusion() {
    let mut cpus = Cpus::new();
    let mut l = SpinLock::new("l", 3);
    assert!(l.acquire(&mut cpus));
    cpus.set_hart(1);
    assert!(!l.acquire(&mut cpus));
    assert!(!l.holding(&cpus));
    assert!(!l.spin(&cpus));
    cpus.set_hart(0);
    assert!(l.holding(&cpus));
    l.release(&mut cpus);
    cpus.set_hart(1);
    assert!(l.spin(&cpus));
    assert!(l.holding(&cpus));
    cpus.set_hart(0);
    assert!(!l.holding(&cpus));
}

#[test]
fn spin_counter_interleaved() {
    let mut cpus = Cpus::new();
    let mut l = SpinLock::new("counter", 9);
    let mut counter: u64 = 0;
    for round in 0..100u64 {
        for hart in 0..4u64 {
            cpus.set_hart(hart);
            assert!(l.acquire(&mut cpus));
            let other = (hart + 1) % 4;
            cpus.set_hart(other);
            assert!(!l.holding(&cpus));
            cpus.set_hart(hart);
            counter += 1;
            l.release(&mut cpus);
        }
        assert_eq!(counter, (round + 1) * 4);
    }
    assert_eq!(counter, 400);
    for h in 0..8 {
        assert_eq!(cpus.harts[h].noff, 0);
    }
}

#[test]
fn acquire_again_is_detected() {
    let mut cpus = Cpus::new();
    let mut l = SpinLock::new("l", 4);
    assert!(l.acquire(&mut cpus));
    // the condition under which a second acquire by this hart is fatal
    assert!(l.holding(&cpus));
    cpus.set_hart(2);
    assert!(!l.holding(&cpus));
}

#[test]
fn nesting_symmetry_enabled() {
    let mut cpus = Cpus::new();
    cpus.intr_on();
    let before = cpus.harts[0].sstatus;
    for n in 1..6 {
        for _ in 0..n {
            cpus.push_off();
            assert!(!intr(&cpus));
        }
        for k in 0..n {
            assert!(!intr(&cpus));
            cpus.pop_off();
            if k + 1 < n {
                assert!(!intr(&cpus));
            }
        }
        assert_eq!(cpus.harts[0].sstatus, before);
        assert_eq!(cpus.harts[0].noff, 0);
        assert!(intr(&cpus));
    }
}

#[test]
fn nesting_symmetry_disabled() {
    let mut cpus = Cpus::new();
    let before = cpus.harts[0].sstatus;
    for _ in 0..3 {
        cpus.push_off();
    }
    for _ in 0..3 {
        cpus.pop_off();
    }
    assert_eq!(cpus.harts[0].sstatus, before);
    assert!(!intr(&cpus));
}

#[test]
fn cpu_index_out_of_range() {
    let mut cpus = Cpus::new();
    assert_eq!(cpus.mycpu(), Ok(0));
    cpus.set_hart(8);
    assert_eq!(cpus.mycpu(), Err(StateErr::CpuIndexErr));
    assert_eq!(cpus.cpuid(), 8);
}

fn run_on(os: &mut State, hart: u64) -> usize {
    os.cpus.set_hart(hart);
    let p = os.schedule_once().unwrap();
    os.resume();
    p
}

#[test]
fn sleep_lock_contention() {
    let mut os = State::new();
    let a = os.allocproc().unwrap();
    let b = os.allocproc().unwrap();
    let id = os.alloc_lock_id();
    let mut sl = SleepLock::new("disk", id);

    assert_eq!(run_on(&mut os, 0), a);
    assert_eq!(run_on(&mut os, 1), b);

    os.cpus.set_hart(0);
    assert!(sl.acquire(&mut os));
    assert!(sl.locked);
    assert_eq!(sl.pid, os.procs.0[a].pid);
    assert_eq!(os.procs.0[a].chan, None);
    assert_eq!(sl.lk.name, "sleep lock");
    assert!(sl.holding(&mut os));

    os.cpus.set_hart(1);
    assert!(!sl.acquire(&mut os));
    assert_eq!(os.procs.0[b].state, ProcState::Sleeping);
    assert_eq!(os.procs.0[b].chan, Some(id));
    assert_eq!(os.myproc(), Err(StateErr::ProcessDoesntExistErr));
    assert_eq!(os.schedule_once(), None);

    os.cpus.set_hart(0);
    sl.release(&mut os);
    assert!(!sl.locked);
    assert_eq!(sl.pid, 0);
    assert_eq!(os.procs.0[b].state, ProcState::Runnable);

    os.cpus.set_hart(1);
    assert_eq!(os.schedule_once(), Some(b));
    assert!(sl.resume_acquire(&mut os));
    assert_eq!(os.procs.0[b].chan, None);
    assert_eq!(sl.pid, os.procs.0[b].pid);
    assert!(sl.holding(&mut os));
    os.cpus.set_hart(0);
    assert!(!sl.holding(&mut os));
}

#[test]
fn sleep_lock_round_trip() {
    let mut os = State::new();
    let a = os.allocproc().unwrap();
    let mut sl = SleepLock::new("inode", 100);
    assert_eq!(run_on(&mut os, 0), a);
    let before = sl;
    assert!(sl.acquire(&mut os));
    sl.release(&mut os);
    assert_eq!(sl.locked, before.locked);
    assert_eq!(sl.pid, 0);
    assert_eq!(sl.lk.locked, before.lk.locked);
    assert_eq!(sl.lk.cpu, before.lk.cpu);
    assert_eq!(sl.lk.id, before.lk.id);
    assert_eq!(os.cpus.harts[0].noff, 0);
}
