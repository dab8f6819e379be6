use roton::proc::{ProcState, State, StateErr};
use roton::spinlock::SpinLock;

fn run_on(os: &mut State, hart: u64) -> usize {
    os.cpus.set_hart(hart);
    let p = os.schedule_once().unwrap();
    os.resume();
    p
}

#[test]
fn boot_state() {
    let os = State::new();
    assert_eq!(os.nextpid, 1);
    assert_eq!(os.procs.0.len(), 64);
    assert_eq!(os.cpus.harts.len(), 8);
    assert!(os.procs.0.iter().all(|p| p.state == ProcState::Unused));
    assert_eq!(os.procs.0[5].lock.id, 6);
    assert_eq!(os.pid_lock.id, 0);
    assert_eq!(os.myproc(), Err(StateErr::ProcessDoesntExistErr));
    assert_eq!(os.mycpu(), Ok(0));
}

#[test]
fn pids_are_increasing() {
    let mut os = State::new();
    assert_eq!(os.allocpid(), 2);
    assert_eq!(os.allocpid(), 3);
    assert_eq!(os.nextpid, 3);
    assert!(!os.pid_lock.locked);
}

#[test]
fn allocate_until_full() {
    let mut os = State::new();
    for i in 0..64 {
        assert_eq!(os.allocproc(), Ok(i));
        assert_eq!(os.procs.0[i].state, ProcState::Runnable);
        assert_eq!(os.procs.0[i].pid, i as i32 + 2);
    }
    assert_eq!(os.allocproc(), Err(StateErr::NoFreeSlot));
    assert_eq!(os.nextpid, 65);
}

#[test]
fn no_runnable_process() {
    let mut os = State::new();
    assert_eq!(os.schedule_once(), None);
    assert_eq!(os.cpus.harts[0].noff, 0);
    assert!(roton::riscv::get(os.cpus.harts[0].sstatus));
}

#[test]
fn scheduler_picks_first_runnable() {
    let mut os = State::new();
    os.allocproc().unwrap();
    os.allocproc().unwrap();
    assert_eq!(os.schedule_once(), Some(0));
    assert_eq!(os.procs.0[0].state, ProcState::Running);
    assert!(os.procs.0[0].lock.locked);
    assert_eq!(os.procs.0[0].lock.cpu, Some(0));
    assert_eq!(os.cpus.harts[0].proc, Some(0));
    assert_eq!(os.cpus.harts[0].noff, 1);
    os.resume();
    assert!(!os.procs.0[0].lock.locked);
    assert_eq!(os.myproc(), Ok(0));
    assert_eq!(run_on(&mut os, 1), 1);
}

#[test]
fn yield_and_run_again() {
    let mut os = State::new();
    let a = os.allocproc().unwrap();
    assert_eq!(run_on(&mut os, 0), a);
    os.yield_cpu();
    assert_eq!(os.procs.0[a].state, ProcState::Runnable);
    assert_eq!(os.cpus.harts[0].proc, None);
    assert_eq!(os.cpus.harts[0].noff, 0);
    assert_eq!(run_on(&mut os, 3), a);
    assert_eq!(os.procs.0[a].state, ProcState::Running);
}

#[test]
fn no_lost_wakeup() {
    let mut os = State::new();
    let p = os.allocproc().unwrap();
    let id = os.alloc_lock_id();
    let mut lk = SpinLock::new("cond", id);
    assert_eq!(run_on(&mut os, 0), p);
    assert!(lk.acquire(&mut os.cpus));
    os.sleep(42, &mut lk);
    assert!(!lk.locked);
    assert_eq!(os.procs.0[p].state, ProcState::Sleeping);
    assert_eq!(os.procs.0[p].chan, Some(42));
    assert!(!os.procs.0[p].lock.locked);
    assert_eq!(os.schedule_once(), None);

    os.cpus.set_hart(1);
    os.wakeup(42);
    assert_eq!(os.procs.0[p].state, ProcState::Runnable);
    os.wakeup(42);
    assert_eq!(os.procs.0[p].state, ProcState::Runnable);

    assert_eq!(os.schedule_once(), Some(p));
    os.resume();
    assert_eq!(os.procs.0[p].chan, None);
    assert!(lk.acquire(&mut os.cpus));
    assert!(lk.holding(&os.cpus));
    os.cpus.set_hart(2);
    assert_eq!(os.schedule_once(), None);
}

#[test]
fn wakeup_selectivity() {
    let mut os = State::new();
    let id = os.alloc_lock_id();
    let mut lk = SpinLock::new("cond", id);
    for _ in 0..3 {
        os.allocproc().unwrap();
    }
    for chan in 1..=3u64 {
        let p = run_on(&mut os, 0);
        assert_eq!(p, (chan - 1) as usize);
        assert!(lk.acquire(&mut os.cpus));
        os.sleep(chan, &mut lk);
    }
    os.wakeup(2);
    assert_eq!(os.procs.0[0].state, ProcState::Sleeping);
    assert_eq!(os.procs.0[0].chan, Some(1));
    assert_eq!(os.procs.0[1].state, ProcState::Runnable);
    assert_eq!(os.procs.0[2].state, ProcState::Sleeping);
    assert_eq!(os.procs.0[2].chan, Some(3));
}

#[test]
fn wakeup_ignores_other_states() {
    let mut os = State::new();
    os.allocproc().unwrap();
    os.wakeup(0);
    assert_eq!(os.procs.0[0].state, ProcState::Runnable);
    assert_eq!(os.procs.0[1].state, ProcState::Unused);
}

#[test]
fn zombie_is_reaped() {
    let mut os = State::new();
    let p = os.allocproc().unwrap();
    assert!(!os.reap(p));
    assert_eq!(run_on(&mut os, 0), p);
    os.mark_zombie(3);
    assert_eq!(os.procs.0[p].state, ProcState::Zombie);
    assert_eq!(os.procs.0[p].xstate, 3);
    assert_eq!(os.cpus.harts[0].proc, None);
    assert!(os.reap(p));
    assert_eq!(os.procs.0[p].state, ProcState::Unused);
    assert_eq!(os.procs.0[p].pid, 0);
    assert_eq!(os.allocproc(), Ok(p));
}

#[test]
fn lock_ids_are_fresh() {
    let mut os = State::new();
    let a = os.alloc_lock_id();
    let b = os.alloc_lock_id();
    assert_eq!(a, 65);
    assert_eq!(b, 66);
}

#[test]
fn pid_lock_label() {
    let os = State::new();
    assert_eq!(os.pid_lock.name, "nexPid");
    assert_eq!(os.pid_lock.cpu, None);
}

#[test]
fn sleep_returns_holding_lk() {
    let mut os = State::new();
    let p = os.allocproc().unwrap();
    let mut lk = SpinLock::new("cond", os.alloc_lock_id());
    assert_eq!(run_on(&mut os, 0), p);
    assert!(lk.acquire(&mut os.cpus));
    os.sleep(7, &mut lk);
    os.cpus.set_hart(2);
    os.wakeup(7);
    assert_eq!(os.schedule_once(), Some(p));
    os.sleep_return(&mut lk);
    assert!(lk.holding(&os.cpus));
    assert_eq!(os.procs.0[p].chan, None);
    assert!(!os.procs.0[p].lock.locked);
    assert_eq!(os.cpus.harts[2].noff, 1);
    lk.release(&mut os.cpus);
    assert_eq!(os.cpus.harts[2].noff, 0);
}

#[test]
fn sleep_on_own_lock() {
    let mut os = State::new();
    let p = os.allocproc().unwrap();
    os.allocproc().unwrap();
    assert_eq!(os.schedule_once(), Some(p));
    // the process keeps the lock the scheduler took and sleeps under it
    os.sleep_own(9);
    assert_eq!(os.procs.0[p].state, ProcState::Sleeping);
    assert_eq!(os.procs.0[p].chan, Some(9));
    assert!(!os.procs.0[p].lock.locked);
    assert_eq!(os.cpus.harts[0].proc, None);
    os.cpus.set_hart(1);
    os.wakeup(9);
    assert_eq!(os.procs.0[p].state, ProcState::Runnable);
    assert_eq!(os.schedule_once(), Some(p));
    os.resume_own();
    assert_eq!(os.procs.0[p].chan, None);
    assert!(os.procs.0[p].lock.locked);
    assert_eq!(os.procs.0[p].lock.cpu, Some(1));
    os.resume();
    assert!(!os.procs.0[p].lock.locked);
}

#[test]
fn wakeup1_wakes_only_own_channel() {
    let mut os = State::new();
    let mut p = os.procs.0[4];
    p.state = ProcState::Sleeping;
    p.chan = Some(p.lock.id);
    assert!(p.lock.acquire(&mut os.cpus));
    let mut q = p;
    q.chan = Some(p.lock.id + 1);
    q.wakeup1(&os.cpus);
    assert_eq!(q.state, ProcState::Sleeping);
    p.wakeup1(&os.cpus);
    assert_eq!(p.state, ProcState::Runnable);
    let mut z = p;
    z.state = ProcState::Zombie;
    z.wakeup1(&os.cpus);
    assert_eq!(z.state, ProcState::Zombie);
    p.lock.release(&mut os.cpus);
}
