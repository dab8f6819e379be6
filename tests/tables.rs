use roton::bio::Bcache;
use roton::buf::Buf;
use roton::cpu::{Context, Cpu, Cpus};
use roton::memlayout::TRAMPOLINE;
use roton::proc::{Proc, ProcState, State};

#[test]
fn buffer_is_empty() {
    let b = Buf::new(12);
    assert_eq!(b.data.len(), 1024);
    assert!(b.data.iter().all(|x| *x == 0));
    assert!(!b.valid);
    assert_eq!(b.refcnt, 0);
    assert_eq!(b.lock.lk.id, 12);
    assert!(!b.lock.locked);
    assert!(b.prev.is_none() && b.next.is_none() && b.qnext.is_none());
}

#[test]
fn cache_has_every_buffer() {
    let c = Bcache::new(200);
    assert_eq!(c.buf.len(), 30);
    assert_eq!(c.lock.id, 200);
    assert_eq!(c.buf[0].lock.lk.id, 201);
    assert_eq!(c.buf[29].lock.lk.id, 230);
    assert!(c.head.is_none());
}

#[test]
fn process_slot_at_boot() {
    let p = Proc::new(3);
    assert_eq!(p.state, ProcState::Unused);
    assert_eq!(p.lock.id, 4);
    assert_eq!(p.kstack, TRAMPOLINE - 8 * 4096);
    assert_eq!(p.pid, 0);
    assert_eq!(p.context, Context::new());
    assert_eq!(p.context.ra, 0);
}

#[test]
fn hart_at_boot() {
    let c = Cpu::new();
    assert_eq!(c.noff, 0);
    assert_eq!(c.proc, None);
    assert!(!c.intena);
    assert_eq!(c.sstatus, 0);
}

#[test]
fn kernel_nesting_counter() {
    let mut os = State::new();
    os.cpus.intr_on();
    assert!(os.cpus.intr_get());
    os.push_off();
    os.push_off();
    assert_eq!(os.cpus.harts[0].noff, 2);
    assert!(os.cpus.harts[0].intena);
    assert!(!os.cpus.intr_get());
    os.pop_off();
    assert!(!os.cpus.intr_get());
    os.pop_off();
    assert!(os.cpus.intr_get());
    assert_eq!(os.cpus.harts[0].noff, 0);
}

#[test]
fn nesting_per_hart() {
    let mut cpus = Cpus::new();
    cpus.push_off();
    cpus.set_hart(5);
    assert_eq!(cpus.harts[5].noff, 0);
    cpus.push_off();
    cpus.push_off();
    assert_eq!(cpus.harts[5].noff, 2);
    assert_eq!(cpus.harts[0].noff, 1);
    cpus.pop_off();
    cpus.pop_off();
    cpus.set_hart(0);
    cpus.pop_off();
    assert_eq!(cpus.harts[0].noff, 0);
}
