//! A verified model of the concurrency core of a small multi-hart RISC-V
//! teaching kernel: the per-hart interrupt-nesting counter, spin locks,
//! sleep locks, the process table with its state machine, the scheduler
//! step and the sleep/wakeup channel mechanism.
//!
//! Every hart is represented explicitly. The hart that executes an operation
//! is the one named by the modelled thread-pointer register (`Cpus::cpuid`);
//! each operation runs to completion before another hart takes a step.
use vstd::prelude::*;

pub mod param;
pub mod riscv;
pub mod memlayout;
pub mod cpu;
pub mod proc;
pub mod spinlock;
pub mod sleeplock;
pub mod buf;
pub mod bio;
pub mod file;
pub mod pipe;
