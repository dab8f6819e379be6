//! The physical memory layout of the machine and the kernel's virtual layout:
//! device register addresses and the place of each kernel stack.
use vstd::prelude::*;
use crate::riscv::{MAXVA, PGSIZE};

verus! {

/// UART registers.
pub const UART0: u64 = 0x1000_0000;

/// Interrupt number of the UART.
pub const UART0_IRQ: u32 = 10;

/// Virtio MMIO disk interface.
pub const VIRTIO0: u64 = 0x1000_1000;

/// Interrupt number of the virtio disk.
pub const VIRTIO0_IRQ: u32 = 1;

/// Core-local interruptor, which holds the timer.
pub const CLINT: u64 = 0x2000_0000;

/// Cycles since boot.
pub const CLINT_MTIME: u64 = CLINT + 0xBFF8;

/// Platform-level interrupt controller.
pub const PLIC: u64 = 0x0c00_0000;

/// Interrupt source priorities.
pub const PLIC_PRIORITY: u64 = PLIC;

/// Pending interrupt bits.
pub const PLIC_PENDING: u64 = PLIC + 0x1000;

/// Start of the RAM that the kernel uses.
pub const KERNBASE: u64 = 0x8000_0000;

/// End of the RAM that the kernel uses.
pub const PHYSTOP: u64 = KERNBASE + 128 * 1024 * 1024;

/// The trampoline page, mapped at the highest address in both user and
/// kernel space.
pub const TRAMPOLINE: u64 = MAXVA - PGSIZE;

/// The trap frame page of a user process, just below the trampoline.
pub const TRAPFRAME: u64 = TRAMPOLINE - PGSIZE;

/// Timer compare register of a hart.
pub fn clint_mtimecmp(hartid: u64) -> (r: u64)
    requires
        CLINT + 0x4000 + 8 * hartid <= u64::MAX,
    ensures
        r == CLINT + 0x4000 + 8 * hartid,
{
    CLINT + 0x4000 + 8 * hartid
}

/// Machine-mode enable bits of a hart.
pub fn menable(hart: u64) -> (r: u64)
    requires
        PLIC + 0x2000 + hart * 0x100 <= u64::MAX,
    ensures
        r == PLIC + 0x2000 + hart * 0x100,
{
    PLIC + 0x2000 + hart * 0x100
}

/// Supervisor-mode enable bits of a hart.
pub fn senable(hart: u64) -> (r: u64)
    requires
        PLIC + 0x2080 + hart * 0x100 <= u64::MAX,
    ensures
        r == PLIC + 0x2080 + hart * 0x100,
{
    PLIC + 0x2080 + hart * 0x100
}

/// Machine-mode priority threshold of a hart.
pub fn mpriority(hart: u64) -> (r: u64)
    requires
        PLIC + 0x200000 + hart * 0x2000 <= u64::MAX,
    ensures
        r == PLIC + 0x200000 + hart * 0x2000,
{
    PLIC + 0x200000 + hart * 0x2000
}

/// Supervisor-mode priority threshold of a hart.
pub fn spriority(hart: u64) -> (r: u64)
    requires
        PLIC + 0x201000 + hart * 0x2000 <= u64::MAX,
    ensures
        r == PLIC + 0x201000 + hart * 0x2000,
{
    PLIC + 0x201000 + hart * 0x2000
}

/// Machine-mode claim register of a hart.
pub fn mclaim(hart: u64) -> (r: u64)
    requires
        PLIC + 0x200004 + hart * 0x2000 <= u64::MAX,
    ensures
        r == PLIC + 0x200004 + hart * 0x2000,
{
    PLIC + 0x200004 + hart * 0x2000
}

/// Supervisor-mode claim register of a hart.
pub fn sclaim(hart: u64) -> (r: u64)
    requires
        PLIC + 0x201004 + hart * 0x2000 <= u64::MAX,
    ensures
        r == PLIC + 0x201004 + hart * 0x2000,
{
    PLIC + 0x201004 + hart * 0x2000
}

/// Top of the kernel stack of process slot `p`: the stacks lie beneath the
/// trampoline, each followed by an unmapped guard page.
pub fn kstack(p: u64) -> (r: u64)
    requires
        (p + 1) * 2 * PGSIZE <= TRAMPOLINE,
    ensures
        r == TRAMPOLINE - (p + 1) * 2 * PGSIZE,
{
    TRAMPOLINE - (p + 1) * 2 * PGSIZE
}

} // verus!
