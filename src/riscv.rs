//! Register-level arithmetic of the RISC-V machine: page rounding, page-table
//! entry fields, Sv39 index extraction, the `satp` value, the bits of the
//! interrupt-enable registers, and the two atomic memory operations that the
//! spin lock is built on.
//!
//! Control and status registers are held as plain `u64` values; the functions
//! here compute what the kernel reads from or writes to them.
use vstd::prelude::*;

verus! {

/// Bytes per page.
pub const PGSIZE: u64 = 4096;

/// Bits of offset within a page.
pub const PGSHIFT: u64 = 12;

/// Page-table entry flag: valid.
pub const PTE_V: u64 = 1;

/// Page-table entry flag: readable.
pub const PTE_R: u64 = 2;

/// Page-table entry flag: writable.
pub const PTE_W: u64 = 4;

/// Page-table entry flag: executable.
pub const PTE_X: u64 = 8;

/// Page-table entry flag: reachable from user mode.
pub const PTE_U: u64 = 16;

/// Mask of one 9-bit page-table index.
pub const PXMASK: u64 = 0x1ff;

/// One beyond the highest virtual address: one bit less than Sv39 allows,
/// so that no address needs sign extension.
pub const MAXVA: u64 = 0x40_0000_0000;

/// `satp` mode field selecting Sv39 translation.
pub const SATP_SV39: u64 = 0x8000_0000_0000_0000;

/// `sstatus` bit: supervisor interrupts enabled.
pub const SSTATUS_SIE: u64 = 2;

/// `sie` bit: supervisor external interrupts.
pub const SIE_SEIE: u64 = 0x200;

/// `sie` bit: supervisor timer interrupts.
pub const SIE_STIE: u64 = 0x20;

/// `sie` bit: supervisor software interrupts.
pub const SIE_SSIE: u64 = 2;

/// Whether an `sstatus` value has device interrupts enabled.
pub open spec fn intr_enabled(sstatus: u64) -> bool {
    sstatus & SSTATUS_SIE != 0
}

/// The `sstatus` value with device interrupts masked.
pub open spec fn sstatus_off(sstatus: u64) -> u64 {
    sstatus & !SSTATUS_SIE
}

/// The `sstatus` value with device interrupts enabled.
pub open spec fn sstatus_on(sstatus: u64) -> u64 {
    sstatus | SSTATUS_SIE
}

/// The `sie` value with external, timer and software interrupts enabled.
pub open spec fn sie_on(sie: u64) -> u64 {
    sie | SIE_SEIE | SIE_STIE | SIE_SSIE
}

/// Masking interrupts leaves them disabled, and enabling them leaves them
/// enabled.
pub proof fn lemma_sstatus_bits(x: u64)
    ensures
        !intr_enabled(sstatus_off(x)),
        intr_enabled(sstatus_on(x)),
        intr_enabled(x) ==> sstatus_on(sstatus_off(x)) == x,
        !intr_enabled(x) ==> sstatus_off(x) == x,
{
    assert(!(x & !2u64 & 2u64 != 0)) by (bit_vector);
    assert((x | 2u64) & 2u64 != 0) by (bit_vector);
    assert(x & 2u64 != 0 ==> (x & !2u64) | 2u64 == x) by (bit_vector);
    assert(x & 2u64 == 0 ==> x & !2u64 == x) by (bit_vector);
}

/// Reads the device-interrupt flag out of an `sstatus` value.
pub fn get(sstatus: u64) -> (r: bool)
    ensures
        r == intr_enabled(sstatus),
{
    sstatus & SSTATUS_SIE != 0
}

/// The `sstatus` value that disables device interrupts.
pub fn off(sstatus: u64) -> (r: u64)
    ensures
        r == sstatus_off(sstatus),
        !intr_enabled(r),
{
    proof {
        lemma_sstatus_bits(sstatus);
    }
    sstatus & !SSTATUS_SIE
}

/// The `(sie, sstatus)` values that enable device interrupts: every
/// supervisor interrupt source is unmasked and the global enable bit is set.
pub fn on(sie: u64, sstatus: u64) -> (r: (u64, u64))
    ensures
        r.0 == sie_on(sie),
        r.1 == sstatus_on(sstatus),
        intr_enabled(r.1),
{
    proof {
        lemma_sstatus_bits(sstatus);
    }
    (sie | SIE_SEIE | SIE_STIE | SIE_SSIE, sstatus | SSTATUS_SIE)
}

/// Rounds a size up to the next page boundary.
pub fn roundup(sz: u64) -> (r: u64)
    requires
        sz + PGSIZE - 1 <= u64::MAX,
    ensures
        r == (sz + PGSIZE - 1) as u64 & !0xfffu64,
        r % PGSIZE == 0,
        sz <= r,
        r < sz + PGSIZE,
{
    let x: u64 = sz + (PGSIZE - 1);
    let r = x & !(PGSIZE - 1);
    assert(x & !4095u64 <= x && x - (x & !4095u64) < 4096 && (x & !4095u64) % 4096 == 0)
        by (bit_vector);
    r
}

/// Rounds an address down to the start of its page.
pub fn rounddown(a: u64) -> (r: u64)
    ensures
        r == a & !0xfffu64,
        r % PGSIZE == 0,
        r <= a,
        a - r < PGSIZE,
{
    let r = a & !(PGSIZE - 1);
    assert(a & !4095u64 <= a && a - (a & !4095u64) < 4096 && (a & !4095u64) % 4096 == 0)
        by (bit_vector);
    r
}

/// Places a physical page number where a page-table entry keeps it.
pub fn pa2pte(pa: u64) -> (r: u64)
    ensures
        r == (pa >> 12u64) << 10u64,
{
    (pa >> 12) << 10
}

/// The physical address that a page-table entry points to.
pub fn pte2pa(pte: u64) -> (r: u64)
    ensures
        r == (pte >> 10u64) << 12u64,
{
    (pte >> 10) << 12
}

/// The ten flag bits of a page-table entry.
pub fn pte_flags(pte: u64) -> (r: u64)
    ensures
        r == pte & 0x3ff,
        r < 1024,
{
    let r = pte & 0x3FF;
    assert(pte & 0x3ffu64 <= 0x3ffu64) by (bit_vector);
    r
}

/// Bit position of the page-table index of a level.
pub fn pxshift(level: u64) -> (r: u64)
    requires
        PGSHIFT + 9 * level <= u64::MAX,
    ensures
        r == PGSHIFT + 9 * level,
{
    PGSHIFT + 9 * level
}

/// The 9-bit page-table index of a virtual address at a level.
pub fn px(level: u64, va: u64) -> (r: u64)
    requires
        level <= 5,
    ensures
        r == (va >> (PGSHIFT + 9 * level) as u64) & PXMASK,
        r <= PXMASK,
{
    let s = pxshift(level);
    let r = (va >> s) & PXMASK;
    assert((va >> s) & 0x1ffu64 <= 0x1ffu64) by (bit_vector);
    r
}

/// The `satp` value that selects Sv39 translation with the page table at a
/// physical address.
pub fn make(pagetable: u64) -> (r: u64)
    ensures
        r == SATP_SV39 | (pagetable >> 12u64),
{
    SATP_SV39 | (pagetable >> 12)
}

/// Atomic swap: stores `value` and returns what the location held before.
pub fn lock_test_and_set(p: &mut bool, value: bool) -> (r: bool)
    ensures
        r == *old(p),
        *final(p) == value,
{
    let prev = *p;
    *p = value;
    prev
}

/// Release store: clears a lock word.
pub fn lock_release(p: &mut bool)
    ensures
        *final(p) == false,
{
    *p = false;
}

} // verus!
