use roton::memlayout::{
    clint_mtimecmp, kstack, mclaim, menable, mpriority, sclaim, senable, spriority, TRAMPOLINE,
};
use roton::riscv::{get, make, off, on, pa2pte, pte2pa, pte_flags, px, pxshift, rounddown, roundup};

#[test]
fn roundup_to_page() {
    assert_eq!(roundup(0), 0);
    assert_eq!(roundup(1), 4096);
    assert_eq!(roundup(4096), 4096);
    assert_eq!(roundup(4097), 8192);
}

#[test]
fn rounddown_to_page() {
    assert_eq!(rounddown(0), 0);
    assert_eq!(rounddown(4095), 0);
    assert_eq!(rounddown(4097), 4096);
    assert_eq!(rounddown(u64::MAX), u64::MAX - 4095);
}

#[test]
fn pte_fields() {
    assert_eq!(pa2pte(0x8000_1000), 0x80001 << 10);
    assert_eq!(pte2pa(pa2pte(0x8000_1000)), 0x8000_1000);
    assert_eq!(pte2pa((0x80001 << 10) | 0x7), 0x8000_1000);
    assert_eq!(pte_flags((0x80001 << 10) | 0x1f), 0x1f);
}

#[test]
fn page_table_indices() {
    assert_eq!(pxshift(0), 12);
    assert_eq!(pxshift(2), 30);
    assert_eq!(pxshift(100), 912);
    assert_eq!(px(0, 0x1234_5000), 0x145);
    assert_eq!(px(1, 0x1234_5000), 0x91);
    assert_eq!(px(2, 0x4000_0000), 1);
}

#[test]
fn satp_value() {
    assert_eq!(make(0x8000_0000), (8u64 << 60) | 0x80000);
}

#[test]
fn interrupt_bits() {
    assert!(get(0x2));
    assert!(!get(0x1));
    assert_eq!(off(0x23), 0x21);
    assert_eq!(off(0x21), 0x21);
    assert_eq!(on(0, 0x20), (0x222, 0x22));
    assert!(get(on(0, 0).1));
}

#[test]
fn device_addresses() {
    assert_eq!(clint_mtimecmp(0), 0x2000_4000);
    assert_eq!(clint_mtimecmp(3), 0x2000_4018);
    assert_eq!(menable(1), 0x0c00_2100);
    assert_eq!(senable(1), 0x0c00_2180);
    assert_eq!(mpriority(1), 0x0c20_2000);
    assert_eq!(spriority(1), 0x0c20_3000);
    assert_eq!(mclaim(1), 0x0c20_2004);
    assert_eq!(sclaim(1), 0x0c20_3004);
}

#[test]
fn kernel_stacks() {
    assert_eq!(TRAMPOLINE, (1u64 << 38) - 4096);
    assert_eq!(kstack(0), TRAMPOLINE - 2 * 4096);
    assert_eq!(kstack(1), TRAMPOLINE - 4 * 4096);
}
