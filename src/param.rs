//! Compile-time sizes of the kernel's fixed tables.
use vstd::prelude::*;

verus! {

/// Number of harts the kernel supports.
pub const NCPU: usize = 8;

/// Capacity of the process table.
pub const NPROC: usize = 64;

/// Open files per process.
pub const NOFILE: usize = 16;

/// Buffers held by the block cache.
pub const NBUF: usize = 30;

/// Size of a disk block in bytes.
pub const BSIZE: usize = 1024;

/// Direct block addresses held by an inode.
pub const NDIRECT: usize = 12;

} // verus!
