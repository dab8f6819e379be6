//! A pipe: a bounded byte buffer with a reader and a writer end.
use vstd::prelude::*;
use crate::spinlock::SpinLock;

verus! {

/// Bytes a pipe buffers.
pub const PIPESIZE: usize = 512;

/// The bytes of a pipe.
pub struct PipeData(pub Vec<u8>);

/// A pipe.
pub struct Pipe {
    pub spinlock: SpinLock,
    pub data: PipeData,
    /// Bytes read so far.
    pub nread: u32,
    /// Bytes written so far.
    pub nwrite: u32,
    /// Whether the read end is still open.
    pub readopen: i32,
    /// Whether the write end is still open.
    pub writeopen: i32,
}

} // verus!
