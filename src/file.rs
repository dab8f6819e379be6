//! Open files and in-memory inodes, as the process table refers to them.
use vstd::prelude::*;
use crate::param::NDIRECT;
use crate::sleeplock::SleepLock;

verus! {

/// What an open file refers to.
#[derive(Clone, Copy, Debug, PartialEq, Eq, Structural)]
pub enum FileType {
    FdNode,
    FdPipe,
    FdInode,
    FdDevice,
}

/// An open file.
#[derive(Clone, Copy, Debug)]
pub struct File {
    pub tp: Option<FileType>,
    /// Reference count.
    pub refc: i32,
    pub readable: bool,
    pub writable: bool,
    /// Slot of the pipe, for `FdPipe`.
    pub pipe: Option<usize>,
    /// Slot of the inode, for `FdInode` and `FdDevice`.
    pub ip: Option<usize>,
    /// Read/write offset, for `FdInode`.
    pub off: u32,
    /// Device number, for `FdDevice`.
    pub major: i16,
}

/// A process's open files, indexed by file descriptor.
pub struct OpenFileBufferes(pub Vec<File>);

/// The in-memory copy of an inode.
pub struct Inode {
    /// Device number.
    pub dev: u32,
    /// Inode number.
    pub inum: u32,
    /// Reference count.
    pub refc: i32,
    /// Guards every field below.
    pub sleep: SleepLock,
    /// Whether the inode has been read from disk.
    pub valid: i32,
    pub tp: u16,
    pub major: u16,
    pub minor: u16,
    pub nlink: u16,
    pub size: u32,
    pub addrs: [u32; NDIRECT],
}

} // verus!
