use vstd::prelude::*;

verus! {

/// The portable fields of the operating system's metadata record for a path,
/// exactly as the system reported them.
#[derive(Clone, Copy, Debug, PartialEq, Eq, Structural)]
pub struct RawMetadata {
    /// Size in bytes.
    pub size: u64,
    /// Permission and file-type bits.
    pub mode: u32,
    pub inode: u64,
    /// Number of hard links.
    pub nlink: u64,
    pub uid: u32,
    pub gid: u32,
    pub atime: i64,
    pub atime_nsec: i64,
    pub mtime: i64,
    pub mtime_nsec: i64,
    pub ctime: i64,
    pub ctime_nsec: i64,
}

} // verus!
