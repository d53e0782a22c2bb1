use vstd::prelude::*;

verus! {

/// A point in time as seconds and nanoseconds since the Unix epoch.
#[derive(Clone, Copy, Debug, PartialEq, Eq, Structural)]
pub struct Timestamp {
    pub seconds: i64,
    pub nanos: i32,
}

/// The owner of a file: its numeric identifier and, where the identity
/// database knows it, its name (empty otherwise).
#[derive(Clone, Debug)]
pub struct User {
    pub uid: u32,
    pub name: String,
}

/// The owning group of a file: its numeric identifier and, where the identity
/// database knows it, its name (empty otherwise).
#[derive(Clone, Debug)]
pub struct Group {
    pub gid: u32,
    pub name: String,
}

/// The part of a response that is present only when the lookup succeeded.
#[derive(Clone, Debug)]
pub struct Extra {
    pub inode: u64,
    pub hardlinks_number: u64,
    pub owner: Option<User>,
    pub owner_group: Option<Group>,
    pub last_access_time: Option<Timestamp>,
    pub last_data_modification_time: Option<Timestamp>,
    pub last_status_change_time: Option<Timestamp>,
}

/// Whether the lookup succeeded, and why not where it did not.
#[derive(Clone, Debug)]
pub struct Status {
    pub success: bool,
    pub error_details: String,
}

} // verus!
