use vstd::prelude::*;

verus! {

/// Relies on users::get_user_by_uid, which queries the system's user database
/// (getpwuid_r): `None` where it has no entry for `uid` or cannot be read.
/// The name is kept only where it is valid UTF-8. What comes back depends on
/// the machine, so nothing is promised of it.
#[verifier::external_body]
pub(crate) fn user_name_of(uid: u32) -> (r: Option<String>) {
    users::get_user_by_uid(uid)?.name().to_str().map(String::from)
}

/// Relies on users::get_group_by_gid, which queries the system's group
/// database (getgrgid_r): `None` where it has no entry for `gid` or cannot be
/// read. The name is kept only where it is valid UTF-8. What comes back
/// depends on the machine, so nothing is promised of it.
#[verifier::external_body]
pub(crate) fn group_name_of(gid: u32) -> (r: Option<String>) {
    users::get_group_by_gid(gid)?.name().to_str().map(String::from)
}

} // verus!
