use vstd::prelude::*;

pub mod metadata;
mod names;
pub mod response;

use self::metadata::RawMetadata;
use self::response::{Extra, Group, Status, Timestamp, User};

verus! {

/// A request for the metadata of one path.
#[derive(Clone, Debug)]
pub struct Request {
    pub path: String,
}

/// The answer to a [`Request`].
#[derive(Clone, Debug)]
pub struct Response {
    pub path: String,
    pub size: i64,
    pub mode: u32,
    pub extra: Option<Extra>,
    pub status: Option<Status>,
}

/// Reported in place of an error message that came back empty.
pub const UNDESCRIBED_FAILURE: &'static str = "metadata lookup failed";

/// A timestamp taken from the system's seconds and nanoseconds fields,
/// without any adjustment.
pub open spec fn timestamp_of(seconds: i64, nanos: i64) -> Timestamp {
    Timestamp { seconds: seconds, nanos: nanos as i32 }
}

/// The name that a lookup of an identity gave, or the empty name where it
/// found none.
pub open spec fn name_or_empty(name: Option<String>) -> Seq<char> {
    match name {
        Some(n) => n@,
        None => Seq::empty(),
    }
}

/// The error description reported for a failed lookup with `message`.
pub open spec fn error_text(message: Seq<char>) -> Seq<char> {
    if message.len() > 0 {
        message
    } else {
        UNDESCRIBED_FAILURE@
    }
}

/// `e` carries every field of `meta` that the extra record holds, but the names.
pub open spec fn extra_reports(e: Extra, meta: RawMetadata) -> bool {
    &&& e.inode == meta.inode
    &&& e.hardlinks_number == meta.nlink
    &&& e.owner is Some
    &&& e.owner->Some_0.uid == meta.uid
    &&& e.owner_group is Some
    &&& e.owner_group->Some_0.gid == meta.gid
    &&& e.last_access_time == Some(timestamp_of(meta.atime, meta.atime_nsec))
    &&& e.last_data_modification_time == Some(timestamp_of(meta.mtime, meta.mtime_nsec))
    &&& e.last_status_change_time == Some(timestamp_of(meta.ctime, meta.ctime_nsec))
}

/// `r` reports the metadata `meta`: size, mode and the extra record.
pub open spec fn reports_metadata(r: Response, meta: RawMetadata) -> bool {
    &&& r.size == meta.size as i64
    &&& r.mode == meta.mode
    &&& r.extra is Some
    &&& extra_reports(r.extra->Some_0, meta)
}

/// The owner's and the group's names in `r` are `owner` and `group`.
pub open spec fn names_are(r: Response, owner: Seq<char>, group: Seq<char>) -> bool {
    &&& r.extra is Some
    &&& r.extra->Some_0.owner is Some
    &&& r.extra->Some_0.owner->Some_0.name@ == owner
    &&& r.extra->Some_0.owner_group is Some
    &&& r.extra->Some_0.owner_group->Some_0.name@ == group
}

/// `s` is the status of a lookup that ended in `lookup`.
pub open spec fn status_of(s: Status, lookup: Result<RawMetadata, String>) -> bool {
    match lookup {
        Ok(_) => s.success && s.error_details@.len() == 0,
        Err(message) => !s.success && s.error_details@ == error_text(message@),
    }
}

/// `r` carries no metadata: every numeric field is zero and the extra record
/// is absent.
pub open spec fn holds_no_metadata(r: Response) -> bool {
    &&& r.size == 0
    &&& r.mode == 0
    &&& r.extra is None
}

/// `r` is the response to a request for `path` whose lookup ended in `lookup`.
pub open spec fn answers(r: Response, path: Seq<char>, lookup: Result<RawMetadata, String>) -> bool {
    &&& r.path@ == path
    &&& r.status is Some
    &&& status_of(r.status->Some_0, lookup)
    &&& match lookup {
        Ok(meta) => reports_metadata(r, meta),
        Err(_) => holds_no_metadata(r),
    }
}

/// The name of the user with identifier `uid`, where the system's user
/// database has one.
pub fn get_name_by_uid(uid: u32) -> (r: Option<String>) {
    names::user_name_of(uid)
}

/// The name of the group with identifier `gid`, where the system's group
/// database has one.
pub fn get_name_by_gid(gid: u32) -> (r: Option<String>) {
    names::group_name_of(gid)
}

/// The status of a lookup that ended in `lookup`: success with no details,
/// or failure with the error's description (never empty).
pub fn eval_response_status(lookup: &Result<RawMetadata, String>) -> (s: Status)
    ensures
        status_of(s, *lookup),
        s.success ==> s.error_details@.len() == 0,
        !s.success ==> s.error_details@.len() > 0,
{
    match lookup {
        Ok(_) => Status { success: true, error_details: String::new() },
        Err(message) => {
            let details = if !message.as_str().is_empty() {
                message.clone()
            } else {
                UNDESCRIBED_FAILURE.to_owned()
            };
            proof {
                reveal_strlit("metadata lookup failed");
            }
            Status { success: false, error_details: details }
        },
    }
}

#[verifier::truncate]
fn nanos_of(nsec: i64) -> (r: i32)
    ensures
        r == nsec as i32,
{
    nsec as i32
}

fn timestamp(seconds: i64, nsec: i64) -> (t: Timestamp)
    ensures
        t == timestamp_of(seconds, nsec),
{
    Timestamp { seconds, nanos: nanos_of(nsec) }
}

/// The response fields that `meta` decides, with `owner_name` and
/// `group_name` as the results of looking up its owner and its group: a name
/// that was not found is reported as the empty name. The path is left empty
/// and the status absent.
pub fn fill_stat_proto_with_names(
    meta: &RawMetadata,
    owner_name: Option<String>,
    group_name: Option<String>,
) -> (r: Response)
    ensures
        r.path@.len() == 0,
        r.status is None,
        reports_metadata(r, *meta),
        names_are(r, name_or_empty(owner_name), name_or_empty(group_name)),
{
    let owner = User { uid: meta.uid, name: owner_name.unwrap_or_default() };
    let owner_group = Group { gid: meta.gid, name: group_name.unwrap_or_default() };
    let extra = Extra {
        inode: meta.inode,
        hardlinks_number: meta.nlink,
        owner: Some(owner),
        owner_group: Some(owner_group),
        last_access_time: Some(timestamp(meta.atime, meta.atime_nsec)),
        last_data_modification_time: Some(timestamp(meta.mtime, meta.mtime_nsec)),
        last_status_change_time: Some(timestamp(meta.ctime, meta.ctime_nsec)),
    };
    #[verifier::truncate]
    let size = meta.size as i64;
    Response { path: String::new(), size, mode: meta.mode, extra: Some(extra), status: None }
}

/// The response fields that `meta` decides, with the owner's and the
/// group's names looked up in the system's identity databases. The path is
/// left empty and the status absent.
pub fn fill_stat_proto(meta: RawMetadata) -> (r: Response)
    ensures
        r.path@.len() == 0,
        r.status is None,
        reports_metadata(r, meta),
{
    let owner_name = get_name_by_uid(meta.uid);
    let group_name = get_name_by_gid(meta.gid);
    fill_stat_proto_with_names(&meta, owner_name, group_name)
}

/// The response to `request`, whose path's metadata lookup ended in
/// `lookup`. The path is echoed as the request gave it.
pub fn process_request(request: Request, lookup: Result<RawMetadata, String>) -> (r: Response)
    ensures
        answers(r, request.path@, lookup),
        lookup is Ok ==> r.status->Some_0.success && r.status->Some_0.error_details@.len() == 0,
        lookup is Err ==> !r.status->Some_0.success && r.status->Some_0.error_details@.len() > 0,
{
    let status = eval_response_status(&lookup);
    let mut response = match lookup {
        Ok(meta) => fill_stat_proto(meta),
        Err(_) => Response {
            path: String::new(),
            size: 0,
            mode: 0,
            extra: None,
            status: None,
        },
    };
    response.path = request.path;
    response.status = Some(status);
    response
}

/// The fields of two responses that a file's metadata and its owner's and
/// group's names decide are the same.
pub open spec fn same_report(r1: Response, r2: Response) -> bool {
    let (e1, e2) = (r1.extra->Some_0, r2.extra->Some_0);
    &&& r1.size == r2.size
    &&& r1.mode == r2.mode
    &&& e1.inode == e2.inode
    &&& e1.hardlinks_number == e2.hardlinks_number
    &&& e1.owner->Some_0.uid == e2.owner->Some_0.uid
    &&& e1.owner->Some_0.name@ == e2.owner->Some_0.name@
    &&& e1.owner_group->Some_0.gid == e2.owner_group->Some_0.gid
    &&& e1.owner_group->Some_0.name@ == e2.owner_group->Some_0.name@
}

/// Resolving the same unmodified file twice gives the same size, mode, inode,
/// link count and ownership, as long as the identity databases give the same
/// names both times.
pub proof fn lemma_repeated_resolution_agrees(
    path: Seq<char>,
    meta: RawMetadata,
    owner: Seq<char>,
    group: Seq<char>,
    r1: Response,
    r2: Response,
)
    requires
        answers(r1, path, Ok(meta)),
        answers(r2, path, Ok(meta)),
        names_are(r1, owner, group),
        names_are(r2, owner, group),
    ensures
        same_report(r1, r2),
        r1.status->Some_0.success && r2.status->Some_0.success,
{
}

} // verus!
