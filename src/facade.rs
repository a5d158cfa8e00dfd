//! The caller-facing operations, split around the native client.
//!
//! Each operation is decided here in two steps. Before the native call, a
//! request is shaped from the caller's arguments (codes translated, tokens
//! redeemed), or the operation ends at once with an absent result and no
//! native call. After the native client has answered, its outcome is
//! shaped into the caller's result. Native failures never surface as
//! errors: they become an absent or false result.

use crate::codes::{
    data_request_from_code, data_request_of, display_type_from_code, display_type_of,
    sort_method_from_code, sort_method_of, upload_method_from_code, upload_method_of,
    LeaderboardDataRequest, LeaderboardDisplayType, LeaderboardSortMethod, UploadScoreMethod,
};
use crate::token::{redeemed, TokenRegistry};
use vstd::prelude::*;
use vstd::string::StrSliceExecFns;

verus! {

/// The result of one score upload.
#[derive(Clone, Copy, Debug, PartialEq, Eq, Structural)]
pub struct UploadedScoreInfo {
    pub score: i32,
    pub was_changed: bool,
    pub global_rank_new: i32,
    pub global_rank_previous: i32,
}

/// One downloaded leaderboard row.
#[derive(Clone, Debug, PartialEq, Eq)]
pub struct LeaderboardEntryInfo {
    pub user: u64,
    pub global_rank: i32,
    pub score: i32,
    pub details: Vec<i32>,
}

/// What the native client is asked for to look up, or create, a leaderboard.
pub struct FindOrCreateRequest {
    pub name: String,
    pub sort_method: LeaderboardSortMethod,
    pub display_type: LeaderboardDisplayType,
}

/// What the native client is asked for to upload a score.
pub struct UploadRequest {
    pub method: UploadScoreMethod,
    pub score: i32,
    pub details: Vec<i32>,
}

/// What the native client is asked for to download a range of entries.
pub struct DownloadRequest {
    pub request: LeaderboardDataRequest,
    pub start: i32,
    pub end: i32,
    pub max_details_len: i32,
}

/// A name that the native client can take: it holds no NUL character.
pub open spec fn name_accepted(name: Seq<char>) -> bool {
    !name.contains('\0')
}

/// Whether `name` can be handed to the native client as a stat or
/// leaderboard name. A name with a NUL character cannot, and the operation
/// then ends without a native call.
pub fn stat_name_accepted(name: &str) -> (r: bool)
    ensures
        r == name_accepted(name@),
{
    let n = name.unicode_len();
    let mut i: usize = 0;
    while i < n
        invariant
            n == name@.len(),
            i <= n,
            forall|j: int| 0 <= j < i ==> name@[j] != '\0',
        decreases n - i,
    {
        if name.get_char(i) == '\0' {
            return false;
        }
        i = i + 1;
    }
    true
}

/// The caller's reading of a stat from the native outcome: the value, or
/// absent when the native read failed (an unknown stat, for one).
pub fn stat_reading(outcome: Result<i32, ()>) -> (r: Option<i32>)
    ensures
        r == (match outcome {
            Ok(v) => Some(v),
            Err(_) => None::<i32>,
        }),
{
    match outcome {
        Ok(v) => Some(v),
        Err(_) => None,
    }
}

/// Whether the native client accepted a write, a store or a reset.
pub fn native_accepted(outcome: Result<(), ()>) -> (r: bool)
    ensures
        r == outcome is Ok,
{
    outcome.is_ok()
}

/// The lookup-or-create request for a leaderboard `name` with the given
/// sort and display codes; absent, and no native call, when the name
/// cannot be handed over.
pub fn find_or_create_request(name: String, sort_method: i32, display_type: i32) -> (r: Option<
    FindOrCreateRequest,
>)
    ensures
        r is Some <==> name_accepted(name@),
        r matches Some(req) ==> {
            &&& req.name@ == name@
            &&& req.sort_method == sort_method_of(sort_method as int)
            &&& req.display_type == display_type_of(display_type as int)
        },
{
    if !stat_name_accepted(name.as_str()) {
        return None;
    }
    Some(
        FindOrCreateRequest {
            name,
            sort_method: sort_method_from_code(sort_method),
            display_type: display_type_from_code(display_type),
        },
    )
}

/// Shapes the native answer to a lookup-or-create: a handle, with the token
/// the native client gave it, is issued and its token returned; no handle
/// gives an absent result and leaves the registry as it was.
pub fn settle_find_or_create<H>(registry: &mut TokenRegistry<H>, outcome: Option<(u64, H)>) -> (r:
    Option<u64>)
    ensures
        match outcome {
            Some((token, handle)) => {
                &&& r == Some(token)
                &&& final(registry)@ == old(registry)@.insert(token, handle)
            },
            None => {
                &&& r is None
                &&& final(registry)@ == old(registry)@
            },
        },
{
    match outcome {
        Some((token, handle)) => Some(registry.issue(token, handle)),
        None => None,
    }
}

/// The upload request for the leaderboard whose token is written in
/// `leaderboard_id`, with the handle it stands for. Absent, and no native
/// call, when the text is no token or names no issued handle.
pub fn upload_request<'a, H>(
    registry: &'a TokenRegistry<H>,
    leaderboard_id: &str,
    method: i32,
    score: i32,
    details: Vec<i32>,
) -> (r: Option<(&'a H, UploadRequest)>)
    ensures
        r is Some <==> redeemed(registry@, leaderboard_id@) is Some,
        r matches Some((handle, req)) ==> {
            &&& redeemed(registry@, leaderboard_id@) == Some(*handle)
            &&& req.method == upload_method_of(method as int)
            &&& req.score == score
            &&& req.details@ == details@
        },
{
    match registry.redeem(leaderboard_id) {
        Some(handle) => Some(
            (handle, UploadRequest { method: upload_method_from_code(method), score, details }),
        ),
        None => None,
    }
}

/// The download request for ranks `start` to `end` of the leaderboard whose
/// token is written in `leaderboard_id`, with the handle it stands for.
/// Absent, and no native call, when the text is no token or names no issued
/// handle.
pub fn download_request<'a, H>(
    registry: &'a TokenRegistry<H>,
    leaderboard_id: &str,
    request: i32,
    start: i32,
    end: i32,
    max_details_len: i32,
) -> (r: Option<(&'a H, DownloadRequest)>)
    ensures
        r is Some <==> redeemed(registry@, leaderboard_id@) is Some,
        r matches Some((handle, req)) ==> {
            &&& redeemed(registry@, leaderboard_id@) == Some(*handle)
            &&& req.request == data_request_of(request as int)
            &&& req.start == start
            &&& req.end == end
            &&& req.max_details_len == max_details_len
        },
{
    match registry.redeem(leaderboard_id) {
        Some(handle) => Some(
            (
                handle,
                DownloadRequest {
                    request: data_request_from_code(request),
                    start,
                    end,
                    max_details_len,
                },
            ),
        ),
        None => None,
    }
}

/// The details kept under a cap: at most `max` of them, in order. A
/// negative cap sets no bound.
pub open spec fn capped(details: Seq<i32>, max: int) -> Seq<i32> {
    if 0 <= max && max < details.len() {
        details.take(max)
    } else {
        details
    }
}

/// `out` is `entry` with its details capped at `max`.
pub open spec fn entry_capped(out: LeaderboardEntryInfo, entry: LeaderboardEntryInfo, max: int) -> bool {
    &&& out.user == entry.user
    &&& out.global_rank == entry.global_rank
    &&& out.score == entry.score
    &&& out.details@ == capped(entry.details@, max)
}

fn capped_details(details: &Vec<i32>, max_details_len: i32) -> (r: Vec<i32>)
    ensures
        r@ == capped(details@, max_details_len as int),
{
    let n: usize = if 0 <= max_details_len && (max_details_len as usize) < details.len() {
        max_details_len as usize
    } else {
        details.len()
    };
    let mut out: Vec<i32> = Vec::new();
    let mut i: usize = 0;
    while i < n
        invariant
            n <= details@.len(),
            i <= n,
            out@ == details@.take(i as int),
        decreases n - i,
    {
        out.push(details[i]);
        i = i + 1;
        assert(out@ =~= details@.take(i as int));
    }
    assert(details@.take(details@.len() as int) =~= details@);
    out
}

/// Shapes the native answer to a download: the entries in the order the
/// native client gave them, each with user, rank and score kept and its
/// details capped at `max_details_len`; absent when the download failed.
pub fn settle_download(outcome: Option<Vec<LeaderboardEntryInfo>>, max_details_len: i32) -> (r:
    Option<Vec<LeaderboardEntryInfo>>)
    ensures
        r is Some <==> outcome is Some,
        r matches Some(out) ==> outcome matches Some(entries) && {
            &&& out@.len() == entries@.len()
            &&& forall|i: int|
                0 <= i < out@.len() ==> entry_capped(
                    #[trigger] out@[i],
                    entries@[i],
                    max_details_len as int,
                )
        },
{
    match outcome {
        None => None,
        Some(entries) => {
            let mut out: Vec<LeaderboardEntryInfo> = Vec::new();
            let mut i: usize = 0;
            while i < entries.len()
                invariant
                    i <= entries@.len(),
                    out@.len() == i,
                    forall|j: int|
                        0 <= j < i ==> entry_capped(
                            #[trigger] out@[j],
                            entries@[j],
                            max_details_len as int,
                        ),
                decreases entries@.len() - i,
            {
                let entry = &entries[i];
                out.push(
                    LeaderboardEntryInfo {
                        user: entry.user,
                        global_rank: entry.global_rank,
                        score: entry.score,
                        details: capped_details(&entry.details, max_details_len),
                    },
                );
                i = i + 1;
            }
            Some(out)
        },
    }
}

} // verus!
