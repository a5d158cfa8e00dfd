//! Translation of the caller's small integer codes into the native
//! client's leaderboard enumerations, which this module mirrors variant
//! for variant. Every code is accepted: a code outside the documented set
//! falls back to a fixed default.

use vstd::prelude::*;

verus! {

/// The order in which a leaderboard ranks its scores.
#[derive(Clone, Copy, Debug, PartialEq, Eq, Structural)]
pub enum LeaderboardSortMethod {
    Ascending,
    Descending,
}

/// How the scores of a leaderboard are shown.
#[derive(Clone, Copy, Debug, PartialEq, Eq, Structural)]
pub enum LeaderboardDisplayType {
    Numeric,
    TimeSeconds,
    TimeMilliSeconds,
}

/// Which entries of a leaderboard a download covers.
#[derive(Clone, Copy, Debug, PartialEq, Eq, Structural)]
pub enum LeaderboardDataRequest {
    Global,
    GlobalAroundUser,
    Friends,
}

/// Whether an uploaded score replaces a better stored one.
#[derive(Clone, Copy, Debug, PartialEq, Eq, Structural)]
pub enum UploadScoreMethod {
    KeepBest,
    ForceUpdate,
}

/// Sort order for a code: 0 is ascending, anything else descending.
pub open spec fn sort_method_of(code: int) -> LeaderboardSortMethod {
    if code == 0 {
        LeaderboardSortMethod::Ascending
    } else {
        LeaderboardSortMethod::Descending
    }
}

/// Display type for a code: 1 is seconds, 2 is milliseconds, anything
/// else numeric.
pub open spec fn display_type_of(code: int) -> LeaderboardDisplayType {
    if code == 1 {
        LeaderboardDisplayType::TimeSeconds
    } else if code == 2 {
        LeaderboardDisplayType::TimeMilliSeconds
    } else {
        LeaderboardDisplayType::Numeric
    }
}

/// Entry scope for a code: 1 is around the user, 2 is friends, anything
/// else global.
pub open spec fn data_request_of(code: int) -> LeaderboardDataRequest {
    if code == 1 {
        LeaderboardDataRequest::GlobalAroundUser
    } else if code == 2 {
        LeaderboardDataRequest::Friends
    } else {
        LeaderboardDataRequest::Global
    }
}

/// Upload policy for a code: 1 forces the update, anything else keeps the
/// best score.
pub open spec fn upload_method_of(code: int) -> UploadScoreMethod {
    if code == 1 {
        UploadScoreMethod::ForceUpdate
    } else {
        UploadScoreMethod::KeepBest
    }
}

pub fn sort_method_from_code(code: i32) -> (r: LeaderboardSortMethod)
    ensures
        r == sort_method_of(code as int),
{
    match code {
        0 => LeaderboardSortMethod::Ascending,
        1 => LeaderboardSortMethod::Descending,
        _ => LeaderboardSortMethod::Descending,
    }
}

pub fn display_type_from_code(code: i32) -> (r: LeaderboardDisplayType)
    ensures
        r == display_type_of(code as int),
{
    match code {
        0 => LeaderboardDisplayType::Numeric,
        1 => LeaderboardDisplayType::TimeSeconds,
        2 => LeaderboardDisplayType::TimeMilliSeconds,
        _ => LeaderboardDisplayType::Numeric,
    }
}

pub fn data_request_from_code(code: i32) -> (r: LeaderboardDataRequest)
    ensures
        r == data_request_of(code as int),
{
    match code {
        0 => LeaderboardDataRequest::Global,
        1 => LeaderboardDataRequest::GlobalAroundUser,
        2 => LeaderboardDataRequest::Friends,
        _ => LeaderboardDataRequest::Global,
    }
}

pub fn upload_method_from_code(code: i32) -> (r: UploadScoreMethod)
    ensures
        r == upload_method_of(code as int),
{
    match code {
        0 => UploadScoreMethod::KeepBest,
        1 => UploadScoreMethod::ForceUpdate,
        _ => UploadScoreMethod::KeepBest,
    }
}

} // verus!
