use stats_bridge::codes::{
    data_request_from_code, display_type_from_code, sort_method_from_code,
    upload_method_from_code, LeaderboardDataRequest, LeaderboardDisplayType,
    LeaderboardSortMethod, UploadScoreMethod,
};
use stats_bridge::completion::Completion;
use stats_bridge::facade::{
    download_request, find_or_create_request, native_accepted, settle_download,
    settle_find_or_create, stat_name_accepted, stat_reading, upload_request,
    LeaderboardEntryInfo, UploadedScoreInfo,
};
use stats_bridge::token::TokenRegistry;

#[derive(Debug, PartialEq)]
struct FakeHandle(u64);

#[test]
fn sort_method_codes() {
    assert!(matches!(sort_method_from_code(0), LeaderboardSortMethod::Ascending));
    assert!(matches!(sort_method_from_code(1), LeaderboardSortMethod::Descending));
    assert!(matches!(sort_method_from_code(2), LeaderboardSortMethod::Descending));
    assert!(matches!(sort_method_from_code(-1), LeaderboardSortMethod::Descending));
    assert!(matches!(sort_method_from_code(i32::MAX), LeaderboardSortMethod::Descending));
}

#[test]
fn display_type_codes() {
    assert!(matches!(display_type_from_code(0), LeaderboardDisplayType::Numeric));
    assert!(matches!(display_type_from_code(1), LeaderboardDisplayType::TimeSeconds));
    assert!(matches!(display_type_from_code(2), LeaderboardDisplayType::TimeMilliSeconds));
    assert!(matches!(display_type_from_code(3), LeaderboardDisplayType::Numeric));
    assert!(matches!(display_type_from_code(i32::MIN), LeaderboardDisplayType::Numeric));
}

#[test]
fn data_request_codes() {
    assert!(matches!(data_request_from_code(0), LeaderboardDataRequest::Global));
    assert!(matches!(data_request_from_code(1), LeaderboardDataRequest::GlobalAroundUser));
    assert!(matches!(data_request_from_code(2), LeaderboardDataRequest::Friends));
    assert!(matches!(data_request_from_code(3), LeaderboardDataRequest::Global));
    assert!(matches!(data_request_from_code(-7), LeaderboardDataRequest::Global));
}

#[test]
fn upload_method_codes() {
    assert!(matches!(upload_method_from_code(0), UploadScoreMethod::KeepBest));
    assert!(matches!(upload_method_from_code(1), UploadScoreMethod::ForceUpdate));
    assert!(matches!(upload_method_from_code(2), UploadScoreMethod::KeepBest));
    assert!(matches!(upload_method_from_code(-1), UploadScoreMethod::KeepBest));
}

#[test]
fn token_round_trip() {
    let mut registry = TokenRegistry::new();
    let token = registry.issue(1234567890123, FakeHandle(1234567890123));
    assert_eq!(token, 1234567890123);
    assert_eq!(registry.lookup(token), Some(&FakeHandle(1234567890123)));
    assert_eq!(registry.redeem(&token.to_string()), Some(&FakeHandle(1234567890123)));
    assert!(registry.is_issued(token));
}

#[test]
fn token_round_trip_largest_value() {
    let mut registry = TokenRegistry::new();
    let token = registry.issue(u64::MAX, FakeHandle(1));
    assert_eq!(registry.redeem(&token.to_string()), Some(&FakeHandle(1)));
    assert_eq!(registry.redeem("18446744073709551616"), None);
}

#[test]
fn token_reissued_stands_for_newer_handle() {
    let mut registry = TokenRegistry::new();
    registry.issue(5, FakeHandle(1));
    registry.issue(5, FakeHandle(2));
    assert_eq!(registry.lookup(5), Some(&FakeHandle(2)));
}

#[test]
fn token_text_forms() {
    let mut registry = TokenRegistry::new();
    registry.issue(42, FakeHandle(42));
    assert_eq!(registry.redeem("42"), Some(&FakeHandle(42)));
    assert_eq!(registry.redeem("+42"), Some(&FakeHandle(42)));
    assert_eq!(registry.redeem("0042"), Some(&FakeHandle(42)));
    assert_eq!(registry.redeem(" 42"), None);
    assert_eq!(registry.redeem("42 "), None);
    assert_eq!(registry.redeem("-42"), None);
    assert_eq!(registry.redeem("+"), None);
    assert_eq!(registry.redeem(""), None);
    assert_eq!(registry.redeem("43"), None);
    assert!(!registry.is_issued(43));
}

#[test]
fn completion_second_delivery_discarded() {
    let mut c: Completion<u64> = Completion::new();
    assert!(c.is_pending());
    assert!(c.deliver(Some(1)));
    assert!(!c.deliver(Some(2)));
    assert!(!c.deliver(None));
    assert_eq!(c.poll(), Some(Some(1)));
    assert_eq!(c.poll(), None);
    assert!(!c.deliver(Some(3)));
    assert_eq!(c.poll(), None);
}

#[test]
fn completion_absent_value_is_delivered() {
    let mut c: Completion<u64> = Completion::new();
    assert!(c.deliver(None));
    assert!(!c.is_pending());
    assert_eq!(c.poll(), Some(None));
}

#[test]
fn completion_never_delivered_stays_pending() {
    let mut c: Completion<u64> = Completion::new();
    for _ in 0..5 {
        assert_eq!(c.poll(), None);
        assert!(c.is_pending());
    }
    assert!(c.deliver(Some(9)));
    assert_eq!(c.poll(), Some(Some(9)));
}

#[test]
fn completion_delivery_after_abandon_is_noop() {
    let mut c: Completion<u64> = Completion::new();
    c.abandon();
    assert!(!c.deliver(Some(4)));
    assert_eq!(c.poll(), None);
    assert!(!c.is_pending());
}

#[test]
fn completion_abandon_drops_undelivered_value() {
    let mut c: Completion<u64> = Completion::new();
    assert!(c.deliver(Some(4)));
    c.abandon();
    assert_eq!(c.poll(), None);
}

#[test]
fn get_int_missing_stat_is_absent() {
    assert_eq!(stat_reading(Err(())), None);
    assert_eq!(stat_reading(Ok(17)), Some(17));
    assert_eq!(stat_reading(Ok(-3)), Some(-3));
}

#[test]
fn native_acceptance() {
    assert!(native_accepted(Ok(())));
    assert!(!native_accepted(Err(())));
}

#[test]
fn stat_names() {
    assert!(stat_name_accepted("wins"));
    assert!(stat_name_accepted(""));
    assert!(!stat_name_accepted("wi\0ns"));
    assert!(!stat_name_accepted("\0"));
}

#[test]
fn upload_with_invalid_token_makes_no_request() {
    let mut registry = TokenRegistry::new();
    registry.issue(7, FakeHandle(7));
    assert!(upload_request(&registry, "not-a-number", 0, 100, vec![1, 2]).is_none());
    assert!(upload_request(&registry, "8", 0, 100, vec![1, 2]).is_none());
}

#[test]
fn upload_with_issued_token() {
    let mut registry = TokenRegistry::new();
    registry.issue(7, FakeHandle(7));
    let (handle, req) = upload_request(&registry, "7", 1, 250, vec![3, 4, 5]).unwrap();
    assert_eq!(handle, &FakeHandle(7));
    assert!(matches!(req.method, UploadScoreMethod::ForceUpdate));
    assert_eq!(req.score, 250);
    assert_eq!(req.details, vec![3, 4, 5]);
    let (_, req) = upload_request(&registry, "7", 9, -1, vec![]).unwrap();
    assert!(matches!(req.method, UploadScoreMethod::KeepBest));
    assert_eq!(req.score, -1);
    assert!(req.details.is_empty());
}

#[test]
fn upload_result_fields() {
    let mut c: Completion<UploadedScoreInfo> = Completion::new();
    let info = UploadedScoreInfo {
        score: 90,
        was_changed: true,
        global_rank_new: 3,
        global_rank_previous: 8,
    };
    assert!(c.deliver(Some(info)));
    assert_eq!(c.poll(), Some(Some(info)));
}

#[test]
fn download_request_fields() {
    let mut registry = TokenRegistry::new();
    registry.issue(11, FakeHandle(11));
    let (handle, req) = download_request(&registry, "11", 1, 1, 10, 0).unwrap();
    assert_eq!(handle, &FakeHandle(11));
    assert!(matches!(req.request, LeaderboardDataRequest::GlobalAroundUser));
    assert_eq!((req.start, req.end, req.max_details_len), (1, 10, 0));
    assert!(download_request(&registry, "eleven", 1, 1, 10, 0).is_none());
}

fn entry(user: u64, rank: i32, score: i32, details: Vec<i32>) -> LeaderboardEntryInfo {
    LeaderboardEntryInfo { user, global_rank: rank, score, details }
}

#[test]
fn download_without_details() {
    let mut registry = TokenRegistry::new();
    registry.issue(11, FakeHandle(11));
    let (_, req) = download_request(&registry, "11", 0, 1, 10, 0).unwrap();
    let native = vec![entry(76561198000000001, 1, 500, vec![]), entry(76561198000000002, 2, 450, vec![9])];
    let out = settle_download(Some(native), req.max_details_len).unwrap();
    assert_eq!(
        out,
        vec![entry(76561198000000001, 1, 500, vec![]), entry(76561198000000002, 2, 450, vec![])]
    );
}

#[test]
fn download_details_capped() {
    let native = vec![entry(1, 1, 10, vec![1, 2, 3, 4]), entry(2, 2, 9, vec![5])];
    assert_eq!(
        settle_download(Some(native.clone()), 2).unwrap(),
        vec![entry(1, 1, 10, vec![1, 2]), entry(2, 2, 9, vec![5])]
    );
    assert_eq!(settle_download(Some(native.clone()), -1).unwrap(), native);
    assert_eq!(settle_download(Some(vec![]), 3).unwrap(), vec![]);
    assert_eq!(settle_download(None, 3), None);
}

#[test]
fn find_or_create_end_to_end() {
    let mut registry = TokenRegistry::new();
    let req = find_or_create_request("weekly".to_string(), 1, 0).unwrap();
    assert_eq!(req.name, "weekly");
    assert!(matches!(req.sort_method, LeaderboardSortMethod::Descending));
    assert!(matches!(req.display_type, LeaderboardDisplayType::Numeric));
    let mut c: Completion<(u64, FakeHandle)> = Completion::new();
    assert!(c.deliver(Some((987654321, FakeHandle(987654321)))));
    let outcome = c.poll().unwrap();
    let token = settle_find_or_create(&mut registry, outcome);
    assert_eq!(token, Some(987654321));
    assert_eq!(registry.redeem("987654321"), Some(&FakeHandle(987654321)));
}

#[test]
fn find_or_create_failure_is_absent() {
    let mut registry: TokenRegistry<FakeHandle> = TokenRegistry::new();
    assert_eq!(settle_find_or_create(&mut registry, None), None);
    assert!(!registry.is_issued(0));
}

#[test]
fn find_or_create_rejects_nul_name() {
    assert!(find_or_create_request("week\0ly".to_string(), 0, 2).is_none());
    let req = find_or_create_request("daily".to_string(), 0, 2).unwrap();
    assert!(matches!(req.sort_method, LeaderboardSortMethod::Ascending));
    assert!(matches!(req.display_type, LeaderboardDisplayType::TimeMilliSeconds));
}
