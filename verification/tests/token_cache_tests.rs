use api_tester::json::{Json, JsonNumber};
use api_tester::token_cache::{cached_token, token_cache_entry, token_is_fresh, TOKEN_CACHE_KEY, TOKEN_REUSE_SECS};

#[test]
fn stored_entry_reads_back() {
    let entry = token_cache_entry("abc.def", 1_700_000_000);
    assert_eq!(cached_token(&entry), Some(("abc.def".to_string(), 1_700_000_000)));
}

#[test]
fn stored_entry_has_token_and_timestamp_members() {
    let entry = token_cache_entry("tok", 5);
    assert_eq!(entry.get("token"), Some(&Json::Str("tok".into())));
    assert_eq!(entry.get("timestamp"), Some(&Json::Number(JsonNumber::PosInt(5))));
}

#[test]
fn entries_missing_a_member_yield_nothing() {
    let no_time = Json::Object(vec![("token".into(), Json::Str("t".into()))]);
    assert_eq!(cached_token(&no_time), None);
    let bad_time = Json::Object(vec![
        ("token".into(), Json::Str("t".into())),
        ("timestamp".into(), Json::Number(JsonNumber::NegInt(-1))),
    ]);
    assert_eq!(cached_token(&bad_time), None);
    let bad_token = Json::Object(vec![
        ("token".into(), Json::Number(JsonNumber::PosInt(1))),
        ("timestamp".into(), Json::Number(JsonNumber::PosInt(1))),
    ]);
    assert_eq!(cached_token(&bad_token), None);
    assert_eq!(cached_token(&Json::Null), None);
}

#[test]
fn token_is_reused_for_thirty_minutes() {
    assert_eq!(TOKEN_REUSE_SECS, 1800);
    let t = 1_000_000u64;
    assert!(token_is_fresh(t, t));
    assert!(token_is_fresh(t, t + 1799));
    assert!(!token_is_fresh(t, t + 1800));
    assert!(!token_is_fresh(t, t + 100_000));
}

#[test]
fn future_timestamps_follow_unsigned_wrap_around() {
    assert!(!token_is_fresh(10, 5));
    assert!(token_is_fresh(u64::MAX, 0));
}

#[test]
fn cache_key_names_the_token_cache() {
    assert_eq!(TOKEN_CACHE_KEY, "gcloud_token_cache");
}
