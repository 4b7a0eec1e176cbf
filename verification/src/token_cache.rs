//! The cache of `gcloud` identity tokens: the settings entry a new token is
//! stored as, how a stored entry is read back, and for how long a stored
//! token is reused.

use vstd::prelude::*;
use crate::json::{Json, JsonNumber, JsonValue, member_value, members_view};

verus! {

/// The settings key under which the last identity token is kept.
pub const TOKEN_CACHE_KEY: &'static str = "gcloud_token_cache";

/// For how many seconds after it was stored a token is reused.
pub const TOKEN_REUSE_SECS: u64 = 1800;

/// The entry that stores `token`, obtained at `now` (seconds since the Unix
/// epoch): an object with the members `token` and `timestamp`.
pub open spec fn cache_entry_value(token: Seq<char>, now: u64) -> JsonValue {
    JsonValue::Object(
        seq![
            ("token"@, JsonValue::Str(token)),
            ("timestamp"@, JsonValue::Number(JsonNumber::PosInt(now))),
        ],
    )
}

/// The token and the time that a stored entry holds: the text member
/// `token` and the non-negative integer member `timestamp`; nothing when
/// either is missing or of another kind.
pub open spec fn cached_token_spec(entry: JsonValue) -> Option<(Seq<char>, u64)> {
    match entry.text_member("token"@) {
        Some(token) => match entry.get("timestamp"@) {
            Some(t) => match t.as_u64() {
                Some(n) => Some((token, n)),
                None => None,
            },
            None => None,
        },
        None => None,
    }
}

/// Whether a token stored at `timestamp` is still reused at `now`: the
/// elapsed seconds, computed with the wrap-around of unsigned 64-bit
/// subtraction, are fewer than `TOKEN_REUSE_SECS`.
pub open spec fn is_fresh_spec(timestamp: u64, now: u64) -> bool {
    (now as int - timestamp as int) % 0x1_0000_0000_0000_0000int < TOKEN_REUSE_SECS
}

/// The entry that stores `token` obtained at `now`.
pub fn token_cache_entry(token: &str, now: u64) -> (r: Json)
    ensures
        r@ == cache_entry_value(token@, now),
{
    let members = vec![
        (String::from_str("token"), Json::text(token)),
        (String::from_str("timestamp"), Json::Number(JsonNumber::PosInt(now))),
    ];
    proof {
        reveal_strlit("token");
        reveal_strlit("timestamp");
        crate::json::lemma_members_view(members@);
    }
    let r = Json::Object(members);
    assert(members_view(members@) =~= seq![
        ("token"@, JsonValue::Str(token@)),
        ("timestamp"@, JsonValue::Number(JsonNumber::PosInt(now))),
    ]);
    r
}

/// The token and the time that a stored entry holds, if it holds both.
pub fn cached_token(entry: &Json) -> (r: Option<(String, u64)>)
    ensures
        match r {
            Some((token, n)) => cached_token_spec(entry@) == Some((token@, n)),
            None => cached_token_spec(entry@) is None,
        },
{
    let token = match entry.get("token") {
        Some(v) => match v.as_text() {
            Some(t) => t,
            None => return None,
        },
        None => return None,
    };
    let timestamp = match entry.get("timestamp") {
        Some(v) => match v.as_u64() {
            Some(n) => n,
            None => return None,
        },
        None => return None,
    };
    Some((token.clone(), timestamp))
}

/// Whether a token stored at `timestamp` is still reused at `now`.
pub fn token_is_fresh(timestamp: u64, now: u64) -> (r: bool)
    ensures
        r == is_fresh_spec(timestamp, now),
{
    let elapsed = now.wrapping_sub(timestamp);
    elapsed < TOKEN_REUSE_SECS
}

/// What is stored is read back: an entry written for a token at time `t`
/// yields that token and that time.
pub proof fn lemma_cache_entry_reads_back(token: Seq<char>, t: u64)
    ensures
        cached_token_spec(cache_entry_value(token, t)) == Some((token, t)),
{
    reveal_strlit("token");
    reveal_strlit("timestamp");
    let m = seq![
        ("token"@, JsonValue::Str(token)),
        ("timestamp"@, JsonValue::Number(JsonNumber::PosInt(t))),
    ];
    assert("token"@ != "timestamp"@) by {
        assert("token"@[1] != "timestamp"@[1]);
    }
    assert(m.drop_last() =~= seq![("token"@, JsonValue::Str(token))]);
    reveal_with_fuel(member_value, 2);
    assert(member_value(m, "timestamp"@) == Some(JsonValue::Number(JsonNumber::PosInt(t))));
    assert(member_value(m, "token"@) == member_value(m.drop_last(), "token"@));
    assert(member_value(m, "token"@) == Some(JsonValue::Str(token)));
}

/// A token stored at `t` is reused from `t` on for exactly
/// `TOKEN_REUSE_SECS` seconds: at any `now` with
/// `t <= now < t + TOKEN_REUSE_SECS`, and at no later `now`.
pub proof fn lemma_token_reuse_window(t: u64, now: u64)
    requires
        t <= now,
    ensures
        is_fresh_spec(t, now) <==> now < t + TOKEN_REUSE_SECS,
{
}

} // verus!
