//! The main window's saved position and size.

use vstd::prelude::*;
use crate::json::{
    Json, JsonNumber, JsonValue, lemma_member_value_at, lemma_members_view, members_view,
    signed_json_number, signed_number,
};

verus! {

/// The settings file that holds the window state.
pub const WINDOW_STATE_FILE: &'static str = ".window-state.json";

/// The settings key of the window state.
pub const WINDOW_STATE_KEY: &'static str = "window_state";

/// The stored state of a window at (`x`, `y`) with the given outer size.
pub open spec fn window_state_value(x: i32, y: i32, width: u32, height: u32) -> JsonValue {
    JsonValue::Object(
        seq![
            ("x"@, JsonValue::Number(signed_number(x as int))),
            ("y"@, JsonValue::Number(signed_number(y as int))),
            ("width"@, JsonValue::Number(JsonNumber::PosInt(width as u64))),
            ("height"@, JsonValue::Number(JsonNumber::PosInt(height as u64))),
        ],
    )
}

/// The stored state of a window at (`x`, `y`) with the given outer size.
pub fn window_state_json(x: i32, y: i32, width: u32, height: u32) -> (r: Json)
    ensures
        r@ == window_state_value(x, y, width, height),
{
    let members = vec![
        (String::from_str("x"), Json::Number(signed_json_number(x as i64))),
        (String::from_str("y"), Json::Number(signed_json_number(y as i64))),
        (String::from_str("width"), Json::Number(JsonNumber::PosInt(width as u64))),
        (String::from_str("height"), Json::Number(JsonNumber::PosInt(height as u64))),
    ];
    proof {
        lemma_members_view(members@);
    }
    assert(members_view(members@) =~= window_state_value(x, y, width, height)->Object_0);
    Json::Object(members)
}

/// The stored state reads back as the window's position and size: `x` and
/// `y` as the same signed integers (negative ones as negative JSON
/// integers), width and height as the same non-negative integers.
pub proof fn lemma_window_state_reads_back(x: i32, y: i32, width: u32, height: u32)
    ensures
        ({
            let s = window_state_value(x, y, width, height);
            &&& s.get("x"@) == Some(
                JsonValue::Number(
                    if x < 0 {
                        JsonNumber::NegInt(x as i64)
                    } else {
                        JsonNumber::PosInt(x as u64)
                    },
                ),
            )
            &&& s.get("y"@) == Some(
                JsonValue::Number(
                    if y < 0 {
                        JsonNumber::NegInt(y as i64)
                    } else {
                        JsonNumber::PosInt(y as u64)
                    },
                ),
            )
            &&& s.get("width"@) == Some(JsonValue::Number(JsonNumber::PosInt(width as u64)))
            &&& s.get("height"@) == Some(JsonValue::Number(JsonNumber::PosInt(height as u64)))
        }),
{
    reveal_strlit("x");
    reveal_strlit("y");
    reveal_strlit("width");
    reveal_strlit("height");
    let m = window_state_value(x, y, width, height)->Object_0;
    assert(m[0].0 == "x"@ && m[1].0 == "y"@ && m[2].0 == "width"@ && m[3].0 == "height"@);
    assert("x"@.len() == 1 && "y"@.len() == 1 && "width"@.len() == 5 && "height"@.len() == 6);
    assert("x"@[0] != "y"@[0]);
    lemma_member_value_at(m, "x"@, 0);
    lemma_member_value_at(m, "y"@, 1);
    lemma_member_value_at(m, "width"@, 2);
    lemma_member_value_at(m, "height"@, 3);
}

/// The inner size to restore from a saved outer size: 16 less in width and
/// 8 less in height, for the window's borders, and never below zero.
pub fn adjusted_window_size(width: u32, height: u32) -> (r: (u32, u32))
    ensures
        r.0 == (if width >= 16 { width - 16 } else { 0 }),
        r.1 == (if height >= 8 { height - 8 } else { 0 }),
{
    (width.saturating_sub(16), height.saturating_sub(8))
}

} // verus!
