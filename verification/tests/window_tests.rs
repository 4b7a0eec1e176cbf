use api_tester::json::{Json, JsonNumber};
use api_tester::window::{adjusted_window_size, window_state_json};

#[test]
fn window_state_document() {
    let doc = window_state_json(-20, 40, 1280, 800);
    assert_eq!(doc.get("x"), Some(&Json::Number(JsonNumber::NegInt(-20))));
    assert_eq!(doc.get("y"), Some(&Json::Number(JsonNumber::PosInt(40))));
    assert_eq!(doc.get("width").and_then(|v| v.as_u64()), Some(1280));
    assert_eq!(doc.get("height").and_then(|v| v.as_u64()), Some(800));
}

#[test]
fn restored_size_leaves_room_for_borders() {
    assert_eq!(adjusted_window_size(1280, 800), (1264, 792));
    assert_eq!(adjusted_window_size(10, 5), (0, 0));
    assert_eq!(adjusted_window_size(16, 8), (0, 0));
}
