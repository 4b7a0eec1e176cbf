use api_tester::json::{signed_json_number, Json, JsonNumber};

fn obj(members: Vec<(&str, Json)>) -> Json {
    Json::Object(members.into_iter().map(|(k, v)| (k.to_string(), v)).collect())
}

#[test]
fn get_reads_object_members() {
    let doc = obj(vec![("name", Json::Str("x".into())), ("n", Json::Number(JsonNumber::PosInt(3)))]);
    assert_eq!(doc.get("name"), Some(&Json::Str("x".into())));
    assert_eq!(doc.get("n").and_then(|v| v.as_u64()), Some(3));
    assert_eq!(doc.get("missing"), None);
}

#[test]
fn get_on_other_documents_is_none() {
    assert_eq!(Json::Null.get("a"), None);
    assert_eq!(Json::Array(vec![Json::Null]).get("a"), None);
    assert_eq!(Json::Str("a".into()).get("a"), None);
}

#[test]
fn get_reads_the_last_member_of_a_repeated_key() {
    let doc = obj(vec![("k", Json::Bool(false)), ("k", Json::Bool(true))]);
    assert_eq!(doc.get("k"), Some(&Json::Bool(true)));
}

#[test]
fn as_u64_only_for_non_negative_integers() {
    assert_eq!(Json::Number(JsonNumber::PosInt(10)).as_u64(), Some(10));
    assert_eq!(Json::Number(JsonNumber::NegInt(-10)).as_u64(), None);
    assert_eq!(Json::Number(JsonNumber::Float(1.5f64.to_bits())).as_u64(), None);
    assert_eq!(Json::Str("10".into()).as_u64(), None);
}

#[test]
fn as_text_only_for_strings() {
    assert_eq!(Json::Str("t".into()).as_text().map(|s| s.as_str()), Some("t"));
    assert_eq!(Json::Null.as_text(), None);
}

#[test]
fn duplicate_copies_nested_documents() {
    let doc = obj(vec![
        ("a", Json::Array(vec![Json::Null, Json::Number(JsonNumber::NegInt(-2))])),
        ("b", obj(vec![("c", Json::Str("d".into()))])),
    ]);
    assert_eq!(doc.duplicate(), doc);
}

#[test]
fn signed_numbers_are_stored_as_json_writers_store_them() {
    assert_eq!(signed_json_number(-5), JsonNumber::NegInt(-5));
    assert_eq!(signed_json_number(0), JsonNumber::PosInt(0));
    assert_eq!(signed_json_number(42), JsonNumber::PosInt(42));
}
