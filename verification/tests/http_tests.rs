use api_tester::http::response_body_json;
use api_tester::json::parse_json_text;
use api_tester::http::{
    auth_headers, auth_headers_for, canonical_reason, check_status, header_text, method_text,
    parse_method, request_headers, response_data, response_headers_json, status_is_success,
    status_text, test_request_result, HttpMethod,
};
use api_tester::json::{Json, JsonNumber};

fn pairs(v: &[(&str, &str)]) -> Vec<(String, String)> {
    v.iter().map(|(a, b)| (a.to_string(), b.to_string())).collect()
}

#[test]
fn the_five_methods_are_accepted() {
    assert_eq!(parse_method("GET"), Ok(HttpMethod::Get));
    assert_eq!(parse_method("POST"), Ok(HttpMethod::Post));
    assert_eq!(parse_method("PUT"), Ok(HttpMethod::Put));
    assert_eq!(parse_method("DELETE"), Ok(HttpMethod::Delete));
    assert_eq!(parse_method("PATCH"), Ok(HttpMethod::Patch));
}

#[test]
fn other_methods_are_refused() {
    assert_eq!(parse_method("get"), Err("Unsupported method: get".to_string()));
    assert_eq!(parse_method("HEAD"), Err("Unsupported method: HEAD".to_string()));
    assert_eq!(parse_method(""), Err("Unsupported method: ".to_string()));
}

#[test]
fn method_names_parse_back() {
    for m in [HttpMethod::Get, HttpMethod::Post, HttpMethod::Put, HttpMethod::Delete, HttpMethod::Patch] {
        assert_eq!(parse_method(&method_text(m)), Ok(m));
    }
}

#[test]
fn token_headers() {
    assert_eq!(auth_headers("t0k"), pairs(&[("Authorization", "Bearer t0k"), ("TokenPortal", "t0k")]));
}

#[test]
fn token_failure_is_reported() {
    assert_eq!(
        auth_headers_for(Err("gcloud not found".to_string())),
        Err("Failed to get gcloud token: gcloud not found".to_string())
    );
    assert_eq!(auth_headers_for(Ok("x".to_string())), Ok(auth_headers("x")));
}

#[test]
fn headers_are_added_in_order() {
    let auth = auth_headers("t");
    let custom = pairs(&[("X-Trace", "1"), ("Accept", "text/plain")]);
    let with_body = request_headers(auth.clone(), custom.clone(), true);
    assert_eq!(
        with_body,
        pairs(&[
            ("Authorization", "Bearer t"),
            ("TokenPortal", "t"),
            ("X-Trace", "1"),
            ("Accept", "text/plain"),
            ("Content-Type", "application/json"),
        ])
    );
    assert_eq!(request_headers(Vec::new(), custom.clone(), false), custom);
}

#[test]
fn success_is_the_2xx_range() {
    assert!(status_is_success(200));
    assert!(status_is_success(299));
    assert!(!status_is_success(199));
    assert!(!status_is_success(300));
    assert_eq!(check_status(204), Ok(()));
}

#[test]
fn failed_status_is_reported_with_its_reason() {
    assert_eq!(check_status(404), Err("HTTP 404: Not Found".to_string()));
    assert_eq!(check_status(500), Err("HTTP 500: Internal Server Error".to_string()));
    assert_eq!(check_status(599), Err("HTTP 599: Unknown".to_string()));
}

#[test]
fn reason_phrases_come_from_the_status_table() {
    assert_eq!(canonical_reason(200), Some("OK".to_string()));
    assert_eq!(canonical_reason(418), Some("I'm a teapot".to_string()));
    assert_eq!(canonical_reason(99), None);
    assert_eq!(canonical_reason(1000), None);
    assert_eq!(status_text(201), "Created");
    assert_eq!(status_text(799), "Unknown");
}

#[test]
fn header_values_are_read_when_visible_ascii() {
    assert_eq!(header_text(&b"text/html; charset=utf-8".to_vec()), Some("text/html; charset=utf-8".to_string()));
    assert_eq!(header_text(&b"a\tb".to_vec()), Some("a\tb".to_string()));
    assert_eq!(header_text(&vec![0xc3, 0xa9]), None);
    assert_eq!(header_text(&vec![b'a', 0x7f]), None);
}

#[test]
fn response_headers_keep_readable_values_and_the_last_of_a_name() {
    let raw = vec![
        ("set-cookie".to_string(), b"a=1".to_vec()),
        ("x-bin".to_string(), vec![0xff]),
        ("set-cookie".to_string(), b"b=2".to_vec()),
    ];
    let doc = response_headers_json(&raw);
    assert_eq!(doc.get("set-cookie"), Some(&Json::Str("b=2".into())));
    assert_eq!(doc.get("x-bin"), None);
}

#[test]
fn response_body_documents() {
    assert_eq!(response_data(String::new(), Some(Json::Bool(true))), Json::Null);
    assert_eq!(response_data("[1]".into(), Some(Json::Array(vec![]))), Json::Array(vec![]));
    assert_eq!(response_data("plain".into(), None), Json::Str("plain".into()));
}

#[test]
fn test_request_report() {
    let report = test_request_result(404, Json::Object(vec![]), Json::Null);
    assert_eq!(report.get("status"), Some(&Json::Number(JsonNumber::PosInt(404))));
    assert_eq!(report.get("statusText"), Some(&Json::Str("Not Found".into())));
    assert_eq!(report.get("headers"), Some(&Json::Object(vec![])));
    assert_eq!(report.get("data"), Some(&Json::Null));
}

#[test]
fn response_body_is_parsed_when_it_is_json() {
    let doc = response_body_json("{\"a\":1,\"b\":[-2,true,null],\"c\":\"x\"}".to_string());
    assert_eq!(doc.get("a"), Some(&Json::Number(JsonNumber::PosInt(1))));
    assert_eq!(
        doc.get("b"),
        Some(&Json::Array(vec![Json::Number(JsonNumber::NegInt(-2)), Json::Bool(true), Json::Null]))
    );
    assert_eq!(doc.get("c"), Some(&Json::Str("x".into())));
    assert_eq!(response_body_json("1.5".to_string()), Json::Number(JsonNumber::Float(1.5f64.to_bits())));
}

#[test]
fn response_body_that_is_not_json_is_kept_as_text() {
    assert_eq!(response_body_json("<html>".to_string()), Json::Str("<html>".into()));
    assert_eq!(response_body_json(String::new()), Json::Null);
}

#[test]
fn parse_json_text_refuses_malformed_text() {
    assert_eq!(parse_json_text("{\"a\":"), None);
    assert_eq!(parse_json_text("[]"), Some(Json::Array(vec![])));
}
