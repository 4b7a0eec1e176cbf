//! Planning outgoing HTTP requests and reading their responses: the methods
//! that are accepted, the headers that are sent and in which order, when a
//! status counts as a failure and how it is reported, and the document that
//! describes a response.

use vstd::prelude::*;
use crate::json::{
    Json, JsonNumber, JsonValue, json_text_value, json_view, members_view, lemma_members_view,
    parse_json_text,
};
use crate::text::{decimal_spec, u64_to_decimal};

verus! {

/// Whether two strings hold the same characters.
pub fn same_text(a: &str, b: &str) -> (r: bool)
    ensures
        r == (a@ == b@),
{
    let x = a.to_owned();
    let y = b.to_owned();
    x == y
}

/// The request methods that can be sent.
#[derive(PartialEq, Eq, Structural, Clone, Copy, Debug)]
pub enum HttpMethod {
    Get,
    Post,
    Put,
    Delete,
    Patch,
}

/// The name by which a method is asked for.
pub open spec fn method_name(m: HttpMethod) -> Seq<char> {
    match m {
        HttpMethod::Get => "GET"@,
        HttpMethod::Post => "POST"@,
        HttpMethod::Put => "PUT"@,
        HttpMethod::Delete => "DELETE"@,
        HttpMethod::Patch => "PATCH"@,
    }
}

/// Whether `name` names one of the methods, in capitals.
pub open spec fn is_method_name(name: Seq<char>) -> bool {
    exists|m: HttpMethod| method_name(m) == name
}

/// The message for a method name that is not supported.
pub open spec fn unsupported_method_message(name: Seq<char>) -> Seq<char> {
    "Unsupported method: "@ + name
}

/// The method that `name` asks for: `GET`, `POST`, `PUT`, `DELETE` or
/// `PATCH`, written exactly so; any other name is refused.
pub fn parse_method(name: &str) -> (r: Result<HttpMethod, String>)
    ensures
        r matches Ok(m) ==> method_name(m) == name@,
        r is Ok <==> is_method_name(name@),
        r matches Err(e) ==> e@ == unsupported_method_message(name@),
{
    proof {
        reveal_strlit("GET");
        reveal_strlit("POST");
        reveal_strlit("PUT");
        reveal_strlit("DELETE");
        reveal_strlit("PATCH");
    }
    let found = if same_text(name, "GET") {
        Some(HttpMethod::Get)
    } else if same_text(name, "POST") {
        Some(HttpMethod::Post)
    } else if same_text(name, "PUT") {
        Some(HttpMethod::Put)
    } else if same_text(name, "DELETE") {
        Some(HttpMethod::Delete)
    } else if same_text(name, "PATCH") {
        Some(HttpMethod::Patch)
    } else {
        None
    };
    if let Some(m) = found {
        assert(method_name(m) == name@);
        Ok(m)
    } else {
        assert forall|m: HttpMethod| method_name(m) != name@ by {
            match m {
                HttpMethod::Get => {},
                HttpMethod::Post => {},
                HttpMethod::Put => {},
                HttpMethod::Delete => {},
                HttpMethod::Patch => {},
            }
        }
        let mut e = String::from_str("Unsupported method: ");
        e.append(name);
        Err(e)
    }
}

/// The name of a method.
pub fn method_text(m: HttpMethod) -> (r: String)
    ensures
        r@ == method_name(m),
{
    match m {
        HttpMethod::Get => String::from_str("GET"),
        HttpMethod::Post => String::from_str("POST"),
        HttpMethod::Put => String::from_str("PUT"),
        HttpMethod::Delete => String::from_str("DELETE"),
        HttpMethod::Patch => String::from_str("PATCH"),
    }
}

/// The names and values of a list of headers.
pub open spec fn headers_view(h: Seq<(String, String)>) -> Seq<(Seq<char>, Seq<char>)> {
    h.map_values(|p: (String, String)| (p.0@, p.1@))
}

/// The headers that carry an identity token: a bearer `Authorization`
/// header and a `TokenPortal` header with the bare token.
pub open spec fn auth_headers_spec(token: Seq<char>) -> Seq<(Seq<char>, Seq<char>)> {
    seq![("Authorization"@, "Bearer "@ + token), ("TokenPortal"@, token)]
}

/// The message for a token that could not be had.
pub open spec fn token_failure_message(error: Seq<char>) -> Seq<char> {
    "Failed to get gcloud token: "@ + error
}

/// The headers that carry `token`.
pub fn auth_headers(token: &str) -> (r: Vec<(String, String)>)
    ensures
        headers_view(r@) == auth_headers_spec(token@),
{
    let mut bearer = String::from_str("Bearer ");
    bearer.append(token);
    let r = vec![
        (String::from_str("Authorization"), bearer),
        (String::from_str("TokenPortal"), token.to_owned()),
    ];
    assert(headers_view(r@) =~= auth_headers_spec(token@));
    r
}

/// The authentication headers for the outcome of a token lookup: the token's
/// headers, or the lookup's error behind `Failed to get gcloud token: `.
pub fn auth_headers_for(token: Result<String, String>) -> (r: Result<Vec<(String, String)>, String>)
    ensures
        match token {
            Ok(t) => r matches Ok(h) && headers_view(h@) == auth_headers_spec(t@),
            Err(e) => r matches Err(m) && m@ == token_failure_message(e@),
        },
{
    match token {
        Ok(t) => Ok(auth_headers(t.as_str())),
        Err(e) => {
            let mut m = String::from_str("Failed to get gcloud token: ");
            m.append(e.as_str());
            Err(m)
        },
    }
}

/// The header that announces a JSON body.
pub open spec fn json_content_type_spec() -> (Seq<char>, Seq<char>) {
    ("Content-Type"@, "application/json"@)
}

/// The headers of a request in the order they are added: the
/// authentication headers, the caller's own headers, and, when the request
/// has a body, the JSON content type.
pub open spec fn request_headers_spec(
    auth: Seq<(Seq<char>, Seq<char>)>,
    custom: Seq<(Seq<char>, Seq<char>)>,
    has_body: bool,
) -> Seq<(Seq<char>, Seq<char>)> {
    if has_body {
        auth + custom + seq![json_content_type_spec()]
    } else {
        auth + custom
    }
}

/// The headers of a request, in the order in which they are added to it.
pub fn request_headers(
    auth: Vec<(String, String)>,
    custom: Vec<(String, String)>,
    has_body: bool,
) -> (r: Vec<(String, String)>)
    ensures
        headers_view(r@) == request_headers_spec(headers_view(auth@), headers_view(custom@), has_body),
{
    let mut r = auth;
    let mut i: usize = 0;
    let ghost a = r@;
    while i < custom.len()
        invariant
            i <= custom.len(),
            r@ == a + custom@.take(i as int),
        decreases custom.len() - i,
    {
        let pair = (custom[i].0.clone(), custom[i].1.clone());
        r.push(pair);
        assert(custom@.take(i + 1) =~= custom@.take(i as int).push(custom@[i as int]));
        i = i + 1;
    }
    assert(custom@.take(custom.len() as int) =~= custom@);
    if has_body {
        r.push((String::from_str("Content-Type"), String::from_str("application/json")));
    }
    assert(headers_view(r@) =~= request_headers_spec(headers_view(a), headers_view(custom@), has_body));
    r
}

/// The planned headers are all the authentication headers in their order,
/// then all the caller's headers in their order, whether or not the request
/// has a body; a body adds exactly one header at the end, the JSON content
/// type, and no body adds none.
pub proof fn lemma_request_headers_order(
    auth: Seq<(Seq<char>, Seq<char>)>,
    custom: Seq<(Seq<char>, Seq<char>)>,
    has_body: bool,
)
    ensures
        ({
            let h = request_headers_spec(auth, custom, has_body);
            &&& h.len() == auth.len() + custom.len() + (if has_body { 1int } else { 0int })
            &&& forall|k: int| 0 <= k < auth.len() ==> h[k] == auth[k]
            &&& forall|k: int| 0 <= k < custom.len() ==> h[auth.len() + k] == custom[k]
            &&& has_body ==> h[h.len() - 1] == ("Content-Type"@, "application/json"@)
        }),
{
}

/// Whether a status code reports success: it lies within 200-299, as
/// `StatusCode::is_success` checks.
pub open spec fn is_success_status(code: u16) -> bool {
    200 <= code <= 299
}

/// Whether a status code reports success.
pub fn status_is_success(code: u16) -> (r: bool)
    ensures
        r == is_success_status(code),
{
    200 <= code && code <= 299
}

/// The reason phrase that `http::StatusCode::canonical_reason` gives for
/// the status `code`, when it knows one.
pub uninterp spec fn canonical_reason_phrase(code: u16) -> Option<Seq<char>>;

/// Calls `StatusCode::from_u16` and `StatusCode::canonical_reason` (from
/// the `http` crate, as `reqwest` exports it). A code outside 100-999 is no
/// status code and has no phrase; for the others the phrase is left
/// unstated beyond its name.
#[verifier::external_body]
pub fn canonical_reason(code: u16) -> (r: Option<String>)
    ensures
        match r {
            Some(p) => canonical_reason_phrase(code) == Some(p@),
            None => canonical_reason_phrase(code) is None,
        },
        !(100 <= code <= 999) ==> r is None,
{
    match reqwest::StatusCode::from_u16(code) {
        Ok(status) => match status.canonical_reason() {
            Some(p) => Some(p.to_string()),
            None => None,
        },
        Err(_) => None,
    }
}

/// The text shown for a status: its reason phrase, or `Unknown`.
pub open spec fn status_text_spec(code: u16) -> Seq<char> {
    match canonical_reason_phrase(code) {
        Some(p) => p,
        None => "Unknown"@,
    }
}

/// The message with which a failed status is reported.
pub open spec fn status_failure_message(code: u16) -> Seq<char> {
    "HTTP "@ + decimal_spec(code as nat) + ": "@ + status_text_spec(code)
}

/// The text shown for a status.
pub fn status_text(code: u16) -> (r: String)
    ensures
        r@ == status_text_spec(code),
{
    match canonical_reason(code) {
        Some(p) => p,
        None => String::from_str("Unknown"),
    }
}

/// Accepts a successful status and reports any other as
/// `HTTP <code>: <reason>`.
pub fn check_status(code: u16) -> (r: Result<(), String>)
    ensures
        r is Ok <==> is_success_status(code),
        r matches Err(e) ==> e@ == status_failure_message(code),
{
    if status_is_success(code) {
        Ok(())
    } else {
        let mut e = String::from_str("HTTP ");
        let digits = u64_to_decimal(code as u64);
        e.append(digits.as_str());
        e.append(": ");
        let reason = status_text(code);
        e.append(reason.as_str());
        Err(e)
    }
}

/// Whether a header byte is readable as text: visible ASCII or a tab, the
/// bytes that `HeaderValue::to_str` accepts.
pub open spec fn is_visible_ascii(b: u8) -> bool {
    (32 <= b && b < 127) || b == 9
}

/// The text of a header value when all its bytes are readable.
pub open spec fn header_text_spec(bytes: Seq<u8>) -> Option<Seq<char>> {
    if forall|k: int| 0 <= k < bytes.len() ==> is_visible_ascii(#[trigger] bytes[k]) {
        Some(bytes.map_values(|b: u8| b as char))
    } else {
        None
    }
}

/// The text of a header value, as `HeaderValue::to_str` reads it.
pub fn header_text(bytes: &Vec<u8>) -> (r: Option<String>)
    ensures
        match r {
            Some(s) => header_text_spec(bytes@) == Some(s@),
            None => header_text_spec(bytes@) is None,
        },
{
    let mut s = String::new();
    let mut i: usize = 0;
    while i < bytes.len()
        invariant
            i <= bytes.len(),
            s@ =~= bytes@.take(i as int).map_values(|b: u8| b as char),
            forall|k: int| 0 <= k < i ==> is_visible_ascii(#[trigger] bytes@[k]),
        decreases bytes.len() - i,
    {
        let b = bytes[i];
        if !((32 <= b && b < 127) || b == 9) {
            return None;
        }
        s.push(b as char);
        assert(bytes@.take(i + 1).map_values(|b: u8| b as char) =~= bytes@.take(
            i as int,
        ).map_values(|b: u8| b as char).push(b as char));
        i = i + 1;
    }
    assert(bytes@.take(bytes.len() as int) =~= bytes@);
    Some(s)
}

/// The members of the response-header document: each header whose value is
/// readable, in order, with its value as a string. A name that occurs more
/// than once is read by its last readable value, as when the headers are
/// collected into a map.
pub open spec fn readable_headers(h: Seq<(Seq<char>, Seq<u8>)>) -> Seq<(Seq<char>, JsonValue)>
    decreases h.len(),
{
    if h.len() == 0 {
        Seq::empty()
    } else {
        let rest = readable_headers(h.drop_last());
        match header_text_spec(h.last().1) {
            Some(t) => rest.push((h.last().0, JsonValue::Str(t))),
            None => rest,
        }
    }
}

/// The names and raw values of a list of response headers.
pub open spec fn raw_headers_view(h: Seq<(String, Vec<u8>)>) -> Seq<(Seq<char>, Seq<u8>)> {
    h.map_values(|p: (String, Vec<u8>)| (p.0@, p.1@))
}

/// The document of a response's headers, from their names and raw values.
pub fn response_headers_json(headers: &Vec<(String, Vec<u8>)>) -> (r: Json)
    ensures
        r@ == JsonValue::Object(readable_headers(raw_headers_view(headers@))),
{
    let ghost hv = raw_headers_view(headers@);
    let mut members: Vec<(String, Json)> = Vec::new();
    let mut i: usize = 0;
    proof {
        lemma_members_view(members@);
        assert(hv.take(0) =~= Seq::<(Seq<char>, Seq<u8>)>::empty());
    }
    while i < headers.len()
        invariant
            i <= headers.len(),
            hv == raw_headers_view(headers@),
            members_view(members@) =~= readable_headers(hv.take(i as int)),
        decreases headers.len() - i,
    {
        assert(hv.take(i + 1).drop_last() =~= hv.take(i as int));
        assert(hv.take(i + 1).last() == hv[i as int]);
        assert(hv[i as int] == (headers@[i as int].0@, headers@[i as int].1@));
        match header_text(&headers[i].1) {
            Some(t) => {
                let ghost before = members@;
                let name = headers[i].0.clone();
                let ghost tv = t@;
                members.push((name, Json::Str(t)));
                assert(members@.drop_last() =~= before);
                assert(members@.last().0@ == hv[i as int].0);
                assert(json_view(members@.last().1) == JsonValue::Str(tv));
            },
            None => {},
        }
        i = i + 1;
    }
    assert(hv.take(headers.len() as int) =~= hv);
    Json::Object(members)
}

/// The document of a response body: `null` for an empty body, the parsed
/// document when the body is JSON, and the body as a string otherwise.
/// `parsed` is what the JSON parser made of `text`.
pub fn response_data(text: String, parsed: Option<Json>) -> (r: Json)
    ensures
        text@.len() == 0 ==> r@ == JsonValue::Null,
        text@.len() != 0 ==> match parsed {
            Some(v) => r@ == v@,
            None => r@ == JsonValue::Str(text@),
        },
{
    if text.as_str().is_empty() {
        Json::Null
    } else {
        match parsed {
            Some(v) => v,
            None => Json::Str(text),
        }
    }
}

/// The document of a response body: `null` for an empty body, the document
/// that the JSON parser reads from it when it is JSON, and the body as a
/// string otherwise.
pub fn response_body_json(text: String) -> (r: Json)
    ensures
        text@.len() == 0 ==> r@ == JsonValue::Null,
        text@.len() != 0 ==> match json_text_value(text@) {
            Some(v) => r@ == v,
            None => r@ == JsonValue::Str(text@),
        },
{
    if text.as_str().is_empty() {
        Json::Null
    } else {
        let parsed = parse_json_text(text.as_str());
        response_data(text, parsed)
    }
}

/// The document that reports a test request's response.
pub open spec fn test_result_value(code: u16, headers: JsonValue, data: JsonValue) -> JsonValue {
    JsonValue::Object(
        seq![
            ("status"@, JsonValue::Number(JsonNumber::PosInt(code as u64))),
            ("statusText"@, JsonValue::Str(status_text_spec(code))),
            ("headers"@, headers),
            ("data"@, data),
        ],
    )
}

/// Reports a test request's response: its status, the status text, its
/// readable headers and its body document.
pub fn test_request_result(code: u16, headers: Json, data: Json) -> (r: Json)
    ensures
        r@ == test_result_value(code, headers@, data@),
{
    let text = status_text(code);
    let members = vec![
        (String::from_str("status"), Json::Number(JsonNumber::PosInt(code as u64))),
        (String::from_str("statusText"), Json::Str(text)),
        (String::from_str("headers"), headers),
        (String::from_str("data"), data),
    ];
    proof {
        lemma_members_view(members@);
    }
    assert(members_view(members@) =~= seq![
        ("status"@, JsonValue::Number(JsonNumber::PosInt(code as u64))),
        ("statusText"@, JsonValue::Str(status_text_spec(code))),
        ("headers"@, headers@),
        ("data"@, data@),
    ]);
    Json::Object(members)
}


/// The last readable value of the header `name`, as a string document.
pub open spec fn last_readable_value(h: Seq<(Seq<char>, Seq<u8>)>, name: Seq<char>) -> Option<JsonValue>
    decreases h.len(),
{
    if h.len() == 0 {
        None
    } else if h.last().0 == name && header_text_spec(h.last().1) is Some {
        Some(JsonValue::Str(header_text_spec(h.last().1)->0))
    } else {
        last_readable_value(h.drop_last(), name)
    }
}

/// The response-header document answers for each header name with that
/// header's last readable value, as a map filled from the headers in order
/// would, and has no member for a name that has none.
pub proof fn lemma_response_headers_lookup(h: Seq<(Seq<char>, Seq<u8>)>, name: Seq<char>)
    ensures
        JsonValue::Object(readable_headers(h)).get(name) == last_readable_value(h, name),
    decreases h.len(),
{
    if h.len() > 0 {
        lemma_response_headers_lookup(h.drop_last(), name);
        let rest = readable_headers(h.drop_last());
        match header_text_spec(h.last().1) {
            Some(t) => {
                let m = rest.push((h.last().0, JsonValue::Str(t)));
                assert(m.drop_last() =~= rest);
                assert(readable_headers(h) == m);
            },
            None => {
                assert(readable_headers(h) == rest);
            },
        }
    } else {
        assert(readable_headers(h) == Seq::<(Seq<char>, JsonValue)>::empty());
    }
}

/// Different methods have different names, so a method's name is read back
/// as that method.
pub proof fn lemma_method_names_distinct(a: HttpMethod, b: HttpMethod)
    ensures
        method_name(a) == method_name(b) ==> a == b,
{
    reveal_strlit("GET");
    reveal_strlit("POST");
    reveal_strlit("PUT");
    reveal_strlit("DELETE");
    reveal_strlit("PATCH");
    if method_name(a) == method_name(b) && a != b {
        assert(method_name(a).len() == method_name(b).len());
        assert(method_name(a)[0] == method_name(b)[0]);
    }
}

} // verus!
