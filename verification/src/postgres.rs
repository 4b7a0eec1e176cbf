//! The PostgreSQL side: the connection settings kept as a secret, the
//! connection string, the schema, and the rows that saving and listing
//! value sets and test results write and read.

use vstd::prelude::*;
use crate::gcloud::account_or_unknown;
use crate::json::{Json, JsonValue, members_view, lemma_members_view, lemma_member_value_at};
use crate::text::{i64_to_decimal, signed_decimal_spec};

verus! {

/// The connection settings of the database, as kept in a secret.
#[derive(Debug, Clone, PartialEq, Eq)]
pub struct PostgresConfig {
    pub host: String,
    pub port: i32,
    pub db: String,
    pub schema: String,
    pub user: String,
    pub pw: String,
}

/// The connection string of `c`: user, password, host, port and database,
/// with the schema as the search path. The parts are inserted as they are.
pub open spec fn connection_string_spec(c: PostgresConfig) -> Seq<char> {
    "postgres://"@ + c.user@ + ":"@ + c.pw@ + "@"@ + c.host@ + ":"@ + signed_decimal_spec(c.port as int)
        + "/"@ + c.db@ + "?search_path="@ + c.schema@
}

/// The connection string of `config`.
pub fn connection_string(config: &PostgresConfig) -> (r: String)
    ensures
        r@ == connection_string_spec(*config),
{
    let mut s = String::from_str("postgres://");
    s.append(config.user.as_str());
    s.append(":");
    s.append(config.pw.as_str());
    s.append("@");
    s.append(config.host.as_str());
    s.append(":");
    let port = i64_to_decimal(config.port as i64);
    s.append(port.as_str());
    s.append("/");
    s.append(config.db.as_str());
    s.append("?search_path=");
    s.append(config.schema.as_str());
    s
}

/// The outcome of reading the secret's text as settings: the settings, or
/// the parser's message behind `Failed to parse PostgreSQL config: `.
pub fn config_from_parse(parsed: Result<PostgresConfig, String>) -> (r: Result<PostgresConfig, String>)
    ensures
        match parsed {
            Ok(c) => r == Ok::<PostgresConfig, String>(c),
            Err(e) => r matches Err(m) && m@ == "Failed to parse PostgreSQL config: "@ + e@,
        },
{
    match parsed {
        Ok(c) => Ok(c),
        Err(e) => {
            let mut m = String::from_str("Failed to parse PostgreSQL config: ");
            m.append(e.as_str());
            Err(m)
        },
    }
}

/// The table of saved value sets.
pub const CREATE_VALUE_SETS_TABLE: &'static str = "
        CREATE TABLE IF NOT EXISTS value_sets (
            id VARCHAR(255) PRIMARY KEY,
            name VARCHAR(255) NOT NULL,
            config_id VARCHAR(255) NOT NULL,
            endpoint_method VARCHAR(10) NOT NULL,
            endpoint_path VARCHAR(500) NOT NULL,
            path_params JSONB,
            query_params JSONB,
            body TEXT,
            created_at TIMESTAMP WITH TIME ZONE DEFAULT NOW(),
            user_account VARCHAR(255)
        )
    ";

/// The table of saved test results.
pub const CREATE_TEST_RESULTS_TABLE: &'static str = "
        CREATE TABLE IF NOT EXISTS test_results (
            id VARCHAR(255) PRIMARY KEY,
            name VARCHAR(255) NOT NULL,
            config_id VARCHAR(255) NOT NULL,
            endpoint_method VARCHAR(10) NOT NULL,
            endpoint_path VARCHAR(500) NOT NULL,
            request_data JSONB,
            response_data JSONB,
            timestamp TIMESTAMP WITH TIME ZONE DEFAULT NOW(),
            user_account VARCHAR(255)
        )
    ";

/// The index of value sets by configuration and endpoint.
pub const CREATE_VALUE_SETS_INDEX: &'static str = "CREATE INDEX IF NOT EXISTS idx_value_sets_config_endpoint ON value_sets (config_id, endpoint_method, endpoint_path)";

/// The index of test results by configuration and endpoint.
pub const CREATE_TEST_RESULTS_INDEX: &'static str = "CREATE INDEX IF NOT EXISTS idx_test_results_config_endpoint ON test_results (config_id, endpoint_method, endpoint_path)";

/// Saves a value set; an existing one with the same id is updated. The
/// parameters are bound in the order of `ValueSetRecord::bind_order`.
pub const UPSERT_VALUE_SET: &'static str = "
        INSERT INTO value_sets (id, name, config_id, endpoint_method, endpoint_path, path_params, query_params, body, user_account)
        VALUES ($1, $2, $3, $4, $5, $6, $7, $8, $9)
        ON CONFLICT (id) DO UPDATE SET
            name = EXCLUDED.name,
            path_params = EXCLUDED.path_params,
            query_params = EXCLUDED.query_params,
            body = EXCLUDED.body,
            user_account = EXCLUDED.user_account
    ";

/// Saves a test result; an existing one with the same id is updated.
pub const UPSERT_TEST_RESULT: &'static str = "
        INSERT INTO test_results (id, name, config_id, endpoint_method, endpoint_path, request_data, response_data, user_account)
        VALUES ($1, $2, $3, $4, $5, $6, $7, $8)
        ON CONFLICT (id) DO UPDATE SET
            name = EXCLUDED.name,
            request_data = EXCLUDED.request_data,
            response_data = EXCLUDED.response_data,
            user_account = EXCLUDED.user_account
    ";

/// The value sets of one configuration, newest first.
pub const LIST_VALUE_SETS: &'static str = "
        SELECT id, name, config_id, endpoint_method, endpoint_path, 
               path_params, query_params, body, created_at, user_account
        FROM value_sets 
        WHERE config_id = $1
        ORDER BY created_at DESC
    ";

/// The test results of one configuration, newest first.
pub const LIST_TEST_RESULTS: &'static str = "
        SELECT id, name, config_id, endpoint_method, endpoint_path, 
               request_data, response_data, timestamp, user_account
        FROM test_results 
        WHERE config_id = $1
        ORDER BY timestamp DESC
    ";

/// One statement of the schema and the words with which its failure is
/// reported.
#[derive(Debug)]
pub struct SchemaStep {
    pub sql: &'static str,
    pub failure: &'static str,
}

/// The statements that create the schema, in the order they are run.
pub fn schema_steps() -> (r: Vec<SchemaStep>)
    ensures
        r.len() == 4,
        r@[0].sql == CREATE_VALUE_SETS_TABLE && r@[0].failure@ == "Failed to create value_sets table"@,
        r@[1].sql == CREATE_TEST_RESULTS_TABLE && r@[1].failure@ == "Failed to create test_results table"@,
        r@[2].sql == CREATE_VALUE_SETS_INDEX && r@[2].failure@ == "Failed to create value_sets index"@,
        r@[3].sql == CREATE_TEST_RESULTS_INDEX && r@[3].failure@ == "Failed to create test_results index"@,
{
    vec![
        SchemaStep { sql: CREATE_VALUE_SETS_TABLE, failure: "Failed to create value_sets table" },
        SchemaStep { sql: CREATE_TEST_RESULTS_TABLE, failure: "Failed to create test_results table" },
        SchemaStep { sql: CREATE_VALUE_SETS_INDEX, failure: "Failed to create value_sets index" },
        SchemaStep { sql: CREATE_TEST_RESULTS_INDEX, failure: "Failed to create test_results index" },
    ]
}

/// The report after the schema has been created.
pub const SCHEMA_CREATED: &'static str = "PostgreSQL tables created successfully";


/// Whether `c` is a lower-case hexadecimal digit.
pub open spec fn is_lower_hex(c: char) -> bool {
    ('0' <= c <= '9') || ('a' <= c <= 'f')
}

/// Whether `s` is a random (version 4, RFC 9562 variant) UUID written as
/// lower-case hexadecimal in the hyphenated 8-4-4-4-12 form.
pub open spec fn is_v4_uuid_text(s: Seq<char>) -> bool {
    &&& s.len() == 36
    &&& forall|k: int|
        0 <= k < 36 ==> if k == 8 || k == 13 || k == 18 || k == 23 {
            #[trigger] s[k] == '-'
        } else {
            is_lower_hex(s[k])
        }
    &&& s[14] == '4'
    &&& (s[19] == '8' || s[19] == '9' || s[19] == 'a' || s[19] == 'b')
}

/// Calls `uuid::Uuid::new_v4` and writes the result with `to_string`. The
/// value is random; what holds of every outcome is its form.
#[verifier::external_body]
pub fn new_uuid() -> (r: String)
    ensures
        is_v4_uuid_text(r@),
{
    uuid::Uuid::new_v4().to_string()
}

/// A value set as it is saved. Its parameters are bound to
/// `UPSERT_VALUE_SET` in field order.
#[derive(Debug, PartialEq)]
pub struct ValueSetRecord {
    pub id: String,
    pub name: String,
    pub config_id: String,
    pub endpoint_method: String,
    pub endpoint_path: String,
    pub path_params: Json,
    pub query_params: Json,
    pub body: String,
    pub user_account: String,
}

/// A test result as it is saved. Its parameters are bound to
/// `UPSERT_TEST_RESULT` in field order; a missing request or response is
/// stored as SQL `NULL`.
#[derive(Debug, PartialEq)]
pub struct TestResultRecord {
    pub id: String,
    pub name: String,
    pub config_id: String,
    pub endpoint_method: String,
    pub endpoint_path: String,
    pub request: Option<Json>,
    pub response: Option<Json>,
    pub user_account: String,
}

/// The text member `key` of `data`, or `default` when it is missing or not
/// a string.
pub open spec fn text_or(data: JsonValue, key: Seq<char>, default: Seq<char>) -> Seq<char> {
    match data.text_member(key) {
        Some(t) => t,
        None => default,
    }
}

/// The member `key` of `data`, or an empty object when it is missing.
pub open spec fn member_or_empty(data: JsonValue, key: Seq<char>) -> JsonValue {
    match data.get(key) {
        Some(v) => v,
        None => JsonValue::Object(Seq::empty()),
    }
}

/// Whether an optional copy holds exactly the expected member value.
pub open spec fn optional_member(data: Option<Json>, expected: Option<JsonValue>) -> bool {
    match (data, expected) {
        (Some(d), Some(e)) => d@ == e,
        (None, None) => true,
        _ => false,
    }
}

/// The text of an account lookup, with `unknown` for a failed one.
pub open spec fn account_text(account: Result<String, String>) -> Seq<char> {
    match account {
        Ok(a) => a@,
        Err(_) => "unknown"@,
    }
}

/// The text member `key` of `data`, or `default`.
pub fn text_member_or(data: &Json, key: &str, default: &str) -> (r: String)
    ensures
        r@ == text_or(data@, key@, default@),
{
    match data.get(key) {
        Some(v) => match v.as_text() {
            Some(t) => t.clone(),
            None => default.to_owned(),
        },
        None => default.to_owned(),
    }
}

/// A copy of the member `key` of `data`, or an empty object.
pub fn member_or_empty_object(data: &Json, key: &str) -> (r: Json)
    ensures
        r@ == member_or_empty(data@, key@),
{
    match data.get(key) {
        Some(v) => v.duplicate(),
        None => {
            let r = Json::Object(Vec::new());
            proof {
                lemma_members_view(Seq::<(String, Json)>::empty());
            }
            assert(members_view(Seq::<(String, Json)>::empty()) =~= Seq::<(Seq<char>, JsonValue)>::empty());
            r
        },
    }
}

/// A copy of the member `key` of `data`, if present.
pub fn member_copy(data: &Json, key: &str) -> (r: Option<Json>)
    ensures
        optional_member(r, data@.get(key@)),
{
    match data.get(key) {
        Some(v) => Some(v.duplicate()),
        None => None,
    }
}

/// The value set saved from `data` for an endpoint: its `id` (or
/// `fresh_id` when it has none), its `name` (or `unnamed`), its
/// `pathParams` and `queryParams` (or empty objects), its `body` (or an
/// empty text), and the account (or `unknown`).
pub fn value_set_record_with_id(
    config_id: &str,
    endpoint_method: &str,
    endpoint_path: &str,
    data: &Json,
    fresh_id: &str,
    account: Result<String, String>,
) -> (r: ValueSetRecord)
    ensures
        r.id@ == text_or(data@, "id"@, fresh_id@),
        r.name@ == text_or(data@, "name"@, "unnamed"@),
        r.config_id@ == config_id@,
        r.endpoint_method@ == endpoint_method@,
        r.endpoint_path@ == endpoint_path@,
        r.path_params@ == member_or_empty(data@, "pathParams"@),
        r.query_params@ == member_or_empty(data@, "queryParams"@),
        r.body@ == text_or(data@, "body"@, ""@),
        r.user_account@ == account_text(account),
{
    ValueSetRecord {
        id: text_member_or(data, "id", fresh_id),
        name: text_member_or(data, "name", "unnamed"),
        config_id: config_id.to_owned(),
        endpoint_method: endpoint_method.to_owned(),
        endpoint_path: endpoint_path.to_owned(),
        path_params: member_or_empty_object(data, "pathParams"),
        query_params: member_or_empty_object(data, "queryParams"),
        body: text_member_or(data, "body", ""),
        user_account: account_or_unknown(account),
    }
}

/// The value set saved from `data`, with a new random id for data that
/// carries none.
pub fn value_set_record(
    config_id: &str,
    endpoint_method: &str,
    endpoint_path: &str,
    data: &Json,
    account: Result<String, String>,
) -> (r: ValueSetRecord)
    ensures
        match data@.text_member("id"@) {
            Some(id) => r.id@ == id,
            None => is_v4_uuid_text(r.id@),
        },
        r.name@ == text_or(data@, "name"@, "unnamed"@),
        r.config_id@ == config_id@,
        r.endpoint_method@ == endpoint_method@,
        r.endpoint_path@ == endpoint_path@,
        r.path_params@ == member_or_empty(data@, "pathParams"@),
        r.query_params@ == member_or_empty(data@, "queryParams"@),
        r.body@ == text_or(data@, "body"@, ""@),
        r.user_account@ == account_text(account),
{
    let fresh = new_uuid();
    value_set_record_with_id(config_id, endpoint_method, endpoint_path, data, fresh.as_str(), account)
}

/// The test result saved from `data` for an endpoint: its `id` (or
/// `fresh_id`), its `name` (or `unnamed`), its `request` and `response`
/// members where present, and the account (or `unknown`).
pub fn test_result_record_with_id(
    config_id: &str,
    endpoint_method: &str,
    endpoint_path: &str,
    data: &Json,
    fresh_id: &str,
    account: Result<String, String>,
) -> (r: TestResultRecord)
    ensures
        r.id@ == text_or(data@, "id"@, fresh_id@),
        r.name@ == text_or(data@, "name"@, "unnamed"@),
        r.config_id@ == config_id@,
        r.endpoint_method@ == endpoint_method@,
        r.endpoint_path@ == endpoint_path@,
        optional_member(r.request, data@.get("request"@)),
        optional_member(r.response, data@.get("response"@)),
        r.user_account@ == account_text(account),
{
    TestResultRecord {
        id: text_member_or(data, "id", fresh_id),
        name: text_member_or(data, "name", "unnamed"),
        config_id: config_id.to_owned(),
        endpoint_method: endpoint_method.to_owned(),
        endpoint_path: endpoint_path.to_owned(),
        request: member_copy(data, "request"),
        response: member_copy(data, "response"),
        user_account: account_or_unknown(account),
    }
}

/// The test result saved from `data`, with a new random id for data that
/// carries none.
pub fn test_result_record(
    config_id: &str,
    endpoint_method: &str,
    endpoint_path: &str,
    data: &Json,
    account: Result<String, String>,
) -> (r: TestResultRecord)
    ensures
        match data@.text_member("id"@) {
            Some(id) => r.id@ == id,
            None => is_v4_uuid_text(r.id@),
        },
        r.name@ == text_or(data@, "name"@, "unnamed"@),
        r.config_id@ == config_id@,
        r.endpoint_method@ == endpoint_method@,
        r.endpoint_path@ == endpoint_path@,
        optional_member(r.request, data@.get("request"@)),
        optional_member(r.response, data@.get("response"@)),
        r.user_account@ == account_text(account),
{
    let fresh = new_uuid();
    test_result_record_with_id(config_id, endpoint_method, endpoint_path, data, fresh.as_str(), account)
}


/// A saved value set as it is read back, with its creation time written in
/// RFC 3339.
#[derive(Debug, PartialEq)]
pub struct ValueSetRow {
    pub id: String,
    pub name: String,
    pub config_id: String,
    pub endpoint_method: String,
    pub endpoint_path: String,
    pub path_params: Json,
    pub query_params: Json,
    pub body: String,
    pub created_at: String,
    pub user_account: String,
}

/// A saved test result as it is read back, with its time written in
/// RFC 3339.
#[derive(Debug, PartialEq)]
pub struct TestResultRow {
    pub id: String,
    pub name: String,
    pub config_id: String,
    pub endpoint_method: String,
    pub endpoint_path: String,
    pub request_data: Json,
    pub response_data: Json,
    pub timestamp: String,
    pub user_account: String,
}

/// The document that lists a saved value set.
pub open spec fn value_set_row_value(row: ValueSetRow) -> JsonValue {
    JsonValue::Object(
        seq![
            ("id"@, JsonValue::Str(row.id@)),
            ("name"@, JsonValue::Str(row.name@)),
            ("configId"@, JsonValue::Str(row.config_id@)),
            (
                "endpoint"@,
                JsonValue::Object(
                    seq![
                        ("method"@, JsonValue::Str(row.endpoint_method@)),
                        ("path"@, JsonValue::Str(row.endpoint_path@)),
                    ],
                ),
            ),
            ("pathParams"@, row.path_params@),
            ("queryParams"@, row.query_params@),
            ("body"@, JsonValue::Str(row.body@)),
            ("createdAt"@, JsonValue::Str(row.created_at@)),
            ("userAccount"@, JsonValue::Str(row.user_account@)),
        ],
    )
}

/// The document that lists a saved test result.
pub open spec fn test_result_row_value(row: TestResultRow) -> JsonValue {
    JsonValue::Object(
        seq![
            ("id"@, JsonValue::Str(row.id@)),
            ("name"@, JsonValue::Str(row.name@)),
            (
                "endpoint"@,
                JsonValue::Object(
                    seq![
                        ("method"@, JsonValue::Str(row.endpoint_method@)),
                        ("path"@, JsonValue::Str(row.endpoint_path@)),
                        ("configId"@, JsonValue::Str(row.config_id@)),
                    ],
                ),
            ),
            ("request"@, row.request_data@),
            ("response"@, row.response_data@),
            ("timestamp"@, JsonValue::Str(row.timestamp@)),
            ("userAccount"@, JsonValue::Str(row.user_account@)),
            ("storageLocation"@, JsonValue::Str("database"@)),
        ],
    )
}

fn member(key: &str, value: Json) -> (r: (String, Json))
    ensures
        r.0@ == key@,
        r.1@ == value@,
{
    (key.to_owned(), value)
}

/// The document that lists a saved value set.
pub fn value_set_row_json(row: ValueSetRow) -> (r: Json)
    ensures
        r@ == value_set_row_value(row),
{
    let ghost old_row = row;
    let endpoint = vec![
        member("method", Json::Str(row.endpoint_method)),
        member("path", Json::Str(row.endpoint_path)),
    ];
    proof {
        lemma_members_view(endpoint@);
    }
    assert(members_view(endpoint@) =~= seq![
            ("method"@, JsonValue::Str(old_row.endpoint_method@)),
            ("path"@, JsonValue::Str(old_row.endpoint_path@)),
        ]);
    let endpoint = Json::Object(endpoint);
    let members = vec![
        member("id", Json::Str(row.id)),
        member("name", Json::Str(row.name)),
        member("configId", Json::Str(row.config_id)),
        member("endpoint", endpoint),
        member("pathParams", row.path_params),
        member("queryParams", row.query_params),
        member("body", Json::Str(row.body)),
        member("createdAt", Json::Str(row.created_at)),
        member("userAccount", Json::Str(row.user_account)),
    ];
    proof {
        lemma_members_view(members@);
    }
    assert(members_view(members@) =~= value_set_row_value(old_row)->Object_0);
    Json::Object(members)
}

/// The document that lists a saved test result.
pub fn test_result_row_json(row: TestResultRow) -> (r: Json)
    ensures
        r@ == test_result_row_value(row),
{
    let ghost old_row = row;
    let endpoint = vec![
        member("method", Json::Str(row.endpoint_method)),
        member("path", Json::Str(row.endpoint_path)),
        member("configId", Json::Str(row.config_id)),
    ];
    proof {
        lemma_members_view(endpoint@);
    }
    assert(members_view(endpoint@) =~= seq![
            ("method"@, JsonValue::Str(old_row.endpoint_method@)),
            ("path"@, JsonValue::Str(old_row.endpoint_path@)),
            ("configId"@, JsonValue::Str(old_row.config_id@)),
        ]);
    let endpoint = Json::Object(endpoint);
    let members = vec![
        member("id", Json::Str(row.id)),
        member("name", Json::Str(row.name)),
        member("endpoint", endpoint),
        member("request", row.request_data),
        member("response", row.response_data),
        member("timestamp", Json::Str(row.timestamp)),
        member("userAccount", Json::Str(row.user_account)),
        member("storageLocation", Json::text("database")),
    ];
    proof {
        lemma_members_view(members@);
    }
    assert(members_view(members@) =~= test_result_row_value(old_row)->Object_0);
    Json::Object(members)
}


/// The row that the database gives back for a saved value set, with the
/// creation time that it assigned.
pub open spec fn saved_value_set_row(r: ValueSetRecord, created_at: String) -> ValueSetRow {
    ValueSetRow {
        id: r.id,
        name: r.name,
        config_id: r.config_id,
        endpoint_method: r.endpoint_method,
        endpoint_path: r.endpoint_path,
        path_params: r.path_params,
        query_params: r.query_params,
        body: r.body,
        created_at,
        user_account: r.user_account,
    }
}

/// A listed value set shows back what was saved: each member of its
/// document holds the saved field of the same meaning.
pub proof fn lemma_listing_shows_saved_value_set(r: ValueSetRecord, created_at: String)
    ensures
        ({
            let doc = value_set_row_value(saved_value_set_row(r, created_at));
            &&& doc.get("id"@) == Some(JsonValue::Str(r.id@))
            &&& doc.get("name"@) == Some(JsonValue::Str(r.name@))
            &&& doc.get("configId"@) == Some(JsonValue::Str(r.config_id@))
            &&& doc.get("endpoint"@) matches Some(e) && e.get("method"@) == Some(
                JsonValue::Str(r.endpoint_method@),
            ) && e.get("path"@) == Some(JsonValue::Str(r.endpoint_path@))
            &&& doc.get("pathParams"@) == Some(r.path_params@)
            &&& doc.get("queryParams"@) == Some(r.query_params@)
            &&& doc.get("body"@) == Some(JsonValue::Str(r.body@))
            &&& doc.get("createdAt"@) == Some(JsonValue::Str(created_at@))
            &&& doc.get("userAccount"@) == Some(JsonValue::Str(r.user_account@))
        }),
{
    reveal_strlit("id");
    reveal_strlit("name");
    reveal_strlit("configId");
    reveal_strlit("endpoint");
    reveal_strlit("method");
    reveal_strlit("path");
    reveal_strlit("pathParams");
    reveal_strlit("queryParams");
    reveal_strlit("body");
    reveal_strlit("createdAt");
    reveal_strlit("userAccount");
    let row = saved_value_set_row(r, created_at);
    let m = value_set_row_value(row)->Object_0;
    let e = seq![
        ("method"@, JsonValue::Str(row.endpoint_method@)),
        ("path"@, JsonValue::Str(row.endpoint_path@)),
    ];
    assert(m[0].0 == "id"@ && m[1].0 == "name"@ && m[2].0 == "configId"@ && m[3].0 == "endpoint"@
        && m[4].0 == "pathParams"@ && m[5].0 == "queryParams"@ && m[6].0 == "body"@ && m[7].0
        == "createdAt"@ && m[8].0 == "userAccount"@);
    assert("id"@.len() == 2 && "name"@.len() == 4 && "configId"@.len() == 8 && "endpoint"@.len()
        == 8 && "pathParams"@.len() == 10 && "queryParams"@.len() == 11 && "body"@.len() == 4
        && "createdAt"@.len() == 9 && "userAccount"@.len() == 11);
    assert("name"@[0] != "body"@[0]);
    assert("configId"@[0] != "endpoint"@[0]);
    assert("queryParams"@[0] != "userAccount"@[0]);
    assert("method"@.len() != "path"@.len());
    lemma_member_value_at(m, "id"@, 0);
    lemma_member_value_at(m, "name"@, 1);
    lemma_member_value_at(m, "configId"@, 2);
    lemma_member_value_at(m, "endpoint"@, 3);
    lemma_member_value_at(m, "pathParams"@, 4);
    lemma_member_value_at(m, "queryParams"@, 5);
    lemma_member_value_at(m, "body"@, 6);
    lemma_member_value_at(m, "createdAt"@, 7);
    lemma_member_value_at(m, "userAccount"@, 8);
    lemma_member_value_at(e, "method"@, 0);
    lemma_member_value_at(e, "path"@, 1);
}


/// The row that the database gives back for a saved test result whose
/// request and response were both present, with the time it assigned.
pub open spec fn saved_test_result_row(r: TestResultRecord, timestamp: String) -> TestResultRow {
    TestResultRow {
        id: r.id,
        name: r.name,
        config_id: r.config_id,
        endpoint_method: r.endpoint_method,
        endpoint_path: r.endpoint_path,
        request_data: r.request->0,
        response_data: r.response->0,
        timestamp,
        user_account: r.user_account,
    }
}

/// A listed test result shows back what was saved, and says that it comes
/// from the database.
pub proof fn lemma_listing_shows_saved_test_result(r: TestResultRecord, timestamp: String)
    requires
        r.request is Some,
        r.response is Some,
    ensures
        ({
            let doc = test_result_row_value(saved_test_result_row(r, timestamp));
            &&& doc.get("id"@) == Some(JsonValue::Str(r.id@))
            &&& doc.get("name"@) == Some(JsonValue::Str(r.name@))
            &&& doc.get("endpoint"@) matches Some(e) && e.get("method"@) == Some(
                JsonValue::Str(r.endpoint_method@),
            ) && e.get("path"@) == Some(JsonValue::Str(r.endpoint_path@)) && e.get("configId"@)
                == Some(JsonValue::Str(r.config_id@))
            &&& doc.get("request"@) == Some(r.request->0@)
            &&& doc.get("response"@) == Some(r.response->0@)
            &&& doc.get("timestamp"@) == Some(JsonValue::Str(timestamp@))
            &&& doc.get("userAccount"@) == Some(JsonValue::Str(r.user_account@))
            &&& doc.get("storageLocation"@) == Some(JsonValue::Str("database"@))
        }),
{
    reveal_strlit("id");
    reveal_strlit("name");
    reveal_strlit("endpoint");
    reveal_strlit("method");
    reveal_strlit("path");
    reveal_strlit("configId");
    reveal_strlit("request");
    reveal_strlit("response");
    reveal_strlit("timestamp");
    reveal_strlit("userAccount");
    reveal_strlit("storageLocation");
    let row = saved_test_result_row(r, timestamp);
    let m = test_result_row_value(row)->Object_0;
    let e = seq![
        ("method"@, JsonValue::Str(row.endpoint_method@)),
        ("path"@, JsonValue::Str(row.endpoint_path@)),
        ("configId"@, JsonValue::Str(row.config_id@)),
    ];
    assert(m[0].0 == "id"@ && m[1].0 == "name"@ && m[2].0 == "endpoint"@ && m[3].0 == "request"@
        && m[4].0 == "response"@ && m[5].0 == "timestamp"@ && m[6].0 == "userAccount"@ && m[7].0
        == "storageLocation"@);
    assert("id"@.len() == 2 && "name"@.len() == 4 && "endpoint"@.len() == 8 && "request"@.len() == 7
        && "response"@.len() == 8 && "timestamp"@.len() == 9 && "userAccount"@.len() == 11
        && "storageLocation"@.len() == 15);
    assert("endpoint"@[0] != "response"@[0]);
    assert("method"@.len() == 6 && "path"@.len() == 4 && "configId"@.len() == 8);
    lemma_member_value_at(m, "id"@, 0);
    lemma_member_value_at(m, "name"@, 1);
    lemma_member_value_at(m, "endpoint"@, 2);
    lemma_member_value_at(m, "request"@, 3);
    lemma_member_value_at(m, "response"@, 4);
    lemma_member_value_at(m, "timestamp"@, 5);
    lemma_member_value_at(m, "userAccount"@, 6);
    lemma_member_value_at(m, "storageLocation"@, 7);
    lemma_member_value_at(e, "method"@, 0);
    lemma_member_value_at(e, "path"@, 1);
    lemma_member_value_at(e, "configId"@, 2);
}

} // verus!
