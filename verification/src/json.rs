//! A JSON document model of the library's own. Values that come from or go
//! to the outside (stored settings, request and response bodies, database
//! columns) are converted to and from it at the edge; the library reads and
//! builds them here with exact contracts.
//!
//! Numbers keep the three forms that JSON parsers distinguish: a
//! non-negative integer, a negative integer, and a binary floating-point
//! number, which is held by its IEEE-754 bit pattern so that it is carried
//! through unchanged.

use serde_json::Value;
use vstd::prelude::*;

verus! {

broadcast use vstd::std_specs::vec::group_vec_axioms;

/// A JSON number.
#[derive(Clone, Copy, Debug, PartialEq, Eq)]
pub enum JsonNumber {
    /// A non-negative integer.
    PosInt(u64),
    /// A negative integer.
    NegInt(i64),
    /// A floating-point number, by the bits of its `f64` representation.
    Float(u64),
}

/// A JSON document.
#[derive(Debug, PartialEq)]
pub enum Json {
    Null,
    Bool(bool),
    Number(JsonNumber),
    Str(String),
    Array(Vec<Json>),
    /// Members in order; a key that occurs twice is read by its last member.
    Object(Vec<(String, Json)>),
}

/// What a JSON document holds, as mathematical values.
pub enum JsonValue {
    Null,
    Bool(bool),
    Number(JsonNumber),
    Str(Seq<char>),
    Array(Seq<JsonValue>),
    Object(Seq<(Seq<char>, JsonValue)>),
}

/// The value that a document holds.
pub open spec fn json_view(j: Json) -> JsonValue
    decreases j,
{
    match j {
        Json::Null => JsonValue::Null,
        Json::Bool(b) => JsonValue::Bool(b),
        Json::Number(n) => JsonValue::Number(n),
        Json::Str(s) => JsonValue::Str(s@),
        Json::Array(v) => JsonValue::Array(items_view(v@)),
        Json::Object(m) => JsonValue::Object(members_view(m@)),
    }
}

/// The values of a sequence of documents.
pub open spec fn items_view(s: Seq<Json>) -> Seq<JsonValue>
    decreases s,
{
    if s.len() == 0 {
        Seq::empty()
    } else {
        items_view(s.drop_last()).push(json_view(s.last()))
    }
}

/// The keys and values of a sequence of object members.
pub open spec fn members_view(s: Seq<(String, Json)>) -> Seq<(Seq<char>, JsonValue)>
    decreases s,
{
    if s.len() == 0 {
        Seq::empty()
    } else {
        members_view(s.drop_last()).push((s.last().0@, json_view(s.last().1)))
    }
}

impl View for Json {
    type V = JsonValue;

    open spec fn view(&self) -> JsonValue {
        json_view(*self)
    }
}

/// The value of the last member of `members` whose key is `key`.
pub open spec fn member_value(members: Seq<(Seq<char>, JsonValue)>, key: Seq<char>) -> Option<JsonValue>
    decreases members.len(),
{
    if members.len() == 0 {
        None
    } else if members.last().0 == key {
        Some(members.last().1)
    } else {
        member_value(members.drop_last(), key)
    }
}

impl JsonValue {
    /// The member `key` of an object; nothing for any other value.
    pub open spec fn get(self, key: Seq<char>) -> Option<JsonValue> {
        match self {
            JsonValue::Object(members) => member_value(members, key),
            _ => None,
        }
    }

    /// The text of a string value.
    pub open spec fn as_text(self) -> Option<Seq<char>> {
        match self {
            JsonValue::Str(s) => Some(s),
            _ => None,
        }
    }

    /// The number of a non-negative integer value.
    pub open spec fn as_u64(self) -> Option<u64> {
        match self {
            JsonValue::Number(JsonNumber::PosInt(n)) => Some(n),
            _ => None,
        }
    }

    /// The text of the member `key` when it is a string.
    pub open spec fn text_member(self, key: Seq<char>) -> Option<Seq<char>> {
        match self.get(key) {
            Some(v) => v.as_text(),
            None => None,
        }
    }
}

/// The JSON number of a signed integer, as JSON writers store it.
pub open spec fn signed_number(i: int) -> JsonNumber {
    if i < 0 {
        JsonNumber::NegInt(i as i64)
    } else {
        JsonNumber::PosInt(i as u64)
    }
}

/// Each document of a sequence is seen at its own index.
pub proof fn lemma_items_view(s: Seq<Json>)
    ensures
        items_view(s).len() == s.len(),
        forall|k: int| 0 <= k < s.len() ==> #[trigger] items_view(s)[k] == json_view(s[k]),
    decreases s.len(),
{
    if s.len() > 0 {
        lemma_items_view(s.drop_last());
    }
}

/// Each member of a sequence is seen at its own index.
pub proof fn lemma_members_view(s: Seq<(String, Json)>)
    ensures
        members_view(s).len() == s.len(),
        forall|k: int|
            0 <= k < s.len() ==> #[trigger] members_view(s)[k] == (s[k].0@, json_view(s[k].1)),
    decreases s.len(),
{
    if s.len() > 0 {
        lemma_members_view(s.drop_last());
    }
}

/// The member found in a prefix of the members, when none after it has the key.
proof fn lemma_member_value_prefix(m: Seq<(Seq<char>, JsonValue)>, key: Seq<char>, i: int)
    requires
        0 <= i <= m.len(),
        forall|k: int| i <= k < m.len() ==> #[trigger] m[k].0 != key,
    ensures
        member_value(m, key) == member_value(m.take(i), key),
    decreases m.len() - i,
{
    if i < m.len() {
        assert(m.drop_last().take(i) =~= m.take(i));
        lemma_member_value_prefix(m.drop_last(), key, i);
    } else {
        assert(m.take(i) =~= m);
    }
}

/// The member found for a key is that of its last occurrence.
pub proof fn lemma_member_value_at(m: Seq<(Seq<char>, JsonValue)>, key: Seq<char>, k: int)
    requires
        0 <= k < m.len(),
        m[k].0 == key,
        forall|j: int| k < j < m.len() ==> #[trigger] m[j].0 != key,
    ensures
        member_value(m, key) == Some(m[k].1),
{
    lemma_member_value_prefix(m, key, k + 1);
    assert(m.take(k + 1).last() == m[k]);
}

/// The document that `serde_json` parses from `text`, if `text` is JSON.
pub uninterp spec fn json_text_value(text: Seq<char>) -> Option<JsonValue>;

/// `serde_json::Value`, carried only into the conversion below.
#[verifier::external_type_specification]
#[verifier::external_body]
pub struct ExSerdeJsonValue(Value);

/// Converts a parsed `serde_json::Value` into the library's document, one
/// node for one node: a number as a non-negative integer, a negative
/// integer, or the bits of its floating-point value, in that order of
/// preference, as `serde_json` itself reads them back. It is the conversion
/// step of `parse_json_text` and states nothing of its own.
#[verifier::external_body]
fn json_from_serde(v: Value) -> Json {
    match v {
        Value::Null => Json::Null,
        Value::Bool(b) => Json::Bool(b),
        Value::Number(n) => Json::Number(match (n.as_u64(), n.as_i64()) {
            (Some(u), _) => JsonNumber::PosInt(u),
            (None, Some(i)) => JsonNumber::NegInt(i),
            _ => JsonNumber::Float(n.as_f64().map(|x| x.to_bits()).unwrap_or_default()),
        }),
        Value::String(s) => Json::Str(s),
        Value::Array(a) => Json::Array(a.into_iter().map(json_from_serde).collect()),
        Value::Object(m) => Json::Object(m.into_iter().map(|(k, x)| (k, json_from_serde(x))).collect()),
    }
}

/// Calls `serde_json::from_str::<serde_json::Value>` on `text`: the parsed
/// document when `text` is JSON, nothing otherwise. What the parser makes
/// of a text is left unstated beyond the name `json_text_value`; it depends
/// on the text alone.
#[verifier::external_body]
pub fn parse_json_text(text: &str) -> (r: Option<Json>)
    ensures
        match r {
            Some(j) => json_text_value(text@) == Some(j@),
            None => json_text_value(text@) is None,
        },
{
    match serde_json::from_str::<Value>(text) {
        Ok(v) => Some(json_from_serde(v)),
        Err(_) => None,
    }
}

/// The number of a signed integer.
pub fn signed_json_number(i: i64) -> (r: JsonNumber)
    ensures
        r == signed_number(i as int),
{
    if i < 0 {
        JsonNumber::NegInt(i)
    } else {
        JsonNumber::PosInt(i as u64)
    }
}

impl Json {
    /// A string document with the text of `s`.
    pub fn text(s: &str) -> (r: Json)
        ensures
            r@ == JsonValue::Str(s@),
    {
        Json::Str(s.to_owned())
    }

    /// The member `key` of an object; `None` for a missing member or any
    /// other kind of document. Reads as `serde_json::Value::get` with a key.
    pub fn get(&self, key: &str) -> (r: Option<&Json>)
        ensures
            match r {
                Some(v) => self@.get(key@) == Some(v@),
                None => self@.get(key@) is None,
            },
    {
        match self {
            Json::Object(members) => {
                let key_string = key.to_owned();
                let ghost mv = members_view(members@);
                proof {
                    lemma_members_view(members@);
                    assert(mv.take(mv.len() as int) =~= mv);
                }
                assert(self@ == JsonValue::Object(mv));
                let mut i = members.len();
                while i > 0
                    invariant
                        i <= members.len(),
                        key_string@ == key@,
                        self@ == JsonValue::Object(mv),
                        mv == members_view(members@),
                        mv.len() == members.len(),
                        forall|k: int| 0 <= k < members.len() ==> #[trigger] mv[k] == (
                            members@[k].0@,
                            json_view(members@[k].1),
                        ),
                        member_value(mv, key@) == member_value(mv.take(i as int), key@),
                    decreases i,
                {
                    let entry = &members[i - 1];
                    assert(mv.take(i as int).last() == mv[i - 1]);
                    if entry.0 == key_string {
                        assert(mv[i - 1].0 == key@);
                        return Some(&entry.1);
                    }
                    assert(mv.take(i as int).drop_last() =~= mv.take(i - 1));
                    i = i - 1;
                }
                assert(mv.take(0) =~= Seq::<(Seq<char>, JsonValue)>::empty());
                None
            },
            _ => None,
        }
    }

    /// The text of a string document.
    pub fn as_text(&self) -> (r: Option<&String>)
        ensures
            match r {
                Some(s) => self@.as_text() == Some(s@),
                None => self@.as_text() is None,
            },
    {
        match self {
            Json::Str(s) => Some(s),
            _ => None,
        }
    }

    /// The number of a non-negative integer document.
    pub fn as_u64(&self) -> (r: Option<u64>)
        ensures
            r == self@.as_u64(),
    {
        match self {
            Json::Number(JsonNumber::PosInt(n)) => Some(*n),
            _ => None,
        }
    }

    /// A copy of the document.
    pub fn duplicate(&self) -> (r: Json)
        ensures
            r@ == self@,
        decreases self,
    {
        match self {
            Json::Null => Json::Null,
            Json::Bool(b) => Json::Bool(*b),
            Json::Number(n) => Json::Number(match n {
                JsonNumber::PosInt(u) => JsonNumber::PosInt(*u),
                JsonNumber::NegInt(i) => JsonNumber::NegInt(*i),
                JsonNumber::Float(f) => JsonNumber::Float(*f),
            }),
            Json::Str(s) => Json::Str(s.clone()),
            Json::Array(items) => {
                let mut out: Vec<Json> = Vec::new();
                let mut i: usize = 0;
                while i < items.len()
                    invariant
                        i <= items.len(),
                        out.len() == i,
                        *self == Json::Array(*items),
                        forall|k: int| 0 <= k < i ==> json_view(#[trigger] out@[k]) == json_view(items@[k]),
                    decreases items.len() - i,
                {
                    assert(decreases_to!(*self => self->Array_0));
                    assert(decreases_to!(*items => items[i as int]));
                    let c = items[i].duplicate();
                    out.push(c);
                    i = i + 1;
                }
                proof {
                    lemma_items_view(out@);
                    lemma_items_view(items@);
                    assert(items_view(out@) =~= items_view(items@));
                }
                Json::Array(out)
            },
            Json::Object(members) => {
                let mut out: Vec<(String, Json)> = Vec::new();
                let mut i: usize = 0;
                while i < members.len()
                    invariant
                        i <= members.len(),
                        out.len() == i,
                        *self == Json::Object(*members),
                        forall|k: int| 0 <= k < i ==> (#[trigger] out@[k]).0@ == members@[k].0@
                            && json_view(out@[k].1) == json_view(members@[k].1),
                    decreases members.len() - i,
                {
                    let entry = &members[i];
                    assert(decreases_to!(*self => self->Object_0));
                    assert(decreases_to!(*members => members[i as int]));
                    assert(decreases_to!(members[i as int] => members[i as int].1));
                    let c = entry.1.duplicate();
                    out.push((entry.0.clone(), c));
                    i = i + 1;
                }
                proof {
                    lemma_members_view(out@);
                    lemma_members_view(members@);
                    assert(members_view(out@) =~= members_view(members@));
                }
                Json::Object(out)
            },
        }
    }
}

} // verus!
