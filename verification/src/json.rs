//! What the library reads of JSON documents: a JSON value holding, for each
//! number, only its value as a `u64` (when it is one), since that is all the
//! logic reads of numbers. Parsing is done by serde_json.

use vstd::prelude::*;

verus! {

/// serde_json's JSON value, carried opaque.
#[verifier::external_type_specification]
#[verifier::external_body]
pub struct ExSerdeValue(serde_json::Value);

/// A JSON value as read by the library.
pub enum JsonValue {
    Null,
    Bool(bool),
    /// A number; its value when it is a non-negative integer that fits a `u64`.
    Number(Option<u64>),
    Str(String),
    Array(Vec<JsonValue>),
    /// Member names and values, in the parser's order; each name occurs once.
    Object(Vec<String>, Vec<JsonValue>),
}

/// The value of the first member named `key` (names `ks`, values `vs`).
pub open spec fn member(ks: Seq<String>, vs: Seq<JsonValue>, key: Seq<char>) -> Option<JsonValue>
    decreases ks.len(),
{
    if ks.len() == 0 || vs.len() == 0 {
        None
    } else if ks[0]@ == key {
        Some(vs[0])
    } else {
        member(ks.drop_first(), vs.drop_first(), key)
    }
}

/// `Value::get` with a string key: the member `key` of an object.
pub open spec fn json_get(v: JsonValue, key: Seq<char>) -> Option<JsonValue> {
    match v {
        JsonValue::Object(ks, vs) => member(ks@, vs@, key),
        _ => None,
    }
}

/// `Value::as_str`.
pub open spec fn json_str(v: Option<JsonValue>) -> Option<Seq<char>> {
    match v {
        Some(JsonValue::Str(s)) => Some(s@),
        _ => None,
    }
}

/// `Value::as_u64`.
pub open spec fn json_u64(v: Option<JsonValue>) -> Option<u64> {
    match v {
        Some(JsonValue::Number(n)) => n,
        _ => None,
    }
}

/// The string member `key` of `v`, if it is one (`get(key).and_then(as_str)`).
pub open spec fn str_member(v: JsonValue, key: Seq<char>) -> Option<Seq<char>> {
    json_str(json_get(v, key))
}

/// The integer member `key` of `v`, or 0 (`get(key).and_then(as_u64).unwrap_or(0)`).
pub open spec fn u64_member(v: JsonValue, key: Seq<char>) -> u64 {
    match json_u64(json_get(v, key)) {
        Some(n) => n,
        None => 0,
    }
}

/// What `serde_json::from_str::<serde_json::Value>` makes of a text, as
/// read by the library; `None` when the text is not JSON.
pub uninterp spec fn json_of(text: Seq<char>) -> Option<JsonValue>;

/// Converts serde_json's value into the library's, variant by variant.
#[verifier::external_body]
fn from_serde(v: serde_json::Value) -> JsonValue {
    match v {
        serde_json::Value::Null => JsonValue::Null,
        serde_json::Value::Bool(b) => JsonValue::Bool(b),
        serde_json::Value::Number(n) => JsonValue::Number(n.as_u64()),
        serde_json::Value::String(s) => JsonValue::Str(s),
        serde_json::Value::Array(a) => JsonValue::Array(a.into_iter().map(from_serde).collect()),
        serde_json::Value::Object(m) => {
            let (ks, vs): (Vec<String>, Vec<serde_json::Value>) = m.into_iter().unzip();
            JsonValue::Object(ks, vs.into_iter().map(from_serde).collect())
        },
    }
}

/// `serde_json::from_str::<serde_json::Value>`: the result is the named
/// `json_of` of the text; the JSON grammar itself is not written out here.
#[verifier::external_body]
pub(crate) fn parse_json(text: &str) -> (r: Option<JsonValue>)
    ensures
        r == json_of(text@),
{
    match serde_json::from_str::<serde_json::Value>(text) {
        Ok(v) => Some(from_serde(v)),
        Err(_) => None,
    }
}

impl JsonValue {
    /// The member `key` of an object; none for other values.
    pub fn get(&self, key: &str) -> (r: Option<&JsonValue>)
        ensures
            match r {
                Some(x) => json_get(*self, key@) == Some(*x),
                None => json_get(*self, key@) is None,
            },
    {
        match self {
            JsonValue::Object(ks, vs) => {
                let mut i: usize = 0;
                assert(ks@.skip(0) =~= ks@);
                assert(vs@.skip(0) =~= vs@);
                assert(json_get(*self, key@) == member(ks@, vs@, key@));
                while i < ks.len() && i < vs.len()
                    invariant
                        json_get(*self, key@) == member(ks@, vs@, key@),
                        i <= ks.len(),
                        i <= vs.len(),
                        member(ks@, vs@, key@) == member(ks@.skip(i as int), vs@.skip(i as int), key@),
                    decreases ks.len() - i,
                {
                    assert(ks@.skip(i as int).drop_first() =~= ks@.skip(i + 1));
                    assert(vs@.skip(i as int).drop_first() =~= vs@.skip(i + 1));
                    assert(ks@.skip(i as int)[0] == ks@[i as int]);
                    assert(vs@.skip(i as int)[0] == vs@[i as int]);
                    if crate::text::str_eq(ks[i].as_str(), key) {
                        assert(ks@.skip(i as int).len() > 0 && vs@.skip(i as int).len() > 0);
                        assert(member(ks@.skip(i as int), vs@.skip(i as int), key@) == Some(vs@[i as int]));
                        return Some(&vs[i]);
                    }
                    i = i + 1;
                }
                assert(ks@.skip(i as int).len() == 0 || vs@.skip(i as int).len() == 0);
                None
            },
            _ => None,
        }
    }

    /// The string value, if this is a string.
    pub fn as_str(&self) -> (r: Option<&str>)
        ensures
            match r {
                Some(s) => json_str(Some(*self)) == Some(s@),
                None => json_str(Some(*self)) is None,
            },
    {
        match self {
            JsonValue::Str(s) => Some(s.as_str()),
            _ => None,
        }
    }

    /// The number as a `u64`, if it is one.
    pub fn as_u64(&self) -> (r: Option<u64>)
        ensures
            r == json_u64(Some(*self)),
    {
        match self {
            JsonValue::Number(n) => *n,
            _ => None,
        }
    }
}

/// The string member `key` of `v`, if it is one.
pub fn get_str(v: &JsonValue, key: &str) -> (r: Option<String>)
    ensures
        crate::text::opt_view(r) == str_member(*v, key@),
{
    match v.get(key) {
        Some(x) => match x.as_str() {
            Some(s) => Some(crate::text::owned(s)),
            None => None,
        },
        None => None,
    }
}

/// The integer member `key` of `v`, or 0.
pub fn get_u64_or_zero(v: &JsonValue, key: &str) -> (r: u64)
    ensures
        r == u64_member(*v, key@),
{
    match v.get(key) {
        Some(x) => match x.as_u64() {
            Some(n) => n,
            None => 0,
        },
        None => 0,
    }
}

} // verus!
