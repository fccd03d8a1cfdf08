//! The library's model of a JSON document, and the trusted boundary to
//! `serde_json`, which does the actual parsing.

use vstd::prelude::*;

verus! {

/// A JSON document as the library models it: null, booleans, signed 64-bit
/// integers, strings, arrays, and objects as ordered field lists.
///
/// A JSON number that does not fit a signed 64-bit integer (a float, or an
/// unsigned value above `i64::MAX`) is kept only as the marker `Inexact`:
/// no field the normalizers consume is one, and the marker lets such a
/// field pass through a document without failing the parse.
#[derive(Debug)]
pub enum JsonValue {
    Null,
    Bool(bool),
    Int(i64),
    Inexact,
    Str(String),
    Arr(Vec<JsonValue>),
    Obj(Vec<(String, JsonValue)>),
}

/// The value of the first field named `key` at or after position `i`.
pub open spec fn obj_lookup_from(
    fields: Seq<(String, JsonValue)>,
    key: Seq<char>,
    i: int,
) -> Option<JsonValue>
    decreases fields.len() - i,
{
    if i < 0 || i >= fields.len() {
        None
    } else if fields[i].0@ == key {
        Some(fields[i].1)
    } else {
        obj_lookup_from(fields, key, i + 1)
    }
}

/// The value of the first field named `key`, if the object has one.
pub open spec fn obj_lookup(fields: Seq<(String, JsonValue)>, key: Seq<char>) -> Option<
    JsonValue,
> {
    obj_lookup_from(fields, key, 0)
}

impl JsonValue {
    /// The member named `key` of this value, when this value is an object
    /// that has one; `None` on every other value.
    pub open spec fn spec_get(self, key: Seq<char>) -> Option<JsonValue> {
        match self {
            JsonValue::Obj(fields) => obj_lookup(fields@, key),
            _ => None,
        }
    }

    /// Looks a field up by name, as `spec_get` describes.
    pub fn get<'a>(&'a self, key: &str) -> (r: Option<&'a JsonValue>)
        ensures
            match r {
                Some(v) => self.spec_get(key@) == Some(*v),
                None => self.spec_get(key@) is None,
            },
    {
        match self {
            JsonValue::Obj(fields) => {
                let k: String = key.to_owned();
                let mut i: usize = 0;
                while i < fields.len()
                    invariant
                        0 <= i <= fields@.len(),
                        k@ == key@,
                        self matches JsonValue::Obj(f) && f == fields,
                        obj_lookup(fields@, key@) == obj_lookup_from(fields@, key@, i as int),
                    decreases fields@.len() - i,
                {
                    if fields[i].0 == k {
                        return Some(&fields[i].1);
                    }
                    i = i + 1;
                }
                None
            },
            _ => None,
        }
    }
}

#[verifier::external_type_specification]
#[verifier::external_body]
pub struct ExValue(serde_json::Value);

/// The document that a piece of text parses to, if it is JSON: what
/// `serde_json::from_str` returns is a function of the text alone, and this
/// names its result in the library's model.
pub uninterp spec fn json_of(s: Seq<char>) -> Option<JsonValue>;

/// Relies on the six variants of `serde_json::Value`: rebuilds the same
/// document in the library's model, with each number narrowed to a signed
/// 64-bit integer where `Number::as_i64` gives one and to `Inexact` where
/// it does not.
#[verifier::external_body]
fn value_to_json(v: &serde_json::Value) -> JsonValue {
    match v {
        serde_json::Value::Null => JsonValue::Null,
        serde_json::Value::Bool(b) => JsonValue::Bool(*b),
        serde_json::Value::Number(n) => match n.as_i64() {
            Some(i) => JsonValue::Int(i),
            None => JsonValue::Inexact,
        },
        serde_json::Value::String(s) => JsonValue::Str(s.clone()),
        serde_json::Value::Array(a) => JsonValue::Arr(a.iter().map(value_to_json).collect()),
        serde_json::Value::Object(m) => JsonValue::Obj(
            m.iter().map(|(k, x)| (k.clone(), value_to_json(x))).collect(),
        ),
    }
}

/// Relies on `serde_json::from_str`: whether text parses, and the document
/// it parses to, depend on the text alone; `json_of` names that document.
/// Returns `None` exactly where `from_str` reports an error.
#[verifier::external_body]
pub(crate) fn parse_json(s: &str) -> (r: Option<JsonValue>)
    ensures
        r == json_of(s@),
{
    match serde_json::from_str::<serde_json::Value>(s) {
        Ok(v) => Some(value_to_json(&v)),
        Err(_) => None,
    }
}

} // verus!
