//! Decoded JSON documents, as the adapter reads them.
//!
//! Text is decoded with `serde_json` into these values; the library navigates them.

use serde_json::Value;
use vstd::prelude::*;

use crate::text::same_text;

verus! {

/// A JSON number as `serde_json` classifies it.
#[derive(Debug, Clone, Copy, PartialEq, Eq, Structural)]
pub enum JsonNumber {
    /// A non-negative integer.
    PosInt(u64),
    /// A negative integer.
    NegInt(i64),
    /// Any number with a fraction or exponent (its value is never read here).
    Float,
}

/// A decoded JSON value. Object members keep their keys unique.
#[derive(Debug)]
pub enum JsonValue {
    /// `null`.
    Null,
    /// `true` or `false`.
    Bool(bool),
    /// A number.
    Number(JsonNumber),
    /// A string.
    String(String),
    /// An array.
    Array(Vec<JsonValue>),
    /// An object, as its member names and their values in order.
    Object {
        /// Member names.
        keys: Vec<String>,
        /// Member values, one per name.
        values: Vec<JsonValue>,
    },
}

/// `serde_json`'s dynamically typed JSON value.
#[verifier::external_type_specification]
#[verifier::external_body]
pub struct ExJsonValue(serde_json::Value);

/// What `serde_json::from_str::<serde_json::Value>` makes of `text`: the decoded
/// document, or the text of the decoding error.
pub uninterp spec fn json_decode(text: Seq<char>) -> Result<JsonValue, Seq<char>>;

/// Decodes `text` as one JSON document with `serde_json::from_str`, giving the
/// document or the decoder's error message (`serde_json::Error`'s `Display`). The
/// result is named, as a function of the text alone: nothing more of it is claimed.
#[verifier::external_body]
pub(crate) fn decode_json(text: &str) -> (r: Result<JsonValue, String>)
    ensures
        match r {
            Ok(v) => json_decode(text@) == Ok::<JsonValue, Seq<char>>(v),
            Err(m) => json_decode(text@) == Err::<JsonValue, Seq<char>>(m@),
        },
{
    match serde_json::from_str::<Value>(text) {
        Ok(v) => Ok(json_value_of(&v)),
        Err(e) => Err(e.to_string()),
    }
}

/// The library's form of a `serde_json` value, variant for variant; numbers are told
/// apart by `serde_json::Number`'s own `as_u64` and `as_i64`.
#[verifier::external_body]
fn json_value_of(v: &Value) -> JsonValue {
    match v {
        Value::Null => JsonValue::Null,
        Value::Bool(b) => JsonValue::Bool(*b),
        Value::Number(n) => JsonValue::Number(match (n.as_u64(), n.as_i64()) {
            (Some(u), _) => JsonNumber::PosInt(u),
            (None, Some(i)) => JsonNumber::NegInt(i),
            _ => JsonNumber::Float,
        }),
        Value::String(s) => JsonValue::String(s.clone()),
        Value::Array(a) => JsonValue::Array(a.iter().map(json_value_of).collect()),
        Value::Object(m) => JsonValue::Object {
            keys: m.keys().cloned().collect(),
            values: m.values().map(json_value_of).collect(),
        },
    }
}

/// The value of the first member named `key`, looking from position `i` on.
pub open spec fn member_from(keys: Seq<String>, values: Seq<JsonValue>, key: Seq<char>, i: int) -> Option<
    JsonValue,
>
    decreases keys.len() - i,
{
    if i < 0 || i >= keys.len() || i >= values.len() {
        None
    } else if keys[i]@ == key {
        Some(values[i])
    } else {
        member_from(keys, values, key, i + 1)
    }
}

/// `value[key]` when `value` is an object holding `key` (as `serde_json::Value::get`).
pub open spec fn json_get(v: JsonValue, key: Seq<char>) -> Option<JsonValue> {
    match v {
        JsonValue::Object { keys, values } => member_from(keys@, values@, key, 0),
        _ => None,
    }
}

/// The text of a JSON string (as `serde_json::Value::as_str`).
pub open spec fn json_str(v: JsonValue) -> Option<Seq<char>> {
    match v {
        JsonValue::String(s) => Some(s@),
        _ => None,
    }
}

/// A JSON integer that fits `i64` (as `serde_json::Value::as_i64`).
pub open spec fn json_i64(v: JsonValue) -> Option<int> {
    match v {
        JsonValue::Number(JsonNumber::PosInt(n)) => if n <= i64::MAX {
            Some(n as int)
        } else {
            None
        },
        JsonValue::Number(JsonNumber::NegInt(n)) => Some(n as int),
        _ => None,
    }
}

/// A non-negative JSON integer (as `serde_json::Value::as_u64`).
pub open spec fn json_u64(v: JsonValue) -> Option<int> {
    match v {
        JsonValue::Number(JsonNumber::PosInt(n)) => Some(n as int),
        _ => None,
    }
}

/// A JSON boolean (as `serde_json::Value::as_bool`).
pub open spec fn json_bool(v: JsonValue) -> Option<bool> {
    match v {
        JsonValue::Bool(b) => Some(b),
        _ => None,
    }
}

/// `value[key]` as text.
pub open spec fn json_get_str(v: JsonValue, key: Seq<char>) -> Option<Seq<char>> {
    match json_get(v, key) {
        Some(x) => json_str(x),
        None => None,
    }
}

/// `value[key]` as an `i64`.
pub open spec fn json_get_i64(v: JsonValue, key: Seq<char>) -> Option<int> {
    match json_get(v, key) {
        Some(x) => json_i64(x),
        None => None,
    }
}

/// `value[key]` as a `u64`.
pub open spec fn json_get_u64(v: JsonValue, key: Seq<char>) -> Option<int> {
    match json_get(v, key) {
        Some(x) => json_u64(x),
        None => None,
    }
}

/// `value[key]` as a boolean.
pub open spec fn json_get_bool(v: JsonValue, key: Seq<char>) -> Option<bool> {
    match json_get(v, key) {
        Some(x) => json_bool(x),
        None => None,
    }
}

impl JsonValue {
    /// `self[key]` when `self` is an object holding `key`.
    pub fn get(&self, key: &str) -> (r: Option<&JsonValue>)
        ensures
            match r {
                Some(x) => json_get(*self, key@) == Some(*x),
                None => json_get(*self, key@) is None,
            },
    {
        match self {
            JsonValue::Object { keys, values } => {
                assert(json_get(*self, key@) == member_from(keys@, values@, key@, 0));
                let mut i: usize = 0;
                while i < keys.len() && i < values.len()
                    invariant
                        i <= keys@.len(),
                        json_get(*self, key@) == member_from(keys@, values@, key@, 0),
                        member_from(keys@, values@, key@, 0) == member_from(keys@, values@, key@, i as int),
                    decreases keys@.len() - i,
                {
                    if same_text(keys[i].as_str(), key) {
                        assert(member_from(keys@, values@, key@, i as int) == Some(values@[i as int]));
                        return Some(&values[i]);
                    }
                    i = i + 1;
                }
                None
            },
            _ => None,
        }
    }

    /// The text of a JSON string.
    pub fn as_str(&self) -> (r: Option<&str>)
        ensures
            match r {
                Some(s) => json_str(*self) == Some(s@),
                None => json_str(*self) is None,
            },
    {
        match self {
            JsonValue::String(s) => Some(s.as_str()),
            _ => None,
        }
    }

    /// A JSON integer that fits `i64`.
    pub fn as_i64(&self) -> (r: Option<i64>)
        ensures
            match r {
                Some(n) => json_i64(*self) == Some(n as int),
                None => json_i64(*self) is None,
            },
    {
        match self {
            JsonValue::Number(JsonNumber::PosInt(n)) => if *n <= i64::MAX as u64 {
                Some(*n as i64)
            } else {
                None
            },
            JsonValue::Number(JsonNumber::NegInt(n)) => Some(*n),
            _ => None,
        }
    }

    /// A non-negative JSON integer.
    pub fn as_u64(&self) -> (r: Option<u64>)
        ensures
            match r {
                Some(n) => json_u64(*self) == Some(n as int),
                None => json_u64(*self) is None,
            },
    {
        match self {
            JsonValue::Number(JsonNumber::PosInt(n)) => Some(*n),
            _ => None,
        }
    }

    /// A JSON boolean.
    pub fn as_bool(&self) -> (r: Option<bool>)
        ensures
            r == json_bool(*self),
    {
        match self {
            JsonValue::Bool(b) => Some(*b),
            _ => None,
        }
    }
}

} // verus!
