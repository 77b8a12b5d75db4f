//! JSON values as the readers of this library look into them: objects,
//! arrays, strings, booleans, null, and numbers kept as the unsigned integer
//! they denote, when they denote one.
use vstd::prelude::*;
use crate::text::{trim, trimmed};

verus! {

broadcast use vstd::string::group_string_axioms;

pub enum JsonValue {
    Null,
    Bool(bool),
    /// A number, by the unsigned integer it denotes (`None` for a negative or
    /// fractional number, or one beyond `u64`).
    Number(Option<u64>),
    Str(String),
    Array(Vec<JsonValue>),
    Object(Vec<(String, JsonValue)>),
}

/// The value of the first entry named `key`.
pub open spec fn entry_in(entries: Seq<(String, JsonValue)>, key: Seq<char>) -> Option<JsonValue>
    decreases entries.len(),
{
    if entries.len() == 0 {
        None
    } else if entries[0].0@ == key {
        Some(entries[0].1)
    } else {
        entry_in(entries.drop_first(), key)
    }
}

/// The member `key` of an object; nothing for other values.
pub open spec fn field(v: JsonValue, key: Seq<char>) -> Option<JsonValue> {
    match v {
        JsonValue::Object(entries) => entry_in(entries@, key),
        _ => None,
    }
}

/// The member `key` of a value that may be missing.
pub open spec fn field_of(v: Option<JsonValue>, key: Seq<char>) -> Option<JsonValue> {
    match v {
        Some(x) => field(x, key),
        None => None,
    }
}

/// The text of a string value.
pub open spec fn as_text(v: Option<JsonValue>) -> Option<Seq<char>> {
    match v {
        Some(JsonValue::Str(s)) => Some(s@),
        _ => None,
    }
}

/// The unsigned integer of a number value.
pub open spec fn as_u64(v: Option<JsonValue>) -> Option<u64> {
    match v {
        Some(JsonValue::Number(n)) => n,
        _ => None,
    }
}

/// The elements of an array value.
pub open spec fn as_items(v: Option<JsonValue>) -> Option<Seq<JsonValue>> {
    match v {
        Some(JsonValue::Array(items)) => Some(items@),
        _ => None,
    }
}

/// The value is an object.
pub open spec fn is_object(v: Option<JsonValue>) -> bool {
    v matches Some(JsonValue::Object(_))
}

/// The trimmed text of a string value, when it is not empty.
pub open spec fn clean_text(v: Option<JsonValue>) -> Option<Seq<char>> {
    match as_text(v) {
        Some(s) => if trim(s).len() > 0 {
            Some(trim(s))
        } else {
            None
        },
        None => None,
    }
}

/// The member `key` of an object.
pub fn get<'a>(v: &'a JsonValue, key: &str) -> (r: Option<&'a JsonValue>)
    ensures
        match r {
            Some(x) => field(*v, key@) == Some(*x),
            None => field(*v, key@) is None,
        },
{
    match v {
        JsonValue::Object(entries) => {
            let mut i: usize = 0;
            assert(entries@.subrange(0, entries@.len() as int) =~= entries@);
            while i < entries.len()
                invariant
                    i <= entries@.len(),
                    *v == JsonValue::Object(*entries),
                    entry_in(entries@, key@) == entry_in(entries@.subrange(i as int, entries@.len() as int), key@),
                decreases entries@.len() - i,
            {
                let ghost rest = entries@.subrange(i as int, entries@.len() as int);
                if str_eq(entries[i].0.as_str(), key) {
                    assert(rest[0] == entries@[i as int]);
                    assert(entry_in(rest, key@) == Some(entries@[i as int].1));
                    return Some(&entries[i].1);
                }
                assert(rest.drop_first() =~= entries@.subrange(i + 1, entries@.len() as int));
                i = i + 1;
            }
            None
        },
        _ => None,
    }
}

/// Whether two texts are equal.
pub fn str_eq(a: &str, b: &str) -> (r: bool)
    ensures
        r == (a@ == b@),
{
    let n = a.unicode_len();
    if n != b.unicode_len() {
        return false;
    }
    let mut i: usize = 0;
    while i < n
        invariant
            n == a@.len(),
            n == b@.len(),
            i <= n,
            forall|j: int| 0 <= j < i ==> a@[j] == b@[j],
        decreases n - i,
    {
        if a.get_char(i) != b.get_char(i) {
            return false;
        }
        i = i + 1;
    }
    assert(a@ =~= b@);
    true
}

/// The text of a string value.
pub fn text_of(v: Option<&JsonValue>) -> (r: Option<&str>)
    ensures
        match r {
            Some(s) => as_text(opt_value(v)) == Some(s@),
            None => as_text(opt_value(v)) is None,
        },
{
    match v {
        Some(JsonValue::Str(s)) => Some(s.as_str()),
        _ => None,
    }
}

/// The value behind an optional reference.
pub open spec fn opt_value(v: Option<&JsonValue>) -> Option<JsonValue> {
    match v {
        Some(x) => Some(*x),
        None => None,
    }
}

/// The unsigned integer of a number value.
pub fn u64_of(v: Option<&JsonValue>) -> (r: Option<u64>)
    ensures
        r == as_u64(opt_value(v)),
{
    match v {
        Some(JsonValue::Number(n)) => *n,
        _ => None,
    }
}

/// The trimmed text of a string value, when it is not empty.
pub fn clean_text_of(v: Option<&JsonValue>) -> (r: Option<String>)
    ensures
        match r {
            Some(s) => clean_text(opt_value(v)) == Some(s@),
            None => clean_text(opt_value(v)) is None,
        },
{
    match text_of(v) {
        Some(s) => {
            let t = trimmed(s);
            if t.unicode_len() > 0 {
                Some(t)
            } else {
                None
            }
        },
        None => None,
    }
}

/// The member `key` of a value that may be missing.
pub fn get_of<'a>(v: Option<&'a JsonValue>, key: &str) -> (r: Option<&'a JsonValue>)
    ensures
        opt_value(r) == field_of(opt_value(v), key@),
{
    match v {
        Some(x) => get(x, key),
        None => None,
    }
}

/// `serde_json::Value`, the value `serde_json` reads a text into.
#[verifier::external_type_specification]
#[verifier::external_body]
pub struct ExSerdeJsonValue(serde_json::Value);

/// What `serde_json::from_str` reads from a text as a `serde_json::Value`, in
/// the library's model: the value, or the text of the parse error. It depends
/// on the text alone.
pub uninterp spec fn json_text_reading(text: Seq<char>) -> Result<JsonValue, Seq<char>>;

/// The library's model of a `serde_json::Value`, variant for variant, a number
/// kept as what `as_u64` gives.
#[verifier::external_body]
fn model_of(v: &serde_json::Value) -> JsonValue {
    match v {
        serde_json::Value::Null => JsonValue::Null,
        serde_json::Value::Bool(b) => JsonValue::Bool(*b),
        serde_json::Value::Number(n) => JsonValue::Number(n.as_u64()),
        serde_json::Value::String(s) => JsonValue::Str(s.clone()),
        serde_json::Value::Array(items) => JsonValue::Array(items.iter().map(model_of).collect()),
        serde_json::Value::Object(map) => JsonValue::Object(
            map.iter().map(|(k, x)| (k.clone(), model_of(x))).collect(),
        ),
    }
}

/// `serde_json::from_str::<serde_json::Value>` on `text`: the value in the
/// library's model, or the text of the parse error; named by
/// `json_text_reading`.
#[verifier::external_body]
pub(crate) fn parse_json_text(text: &str) -> (r: Result<JsonValue, String>)
    ensures
        match r {
            Ok(v) => json_text_reading(text@) == Ok::<JsonValue, Seq<char>>(v),
            Err(m) => json_text_reading(text@) == Err::<JsonValue, Seq<char>>(m@),
        },
{
    match serde_json::from_str::<serde_json::Value>(text) {
        Ok(v) => Ok(model_of(&v)),
        Err(err) => Err(err.to_string()),
    }
}

} // verus!
