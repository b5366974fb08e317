use vstd::prelude::*;
use crate::text::same_text;

verus! {

#[verifier::external_type_specification]
#[verifier::external_body]
pub struct ExValue(serde_json::Value);

/// A JSON document. A number is held as its decimal text; one read by `parse_json` holds
/// the text serde_json writes for it. An object is held as a list of members; one read by
/// `parse_json` lists each key once, in the order serde_json's map hands them over.
#[derive(Debug)]
pub enum JsonValue {
    Null,
    Bool(bool),
    Number(String),
    Str(String),
    Array(Vec<JsonValue>),
    Object(Vec<(String, JsonValue)>),
}

/// What serde_json reads from a text: `None` where the text is no JSON document.
pub uninterp spec fn json_parse(text: Seq<char>) -> Option<JsonValue>;

/// The compact JSON text that serde_json writes for a value.
pub uninterp spec fn json_text(value: JsonValue) -> Seq<char>;

/// Moves serde_json's value over into the library's own, part for part; the conversion
/// inside `parse_json`.
#[verifier::external_body]
fn from_serde(value: serde_json::Value) -> JsonValue {
    match value {
        serde_json::Value::Null => JsonValue::Null,
        serde_json::Value::Bool(b) => JsonValue::Bool(b),
        serde_json::Value::Number(n) => JsonValue::Number(n.to_string()),
        serde_json::Value::String(s) => JsonValue::Str(s),
        serde_json::Value::Array(a) => JsonValue::Array(a.into_iter().map(from_serde).collect()),
        serde_json::Value::Object(m) => JsonValue::Object(
            m.into_iter().map(|(k, v)| (k, from_serde(v))).collect(),
        ),
    }
}

/// Moves the library's value over into serde_json's, part for part; the conversion
/// inside `render_json`.
#[verifier::external_body]
fn to_serde(value: &JsonValue) -> serde_json::Value {
    match value {
        JsonValue::Null => serde_json::Value::Null,
        JsonValue::Bool(b) => serde_json::Value::Bool(*b),
        JsonValue::Number(n) => n.parse().map(serde_json::Value::Number).unwrap_or_default(),
        JsonValue::Str(s) => serde_json::Value::String(s.clone()),
        JsonValue::Array(a) => serde_json::Value::Array(a.iter().map(to_serde).collect()),
        JsonValue::Object(m) => serde_json::Value::Object(
            m.iter().map(|(k, v)| (k.clone(), to_serde(v))).collect(),
        ),
    }
}

/// Relies on serde_json::from_str: it reads a JSON document, or reports why the text is
/// none; the outcome depends on the text alone.
#[verifier::external_body]
pub fn parse_json(text: &str) -> (r: Result<JsonValue, String>)
    ensures
        match r {
            Ok(v) => json_parse(text@) == Some(v),
            Err(_) => json_parse(text@) is None,
        },
{
    serde_json::from_str::<serde_json::Value>(text).map(from_serde).map_err(|e| e.to_string())
}

/// Relies on serde_json::to_string: it writes a value as compact JSON text; a value
/// without non-string keys always serializes.
#[verifier::external_body]
pub fn render_json(value: &JsonValue) -> (r: String)
    ensures
        r@ == json_text(*value),
{
    serde_json::to_string(&to_serde(value)).unwrap_or_default()
}

/// The member `key` of an object (the first, where the object repeats it); `None` for a
/// missing member and for a value that is no object.
pub open spec fn member(fields: Seq<(String, JsonValue)>, key: Seq<char>) -> Option<JsonValue>
    decreases fields.len(),
{
    if fields.len() == 0 {
        None
    } else if fields[0].0@ == key {
        Some(fields[0].1)
    } else {
        member(fields.drop_first(), key)
    }
}

pub open spec fn field(value: JsonValue, key: Seq<char>) -> Option<JsonValue> {
    match value {
        JsonValue::Object(fields) => member(fields@, key),
        _ => None,
    }
}

/// Reads an optional text member: absent or `null` is `Some(None)`, a string is its
/// text, anything else does not decode (`None`).
pub open spec fn optional_text(value: Option<JsonValue>) -> Option<Option<Seq<char>>> {
    match value {
        None => Some(None),
        Some(JsonValue::Null) => Some(None),
        Some(JsonValue::Str(s)) => Some(Some(s@)),
        _ => None,
    }
}

/// Reads a required text member: a string is its text, anything else does not decode.
pub open spec fn required_text(value: Option<JsonValue>) -> Option<Seq<char>> {
    match value {
        Some(JsonValue::Str(s)) => Some(s@),
        _ => None,
    }
}

/// Reads an optional flag member: absent or `null` is `Some(None)`.
pub open spec fn optional_flag(value: Option<JsonValue>) -> Option<Option<bool>> {
    match value {
        None => Some(None),
        Some(JsonValue::Null) => Some(None),
        Some(JsonValue::Bool(b)) => Some(Some(b)),
        _ => None,
    }
}

/// The value a borrowed member stands for.
pub open spec fn lift(value: Option<&JsonValue>) -> Option<JsonValue> {
    match value {
        Some(x) => Some(*x),
        None => None,
    }
}

pub fn get_member<'a>(value: &'a JsonValue, key: &str) -> (r: Option<&'a JsonValue>)
    ensures
        match r {
            Some(x) => field(*value, key@) == Some(*x),
            None => field(*value, key@) is None,
        },
{
    match value {
        JsonValue::Object(fields) => {
            let mut i: usize = 0;
            assert(fields@.subrange(0, fields@.len() as int) =~= fields@);
            while i < fields.len()
                invariant
                    i <= fields@.len(),
                    field(*value, key@) == member(fields@, key@),
                    member(fields@, key@) == member(fields@.subrange(i as int, fields@.len() as int), key@),
                decreases fields@.len() - i,
            {
                let ghost rest = fields@.subrange(i as int, fields@.len() as int);
                assert(rest[0] == fields@[i as int]);
                if same_text(fields[i].0.as_str(), key) {
                    assert(rest[0].0@ == key@);
                    assert(member(rest, key@) == Some(rest[0].1));
                    return Some(&fields[i].1);
                }
                assert(rest.drop_first() =~= fields@.subrange(i + 1, fields@.len() as int));
                i = i + 1;
            }
            None
        },
        _ => None,
    }
}

pub fn read_optional_text(value: Option<&JsonValue>) -> (r: Result<Option<String>, ()>)
    ensures
        match r {
            Ok(t) => optional_text(lift(value)) == Some(t.deep_view()),
            Err(_) => optional_text(lift(value)) is None,
        },
{
    match value {
        None => Ok(None),
        Some(JsonValue::Null) => Ok(None),
        Some(JsonValue::Str(s)) => Ok(Some(s.clone())),
        _ => Err(()),
    }
}

pub fn read_required_text(value: Option<&JsonValue>) -> (r: Result<String, ()>)
    ensures
        match r {
            Ok(t) => required_text(lift(value)) == Some(t@),
            Err(_) => required_text(lift(value)) is None,
        },
{
    match value {
        Some(JsonValue::Str(s)) => Ok(s.clone()),
        _ => Err(()),
    }
}

pub fn read_optional_flag(value: Option<&JsonValue>) -> (r: Result<Option<bool>, ()>)
    ensures
        match r {
            Ok(t) => optional_flag(lift(value)) == Some(t),
            Err(_) => optional_flag(lift(value)) is None,
        },
{
    match value {
        None => Ok(None),
        Some(JsonValue::Null) => Ok(None),
        Some(JsonValue::Bool(b)) => Ok(Some(*b)),
        _ => Err(()),
    }
}

} // verus!
