//! JSON documents as plain values.
//!
//! The text-to-tree step is done by serde_json behind two trusted items;
//! everything that reads the tree afterwards is verified. Numbers are
//! narrowed to the `i64` integers the document schema uses; any other
//! number is kept only as a marker variant, which the schema rejects.

use vstd::prelude::*;

verus! {

/// One JSON value. `OtherNumber` stands for a number outside the `i64`
/// integers; the schema treats it as a type mismatch wherever a number
/// is read.
pub enum JsonValue {
    Null,
    Bool(bool),
    Int(i64),
    OtherNumber,
    Str(String),
    Arr(Vec<JsonValue>),
    Obj(Vec<(String, JsonValue)>),
}

/// The first binding of `k` in an object's field list, if any.
pub open spec fn obj_lookup(fields: Seq<(String, JsonValue)>, k: Seq<char>) -> Option<JsonValue>
    decreases fields.len(),
{
    if fields.len() == 0 {
        None
    } else if fields[0].0@ == k {
        Some(fields[0].1)
    } else {
        obj_lookup(fields.drop_first(), k)
    }
}

/// Looks a key up in an object's field list, first binding wins.
pub fn obj_get<'a>(fields: &'a Vec<(String, JsonValue)>, key: &String) -> (r: Option<
    &'a JsonValue,
>)
    ensures
        match r {
            Some(v) => obj_lookup(fields@, key@) == Some(*v),
            None => obj_lookup(fields@, key@) is None,
        },
{
    let mut i: usize = 0;
    proof {
        assert(fields@.skip(0) =~= fields@);
    }
    while i < fields.len()
        invariant
            0 <= i <= fields.len(),
            obj_lookup(fields@, key@) == obj_lookup(fields@.skip(i as int), key@),
        decreases fields.len() - i,
    {
        proof {
            assert(fields@.skip(i as int)[0] == fields@[i as int]);
        }
        if fields[i].0.eq(key) {
            return Some(&fields[i].1);
        }
        proof {
            assert(fields@.skip(i as int).drop_first() =~= fields@.skip(i + 1));
        }
        i += 1;
    }
    None
}

/// Names the result of `serde_json::from_str::<serde_json::Value>` on a
/// given text, converted to the library's tree: `None` when the text is
/// not well-formed JSON.
pub uninterp spec fn json_of(s: Seq<char>) -> Option<JsonValue>;

/// Names the tree held by a `serde_json::Value`.
pub uninterp spec fn value_data(v: serde_json::Value) -> JsonValue;

#[verifier::external_type_specification]
#[verifier::external_body]
pub struct ExValue(serde_json::Value);

/// Relies on `serde_json::from_str::<serde_json::Value>`: the result is a
/// function of the input text alone, and is an error exactly when the text
/// is not well-formed JSON.
#[verifier::external_body]
fn parse_json_value(s: &str) -> (r: Option<serde_json::Value>)
    ensures
        match r {
            Some(v) => json_of(s@) == Some(value_data(v)),
            None => json_of(s@) is None,
        },
{
    serde_json::from_str::<serde_json::Value>(s).ok()
}

/// Relies on `serde_json::Value`: converts each variant one for one into
/// the library's own tree, keeping only `i64` integers of a `Number`.
#[verifier::external_body]
fn value_to_json(v: serde_json::Value) -> (r: JsonValue)
    ensures
        r == value_data(v),
{
    match v {
        serde_json::Value::Null => JsonValue::Null,
        serde_json::Value::Bool(b) => JsonValue::Bool(b),
        serde_json::Value::Number(n) => n.as_i64().map(JsonValue::Int).unwrap_or(
            JsonValue::OtherNumber,
        ),
        serde_json::Value::String(s) => JsonValue::Str(s),
        serde_json::Value::Array(a) => JsonValue::Arr(a.into_iter().map(value_to_json).collect()),
        serde_json::Value::Object(m) => JsonValue::Obj(
            m.into_iter().map(|f: (String, serde_json::Value)| (f.0, value_to_json(f.1))).collect(),
        ),
    }
}

/// Parses a text into the library's JSON tree, `None` on malformed input.
pub fn parse_json(s: &str) -> (r: Option<JsonValue>)
    ensures
        match r {
            Some(v) => json_of(s@) == Some(v),
            None => json_of(s@) is None,
        },
{
    match parse_json_value(s) {
        Some(v) => Some(value_to_json(v)),
        None => None,
    }
}

} // verus!
