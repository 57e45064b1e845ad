//! A JSON document as plain values, and typed access to its nodes.

use vstd::prelude::*;
use crate::error::Error;


verus! {

/// A JSON node. A number keeps only what the level format reads of it: its
/// value when it is an integer that fits an `i64`.
#[derive(Debug)]
pub enum Json {
    Null,
    Bool(bool),
    Number(Option<i64>),
    Str(String),
    Array(Vec<Json>),
    Object(Vec<(String, Json)>),
}

/// serde_json's parsed document, only ever copied into a `Json`.
#[verifier::external_type_specification]
#[verifier::external_body]
pub struct ExJsonValue(serde_json::Value);

/// The document that serde_json reads from `bytes`, if they hold one.
pub uninterp spec fn parsed_json(bytes: Seq<u8>) -> Option<Json>;

impl Json {
    /// Copies a serde_json::Value node by node, keeping of each number what
    /// serde_json::Number::as_i64 reports.
    #[verifier::external_body]
    fn from_value(v: &serde_json::Value) -> Json {
        match v {
            serde_json::Value::Null => Json::Null,
            serde_json::Value::Bool(b) => Json::Bool(*b),
            serde_json::Value::Number(n) => Json::Number(n.as_i64()),
            serde_json::Value::String(s) => Json::Str(s.clone()),
            serde_json::Value::Array(a) => Json::Array(a.iter().map(Json::from_value).collect()),
            serde_json::Value::Object(m) => Json::Object(
                m.iter().map(|(k, x)| (k.clone(), Json::from_value(x))).collect(),
            ),
        }
    }
}

/// Relies on serde_json::from_slice to read a JSON document, whose outcome
/// depends on the bytes alone; a failure is handed on as the text of
/// serde_json's error.
#[verifier::external_body]
pub(crate) fn parse_json(bytes: &[u8]) -> (r: Result<Json, String>)
    ensures
        r is Ok <==> parsed_json(bytes@) is Some,
        r matches Ok(j) ==> parsed_json(bytes@) == Some(j),
{
    serde_json::from_slice::<serde_json::Value>(bytes).map(|v| Json::from_value(&v)).map_err(
        |e| e.to_string(),
    )
}

/// Reads `bytes` as a JSON document.
pub fn read_json(bytes: &[u8]) -> (r: Result<Json, Error>)
    ensures
        r matches Ok(j) ==> parsed_json(bytes@) == Some(j),
        r matches Err(e) ==> parsed_json(bytes@) is None && e is InvalidJson,
        parsed_json(bytes@) is Some ==> r is Ok,
{
    match parse_json(bytes) {
        Ok(j) => Ok(j),
        Err(text) => Err(Error::InvalidJson(text)),
    }
}

/// The value of the first member called `key`, or `Null` if there is none.
pub open spec fn member(fields: Seq<(String, Json)>, key: Seq<char>) -> Json
    decreases fields.len(),
{
    if fields.len() == 0 {
        Json::Null
    } else if fields[0].0@ == key {
        fields[0].1
    } else {
        member(fields.drop_first(), key)
    }
}

/// The member `key` of an object; `Null` for anything else.
pub open spec fn get(j: Json, key: Seq<char>) -> Json {
    match j {
        Json::Object(fields) => member(fields@, key),
        _ => Json::Null,
    }
}

/// The node as an `i32`.
pub open spec fn spec_as_i32(j: Json) -> Result<i32, Seq<char>> {
    match j {
        Json::Number(Some(n)) => if i32::MIN <= n <= i32::MAX {
            Ok(n as i32)
        } else {
            Err("invalid i32"@)
        },
        _ => Err("invalid i32"@),
    }
}

/// The node as a string.
pub open spec fn spec_as_str(j: Json) -> Result<Seq<char>, Seq<char>> {
    match j {
        Json::Str(s) => Ok(s@),
        _ => Err("invalid str"@),
    }
}

/// The node as an array.
pub open spec fn spec_as_vec(j: Json) -> Result<Seq<Json>, Seq<char>> {
    match j {
        Json::Array(a) => Ok(a@),
        _ => Err("invalid vec"@),
    }
}

/// The node as an object's members.
pub open spec fn spec_as_map(j: Json) -> Result<Seq<(String, Json)>, Seq<char>> {
    match j {
        Json::Object(m) => Ok(m@),
        _ => Err("invalid map"@),
    }
}

/// The member `key` of an object's members, if there is one.
pub fn member_of<'a>(fields: &'a Vec<(String, Json)>, key: &str) -> (r: Option<&'a Json>)
    ensures
        node(r) == member(fields@, key@),
{
    let wanted = key.to_owned();
    let mut i: usize = 0;
    assert(fields@.skip(0) =~= fields@);
    while i < fields.len()
        invariant
            i <= fields.len(),
            wanted@ == key@,
            member(fields@, key@) == member(fields@.skip(i as int), key@),
        decreases fields.len() - i,
    {
        assert(fields@.skip(i as int).drop_first() =~= fields@.skip(i + 1));
        if fields[i].0 == wanted {
            return Some(&fields[i].1);
        }
        i = i + 1;
    }
    None
}

/// The node found, `Null` where there is none.
pub open spec fn node(value: Option<&Json>) -> Json {
    match value {
        Some(v) => *v,
        None => Json::Null,
    }
}

/// The node as an `i32`.
pub fn as_i32(value: Option<&Json>) -> (r: Result<i32, Error>)
    ensures
        match spec_as_i32(node(value)) {
            Ok(n) => r matches Ok(k) && k == n,
            Err(m) => r matches Err(Error::InvalidLevel(t)) && t@ == m,
        },
{
    match value {
        Some(Json::Number(Some(n))) => {
            if i32::MIN as i64 <= *n && *n <= i32::MAX as i64 {
                Ok(*n as i32)
            } else {
                Err(Error::invalid_level("invalid i32"))
            }
        },
        _ => Err(Error::invalid_level("invalid i32")),
    }
}

/// The node as a string.
pub fn as_str(value: Option<&Json>) -> (r: Result<&String, Error>)
    ensures
        match spec_as_str(node(value)) {
            Ok(s) => r matches Ok(t) && t@ == s,
            Err(m) => r matches Err(Error::InvalidLevel(t)) && t@ == m,
        },
{
    match value {
        Some(Json::Str(s)) => Ok(s),
        _ => Err(Error::invalid_level("invalid str")),
    }
}

/// The node as an array.
pub fn as_vec(value: Option<&Json>) -> (r: Result<&Vec<Json>, Error>)
    ensures
        match spec_as_vec(node(value)) {
            Ok(a) => r matches Ok(v) && v@ == a,
            Err(m) => r matches Err(Error::InvalidLevel(t)) && t@ == m,
        },
{
    match value {
        Some(Json::Array(a)) => Ok(a),
        _ => Err(Error::invalid_level("invalid vec")),
    }
}

/// The node as an object's members.
pub fn as_map(value: Option<&Json>) -> (r: Result<&Vec<(String, Json)>, Error>)
    ensures
        match spec_as_map(node(value)) {
            Ok(m) => r matches Ok(v) && v@ == m,
            Err(m) => r matches Err(Error::InvalidLevel(t)) && t@ == m,
        },
{
    match value {
        Some(Json::Object(m)) => Ok(m),
        _ => Err(Error::invalid_level("invalid map")),
    }
}

} // verus!
