//! A plain-value model of a JSON document, and the trusted bridge that
//! obtains one from a response body through `serde_json`.

use vstd::prelude::*;

verus! {

/// One JSON value, held entirely as plain values.
///
/// Numbers are kept only as far as this library reads them: a non-negative
/// integer that fits in `u64` is `Num`; every other number is `NumOther`,
/// which no field of an answer document accepts. An object is a sequence of
/// key/value pairs; [`lookup`] finds the first binding of a key.
pub enum Json {
    Null,
    Bool(bool),
    Num(u64),
    NumOther,
    Str(String),
    Arr(Vec<Json>),
    Obj(Vec<(String, Json)>),
}

/// The first binding of `key` among `fields`, if any.
pub open spec fn lookup(fields: Seq<(String, Json)>, key: Seq<char>) -> Option<Json>
    decreases fields.len(),
{
    if fields.len() == 0 {
        None
    } else if fields[0].0@ == key {
        Some(fields[0].1)
    } else {
        lookup(fields.drop_first(), key)
    }
}

/// The first binding of `key` among `fields`, as [`lookup`] gives it.
pub fn find_field<'a>(fields: &'a Vec<(String, Json)>, key: &String) -> (r: Option<&'a Json>)
    ensures
        match r {
            Some(j) => lookup(fields@, key@) == Some(*j),
            None => lookup(fields@, key@) is None,
        },
{
    let n = fields.len();
    let mut i: usize = 0;
    proof {
        assert(fields@.skip(0) =~= fields@);
    }
    while i < n
        invariant
            n == fields@.len(),
            i <= n,
            lookup(fields@, key@) == lookup(fields@.skip(i as int), key@),
        decreases n - i,
    {
        if fields[i].0 == *key {
            proof {
                assert(fields@.skip(i as int)[0] == fields@[i as int]);
            }
            return Some(&fields[i].1);
        }
        proof {
            assert(fields@.skip(i as int).drop_first() =~= fields@.skip(i as int + 1));
        }
        i = i + 1;
    }
    proof {
        assert(fields@.skip(n as int) =~= Seq::<(String, Json)>::empty());
    }
    None
}

#[verifier::external_type_specification]
#[verifier::external_body]
pub struct ExValue(serde_json::Value);

pub uninterp spec fn json_doc(s: Seq<char>) -> Option<Json>;

pub uninterp spec fn value_model(v: serde_json::Value) -> Json;

/// Relies on `serde_json::from_str`: it parses the text as one JSON
/// document, depending on the text alone, and its error value renders the
/// cause. [`json_doc`] names the parsed document, taken as plain values.
#[verifier::external_body]
fn parse_value(s: &str) -> (r: Result<serde_json::Value, String>)
    ensures
        r matches Ok(v) ==> json_doc(s@) == Some(value_model(v)),
        r is Err <==> json_doc(s@) is None,
{
    match serde_json::from_str::<serde_json::Value>(s) {
        Ok(v) => Ok(v),
        Err(e) => Err(e.to_string()),
    }
}

/// Relies on the public variants of `serde_json::Value` and on
/// `serde_json::Number::as_u64`: carries a parsed document over into the
/// plain-value model, variant by variant. [`value_model`] names what the
/// document holds.
#[verifier::external_body]
fn json_of_value(v: &serde_json::Value) -> (j: Json)
    ensures
        j == value_model(*v),
{
    match v {
        serde_json::Value::Null => Json::Null,
        serde_json::Value::Bool(b) => Json::Bool(*b),
        serde_json::Value::Number(n) => n.as_u64().map_or(Json::NumOther, Json::Num),
        serde_json::Value::String(s) => Json::Str(s.clone()),
        serde_json::Value::Array(a) => Json::Arr(a.iter().map(json_of_value).collect()),
        serde_json::Value::Object(m) => Json::Obj(
            m.iter().map(|(k, w)| (k.clone(), json_of_value(w))).collect(),
        ),
    }
}

/// Parses a response body into the plain-value model, or reports the parse
/// error's rendering.
pub fn parse_json(s: &str) -> (r: Result<Json, String>)
    ensures
        r matches Ok(j) ==> json_doc(s@) == Some(j),
        r is Err <==> json_doc(s@) is None,
{
    match parse_value(s) {
        Ok(v) => Ok(json_of_value(&v)),
        Err(e) => Err(e),
    }
}

} // verus!
