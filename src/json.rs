use vstd::prelude::*;
use serde_json::Value;

verus! {

/// serde_json's JSON value, which `json_from_value` turns into a `Json`.
#[verifier::external_type_specification]
#[verifier::external_body]
pub struct ExValue(Value);

/// The JSON value that the bytes of a document hold; nothing where they are
/// no JSON document. It depends on the bytes alone.
pub uninterp spec fn json_doc(bytes: Seq<u8>) -> Option<Json>;

/// Relies on serde_json::from_slice: reads a JSON document from bytes, or
/// fails; the value read is then converted variant by variant.
#[verifier::external_body]
pub fn parse_json(bytes: &[u8]) -> (r: Option<Json>)
    ensures
        r == json_doc(bytes@),
{
    serde_json::from_slice::<Value>(bytes).ok().map(json_from_value)
}

/// Relies on serde_json::Value's variants: converts each one into the `Json`
/// variant of the same kind, a number through serde_json::Number::as_u64.
#[verifier::external_body]
fn json_from_value(v: Value) -> Json {
    match v {
        Value::Null => Json::Null,
        Value::Bool(b) => Json::Bool(b),
        Value::Number(n) => Json::Number(n.as_u64()),
        Value::String(s) => Json::Str(s),
        Value::Array(a) => Json::Array(a.into_iter().map(json_from_value).collect()),
        Value::Object(m) => Json::Object(m.into_iter().map(|(k, x)| (k, json_from_value(x))).collect()),
    }
}

/// A JSON value. A number keeps its value when it is an integer in the range
/// of `u64`; an object keeps its members in the order given. As `parse_json`
/// reads them, the members of an object come sorted by key, each key once,
/// as serde_json's map holds them.
#[derive(Debug)]
pub enum Json {
    Null,
    Bool(bool),
    Number(Option<u64>),
    Str(String),
    Array(Vec<Json>),
    Object(Vec<(String, Json)>),
}

/// The value of the first pair whose key is `key`.
pub open spec fn find_key<T>(pairs: Seq<(String, T)>, key: Seq<char>) -> Option<T>
    decreases pairs.len(),
{
    if pairs.len() == 0 {
        None
    } else if pairs[0].0@ == key {
        Some(pairs[0].1)
    } else {
        find_key(pairs.drop_first(), key)
    }
}

/// The member `key` of an object; nothing for another value.
pub open spec fn member(j: Json, key: Seq<char>) -> Option<Json> {
    match j {
        Json::Object(ms) => find_key(ms@, key),
        _ => None,
    }
}

/// The value stored under `key` among the pairs, searched from the first.
pub fn lookup<'a, T>(pairs: &'a Vec<(String, T)>, key: &str) -> (r: Option<&'a T>)
    ensures
        match r {
            Some(v) => find_key(pairs@, key@) == Some(*v),
            None => find_key(pairs@, key@) is None,
        },
{
    let k = key.to_string();
    let mut i: usize = 0;
    assert(pairs@.subrange(0, pairs@.len() as int) =~= pairs@);
    while i < pairs.len()
        invariant
            i <= pairs.len(),
            k@ == key@,
            find_key(pairs@, key@) == find_key(pairs@.subrange(i as int, pairs@.len() as int), key@),
        decreases pairs.len() - i,
    {
        let ghost rest = pairs@.subrange(i as int, pairs@.len() as int);
        assert(rest.drop_first() =~= pairs@.subrange(i + 1, pairs@.len() as int));
        if pairs[i].0 == k {
            return Some(&pairs[i].1);
        }
        i += 1;
    }
    None
}

/// The member `key` of `j` when `j` is an object that has one.
pub fn get_member<'a>(j: &'a Json, key: &str) -> (r: Option<&'a Json>)
    ensures
        match r {
            Some(v) => member(*j, key@) == Some(*v),
            None => member(*j, key@) is None,
        },
{
    match j {
        Json::Object(ms) => lookup(ms, key),
        _ => None,
    }
}

} // verus!
