//! A JSON document as a tree of plain values, and the lookup of a key in an
//! object. The text-level parse is delegated to an outside JSON parser
//! behind one trusted wrapper; everything that reads the tree is verified.

use serde_json::Value;
use vstd::prelude::*;

verus! {

/// One JSON value. An object keeps its members as a sequence of key/value
/// pairs, read by key lookup; a number is kept as a 64-bit integer, the
/// only numeric shape the directory's records use.
#[derive(Debug, PartialEq, Eq)]
pub enum Json {
    Null,
    Bool(bool),
    Int(i64),
    Str(String),
    Arr(Vec<Json>),
    Obj(Vec<(String, Json)>),
}

/// The value of the first member of `es` whose key reads `key`, as an
/// object lookup finds it.
pub open spec fn obj_lookup(es: Seq<(String, Json)>, key: Seq<char>) -> Option<Json>
    decreases es.len(),
{
    if es.len() == 0 {
        None
    } else if es[0].0@ == key {
        Some(es[0].1)
    } else {
        obj_lookup(es.drop_first(), key)
    }
}

/// The string value under `key`, if the member is there and is a string.
pub open spec fn str_field(es: Seq<(String, Json)>, key: Seq<char>) -> Option<Seq<char>> {
    match obj_lookup(es, key) {
        Some(Json::Str(s)) => Some(s@),
        _ => None,
    }
}

/// The integer value under `key`, if the member is there and is a number.
pub open spec fn int_field(es: Seq<(String, Json)>, key: Seq<char>) -> Option<int> {
    match obj_lookup(es, key) {
        Some(Json::Int(i)) => Some(i as int),
        _ => None,
    }
}

/// Finds the first member of `es` with the given key.
pub fn lookup<'a>(es: &'a Vec<(String, Json)>, key: &str) -> (r: Option<&'a Json>)
    ensures
        match r {
            Some(v) => obj_lookup(es@, key@) == Some(*v),
            None => obj_lookup(es@, key@) is None,
        },
{
    let k: String = key.to_owned();
    let mut i: usize = 0;
    proof {
        assert(es@.skip(0) =~= es@);
    }
    while i < es.len()
        invariant
            0 <= i <= es@.len(),
            k@ == key@,
            obj_lookup(es@, key@) == obj_lookup(es@.skip(i as int), key@),
        decreases es@.len() - i,
    {
        proof {
            assert(es@.skip(i as int)[0] == es@[i as int]);
            assert(es@.skip(i as int).drop_first() =~= es@.skip(i as int + 1));
        }
        if es[i].0 == k {
            return Some(&es[i].1);
        }
        i = i + 1;
    }
    proof {
        assert(es@.skip(i as int).len() == 0);
    }
    None
}

/// The string under `key` in `es`, owned, if it is there and is a string.
pub fn get_str_field(es: &Vec<(String, Json)>, key: &str) -> (r: Option<String>)
    ensures
        match r {
            Some(s) => str_field(es@, key@) == Some(s@),
            None => str_field(es@, key@) is None,
        },
{
    match lookup(es, key) {
        Some(Json::Str(s)) => Some(s.clone()),
        _ => None,
    }
}

/// The integer under `key` in `es`, if it is there and is a number.
pub fn get_int_field(es: &Vec<(String, Json)>, key: &str) -> (r: Option<i64>)
    ensures
        match r {
            Some(i) => int_field(es@, key@) == Some(i as int),
            None => int_field(es@, key@) is None,
        },
{
    match lookup(es, key) {
        Some(Json::Int(i)) => Some(*i),
        _ => None,
    }
}

/// The tree a JSON text denotes, if it is well-formed and every number in
/// it is a 64-bit integer; `None` otherwise. Parsing depends on the
/// characters of the text alone.
pub uninterp spec fn json_of_text(s: Seq<char>) -> Option<Json>;

/// Relies on `serde_json::from_str::<serde_json::Value>` to parse the text,
/// and rebuilds the parsed tree in the library's form, one node at a time,
/// by serializing each child back to text and parsing it again; the result
/// is a function of the text alone. A number that is not a 64-bit integer
/// leaves the whole text without a tree.
#[verifier::external_body]
pub(crate) fn parse_text(s: &str) -> (r: Option<Json>)
    ensures
        r == json_of_text(s@),
{
    let v: Value = serde_json::from_str(s).ok()?;
    Some(match v {
        Value::Null => Json::Null,
        Value::Bool(b) => Json::Bool(b),
        Value::Number(n) => Json::Int(n.as_i64()?),
        Value::String(t) => Json::Str(t),
        Value::Array(a) => Json::Arr(
            a.iter().map(|x| parse_text(&x.to_string())).collect::<Option<_>>()?,
        ),
        Value::Object(m) => Json::Obj(
            m.into_iter().map(|(k, x)| Some((k, parse_text(&x.to_string())?))).collect::<
                Option<_>,
            >()?,
        ),
    })
}

} // verus!
