//! The JSON documents the client exchanges with the platform, as a tree of
//! plain values.
//!
//! Parsing is done by the `serde_json` crate behind a trusted boundary: a
//! parsed document is handed over as a [`Json`] tree, and everything the
//! client reads out of a document is verified logic over that tree.

use vstd::prelude::*;

verus! {

/// A JSON value, as far as this client reads one.
///
/// Numbers are kept when they are unsigned 64-bit integers — the only
/// numbers the client's documents carry (a port, a content length, a
/// progress figure). Any other number (negative, fractional) appears as
/// [`Json::Other`]: present, but with nothing the client would read from it.
pub enum Json {
    Null,
    Bool(bool),
    UInt(u64),
    Str(String),
    Arr(Vec<Json>),
    Obj(Vec<(String, Json)>),
    Other,
}

/// The value under `key` among an object's entries: the first entry whose
/// key matches. (Parsed objects hold each key at most once.)
pub open spec fn obj_lookup(entries: Seq<(String, Json)>, key: Seq<char>) -> Option<Json>
    decreases entries.len(),
{
    if entries.len() == 0 {
        None
    } else if entries[0].0@ == key {
        Some(entries[0].1)
    } else {
        obj_lookup(entries.drop_first(), key)
    }
}

/// Looks a key up among an object's entries.
pub fn obj_get<'a>(entries: &'a Vec<(String, Json)>, key: &str) -> (r: Option<&'a Json>)
    ensures
        match r {
            Some(j) => obj_lookup(entries@, key@) == Some(*j),
            None => obj_lookup(entries@, key@) is None,
        },
{
    let k: String = key.to_owned();
    let mut i: usize = 0;
    proof {
        assert(entries@.skip(0) =~= entries@);
    }
    while i < entries.len()
        invariant
            i <= entries@.len(),
            k@ == key@,
            obj_lookup(entries@, key@) == obj_lookup(entries@.skip(i as int), key@),
        decreases entries@.len() - i,
    {
        let e = &entries[i];
        if e.0 == k {
            return Some(&e.1);
        }
        proof {
            assert(entries@.skip(i as int).drop_first() =~= entries@.skip(i + 1));
        }
        i = i + 1;
    }
    proof {
        assert(entries@.skip(i as int) =~= Seq::<(String, Json)>::empty());
    }
    None
}

// What the `serde_json` crate does is taken on trust below this line: the
// declared `Value` type, the two named results, and the two functions whose
// bodies call into the crate.

#[verifier::external_type_specification]
#[verifier::external_body]
pub struct ExValue(serde_json::Value);

/// What a parsed `serde_json` document holds, as a [`Json`] tree: null,
/// booleans and strings as themselves, numbers by [`Json`]'s rule on
/// numbers, arrays element for element, objects as their entries in the
/// crate's own (key-sorted, duplicate-free) order.
pub uninterp spec fn value_model(v: serde_json::Value) -> Json;

/// What parsing a byte sequence as one complete JSON document yields:
/// the tree for a well-formed document, nothing otherwise. The result is a
/// function of the bytes alone.
pub uninterp spec fn spec_parse_json(bytes: Seq<u8>) -> Option<Json>;

/// Relies on `serde_json::from_slice::<Value>`: parses one complete JSON
/// document from bytes, returning an error exactly on input that is not one.
#[verifier::external_body]
fn parse_value(bytes: &[u8]) -> (r: Option<serde_json::Value>)
    ensures
        match r {
            Some(v) => spec_parse_json(bytes@) == Some(value_model(v)),
            None => spec_parse_json(bytes@) is None,
        },
{
    serde_json::from_slice::<serde_json::Value>(bytes).ok()
}

/// Relies on `serde_json`'s public `Value` enum and `Number::as_u64`: each
/// variant is carried over one for one; a number that is no unsigned 64-bit
/// integer becomes [`Json::Other`].
#[verifier::external_body]
fn value_to_json(v: serde_json::Value) -> (r: Json)
    ensures
        r == value_model(v),
{
    match v {
        serde_json::Value::Null => Json::Null,
        serde_json::Value::Bool(b) => Json::Bool(b),
        serde_json::Value::Number(n) => match n.as_u64() {
            Some(u) => Json::UInt(u),
            None => Json::Other,
        },
        serde_json::Value::String(s) => Json::Str(s),
        serde_json::Value::Array(a) => Json::Arr(a.into_iter().map(value_to_json).collect()),
        serde_json::Value::Object(o) => {
            Json::Obj(o.into_iter().map(|(k, x)| (k, value_to_json(x))).collect())
        },
    }
}

/// Parses one complete JSON document.
pub fn parse_json(bytes: &[u8]) -> (r: Option<Json>)
    ensures
        r == spec_parse_json(bytes@),
{
    match parse_value(bytes) {
        Some(v) => Some(value_to_json(v)),
        None => None,
    }
}

} // verus!
