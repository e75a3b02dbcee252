//! Trusted boundary around the JSON library.
//!
//! The wire format of the API is JSON, and parsing and printing JSON is the
//! JSON library's job, not this crate's. Verified code therefore handles JSON
//! documents as opaque `serde_json::Value` handles, reached only through the
//! trusted wrappers below. The contents of a handle are described by the
//! uninterpreted spec functions `jobj`, `jarr`, `jstr`, `jnum_u64`, `jbool`
//! and `jnull` (one per shape a JSON value can take), and the text forms by
//! `jparse` and `jdump`; every wrapper states what it does in terms of these
//! names, following what the JSON library's own source shows.

use vstd::prelude::*;

verus! {

#[verifier::external_type_specification]
#[verifier::external_body]
pub struct ExValue(serde_json::Value);

/// The fields of a JSON value, when it is an object.
pub uninterp spec fn jobj(v: serde_json::Value) -> Option<Map<Seq<char>, serde_json::Value>>;

/// The elements of a JSON value, when it is an array.
pub uninterp spec fn jarr(v: serde_json::Value) -> Option<Seq<serde_json::Value>>;

/// The characters of a JSON value, when it is a string.
pub uninterp spec fn jstr(v: serde_json::Value) -> Option<Seq<char>>;

/// The numeric contents of a JSON value, when it is a number representable
/// as a `u64`.
pub uninterp spec fn jnum_u64(v: serde_json::Value) -> Option<u64>;

/// The boolean contents of a JSON value, when it is a boolean.
pub uninterp spec fn jbool(v: serde_json::Value) -> Option<bool>;

/// Whether a JSON value is the null value.
pub uninterp spec fn jnull(v: serde_json::Value) -> bool;

/// The value that parsing a text as JSON yields, or `None` where the text is
/// not well-formed JSON.
pub uninterp spec fn jparse(s: Seq<char>) -> Option<serde_json::Value>;

/// The canonical text that printing a JSON value yields.
pub uninterp spec fn jdump(v: serde_json::Value) -> Seq<char>;

/// Relies on `serde_json::from_str::<Value>`: parsing is a function of the
/// text alone.
#[verifier::external_body]
pub fn json_parse(s: &str) -> (r: Option<serde_json::Value>)
    ensures
        r == jparse(s@),
{
    serde_json::from_str::<serde_json::Value>(s).ok()
}

/// Relies on `serde_json::to_string`: printing a `Value` is a function of the
/// value alone and cannot fail (its maps are keyed by strings).
#[verifier::external_body]
pub fn json_dump(v: &serde_json::Value) -> (r: String)
    ensures
        r@ == jdump(*v),
{
    serde_json::to_string(v).unwrap_or_default()
}

/// Relies on `serde_json::Value::get` with a string index: on an object it
/// looks the key up in the map, on anything else it returns `None`.
#[verifier::external_body]
pub fn json_get(v: &serde_json::Value, key: &str) -> (r: Option<serde_json::Value>)
    ensures
        match jobj(*v) {
            Some(m) => r == (if m.contains_key(key@) {
                Some(m[key@])
            } else {
                None::<serde_json::Value>
            }),
            None => r is None,
        },
{
    v.get(key).map(|x| x.clone())
}

/// Relies on `serde_json::Value::as_str`: returns the string contents of a
/// string value and `None` for every other shape.
#[verifier::external_body]
pub fn json_as_str(v: &serde_json::Value) -> (r: Option<String>)
    ensures
        match r {
            Some(s) => jstr(*v) == Some(s@),
            None => jstr(*v) is None,
        },
{
    v.as_str().map(|s| s.to_string())
}

/// Relies on `serde_json::Value::as_u64`: returns the number when the value
/// is a number representable as `u64`, and `None` otherwise.
#[verifier::external_body]
pub fn json_as_u64(v: &serde_json::Value) -> (r: Option<u64>)
    ensures
        r == jnum_u64(*v),
{
    v.as_u64()
}

/// Relies on `serde_json::Value::as_bool`: returns the boolean contents of a
/// boolean value and `None` for every other shape.
#[verifier::external_body]
pub fn json_as_bool(v: &serde_json::Value) -> (r: Option<bool>)
    ensures
        r == jbool(*v),
{
    v.as_bool()
}

/// Relies on `serde_json::Value::as_array`: returns the elements of an array
/// value and `None` for every other shape.
#[verifier::external_body]
pub fn json_as_array(v: &serde_json::Value) -> (r: Option<Vec<serde_json::Value>>)
    ensures
        match r {
            Some(a) => jarr(*v) == Some(a@),
            None => jarr(*v) is None,
        },
{
    v.as_array().map(|a| a.clone())
}

/// Relies on `serde_json::Value::is_null`: true exactly for the null value.
#[verifier::external_body]
pub fn json_is_null(v: &serde_json::Value) -> (r: bool)
    ensures
        r == jnull(*v),
{
    v.is_null()
}

/// Relies on `serde_json::Map::new` and the `Value::Object` shape: a fresh
/// object holds no fields and is not null.
#[verifier::external_body]
pub fn json_obj_new() -> (r: serde_json::Value)
    ensures
        jobj(r) == Some(Map::<Seq<char>, serde_json::Value>::empty()),
        !jnull(r),
{
    serde_json::Value::Object(serde_json::Map::new())
}

/// Relies on `serde_json::Map::insert`: inserting binds the key to the value,
/// replacing any earlier binding, and leaves the other fields alone.
#[verifier::external_body]
pub fn json_obj_insert(obj: serde_json::Value, key: &str, val: serde_json::Value) -> (r:
    serde_json::Value)
    requires
        jobj(obj) is Some,
    ensures
        jobj(r) == Some(jobj(obj)->Some_0.insert(key@, val)),
        !jnull(r),
{
    match obj {
        serde_json::Value::Object(mut m) => {
            m.insert(key.to_string(), val);
            serde_json::Value::Object(m)
        },
        other => other,
    }
}

/// Relies on `serde_json::Value::from` for `&str`: builds a string value with
/// exactly the given characters.
#[verifier::external_body]
pub fn json_of_str(s: &str) -> (r: serde_json::Value)
    ensures
        jstr(r) == Some(s@),
        !jnull(r),
{
    serde_json::Value::from(s)
}

/// Relies on `serde_json::Value::from` for `u64`: builds a number value that
/// reads back as the same `u64`.
#[verifier::external_body]
pub fn json_of_u64(n: u64) -> (r: serde_json::Value)
    ensures
        jnum_u64(r) == Some(n),
        !jnull(r),
{
    serde_json::Value::from(n)
}

/// Relies on `serde_json::Value::from` for `bool`: builds a boolean value
/// with the given contents.
#[verifier::external_body]
pub fn json_of_bool(b: bool) -> (r: serde_json::Value)
    ensures
        jbool(r) == Some(b),
        !jnull(r),
{
    serde_json::Value::from(b)
}

/// Relies on the `Value::Null` shape: the null value, and nothing else, is
/// null.
#[verifier::external_body]
pub fn json_null() -> (r: serde_json::Value)
    ensures
        jnull(r),
        jstr(r) is None,
        jnum_u64(r) is None,
        jbool(r) is None,
        jobj(r) is None,
        jarr(r) is None,
{
    serde_json::Value::Null
}

/// Relies on the `Value::Array` shape: builds an array value holding exactly
/// the given elements in order.
#[verifier::external_body]
pub fn json_of_array(items: Vec<serde_json::Value>) -> (r: serde_json::Value)
    ensures
        jarr(r) == Some(items@),
        !jnull(r),
{
    serde_json::Value::Array(items)
}

} // verus!
