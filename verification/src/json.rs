//! The JSON values that `serde_json` holds, as Verus sees them.
//!
//! `serde_json::Value` and `serde_json::Map` are opaque to the verifier. This
//! module gives their contents a mathematical reading, [`Json`], and wraps the
//! handful of `serde_json` operations the library builds values with. The
//! contracts of those wrappers are trusted: they restate what the `serde_json`
//! source does and are not proved here.

use vstd::prelude::*;

verus! {

/// `serde_json::Value`, a JSON value. Opaque: what it holds is [`json_of`].
#[verifier::external_type_specification]
#[verifier::external_body]
pub struct ExValue(serde_json::Value);

/// `serde_json::Map`, the members of a JSON object. Opaque: what it holds is
/// [`members_of`].
#[verifier::external_type_specification]
#[verifier::external_body]
#[verifier::reject_recursive_types(K)]
#[verifier::reject_recursive_types(V)]
pub struct ExObject<K, V>(serde_json::Map<K, V>);

/// `serde_json::Error`, a failure to read or write JSON. Opaque.
#[verifier::external_type_specification]
#[verifier::external_body]
pub struct ExError(serde_json::Error);

/// A JSON value as a mathematical tree.
///
/// Integers of either sign are one kind of number, `Int`. A floating-point
/// number is `Float`, identified by the bit pattern of its binary64 value; the
/// library never computes with it. The members of an object form a map, so
/// their order carries no meaning.
pub enum Json {
    Null,
    Bool(bool),
    Int(int),
    Float(u64),
    Text(Seq<char>),
    List(Seq<Json>),
    Object(Map<Seq<char>, Json>),
}

/// The JSON value that a `serde_json::Value` holds.
pub uninterp spec fn json_of(v: serde_json::Value) -> Json;

/// The members that a `serde_json::Map` holds, by key.
pub uninterp spec fn members_of(m: serde_json::Map<String, serde_json::Value>) -> Map<
    Seq<char>,
    Json,
>;

/// What `serde_json::to_string` gives for an array with these elements: the
/// text it writes, or `None` where it fails to write one.
pub uninterp spec fn json_text(items: Seq<Json>) -> Option<Seq<char>>;

/// The object without members.
pub open spec fn no_members() -> Map<Seq<char>, Json> {
    Map::empty()
}

/// The list without elements.
pub open spec fn no_items() -> Seq<Json> {
    Seq::empty()
}

/// The member of a JSON object under a key: `None` where the value is no
/// object or the object has no such member.
pub open spec fn member(value: Json, key: Seq<char>) -> Option<Json> {
    match value {
        Json::Object(members) => if members.dom().contains(key) {
            Some(members[key])
        } else {
            None
        },
        _ => None,
    }
}

/// The keys of a JSON object; no keys where the value is no object.
pub open spec fn keys(value: Json) -> Set<Seq<char>> {
    match value {
        Json::Object(members) => members.dom(),
        _ => Set::empty(),
    }
}

/// What each of `values` holds, in order.
pub open spec fn json_of_each(values: Seq<serde_json::Value>) -> Seq<Json> {
    Seq::new(values.len(), |i: int| json_of(values[i]))
}

/// The variant `serde_json::Value::Null`. Trusted: it holds JSON null.
#[verifier::external_body]
pub(crate) fn null_value() -> (v: serde_json::Value)
    ensures
        json_of(v) == Json::Null,
{
    serde_json::Value::Null
}

/// The variant `serde_json::Value::Bool`. Trusted: it holds the boolean given.
#[verifier::external_body]
pub(crate) fn bool_value(b: bool) -> (v: serde_json::Value)
    ensures
        json_of(v) == Json::Bool(b),
{
    serde_json::Value::Bool(b)
}

/// `serde_json::Value::from` on a `u64`. Trusted: the result is the integer
/// number with that value.
#[verifier::external_body]
pub(crate) fn unsigned_value(n: u64) -> (v: serde_json::Value)
    ensures
        json_of(v) == Json::Int(n as int),
{
    serde_json::Value::from(n)
}

/// `serde_json::Value::from` on an `i64`. Trusted: the result is the integer
/// number with that value, whatever its sign.
#[verifier::external_body]
pub(crate) fn signed_value(n: i64) -> (v: serde_json::Value)
    ensures
        json_of(v) == Json::Int(n as int),
{
    serde_json::Value::from(n)
}

/// The variant `serde_json::Value::String`. Trusted: it holds the characters
/// of the string given, unchanged.
#[verifier::external_body]
pub(crate) fn string_value(s: String) -> (v: serde_json::Value)
    ensures
        json_of(v) == Json::Text(s@),
{
    serde_json::Value::String(s)
}

/// The variant `serde_json::Value::Array`. Trusted: it holds what the
/// elements given hold, in their order.
#[verifier::external_body]
pub(crate) fn array_value(items: Vec<serde_json::Value>) -> (v: serde_json::Value)
    ensures
        json_of(v) == Json::List(json_of_each(items@)),
{
    serde_json::Value::Array(items)
}

/// The variant `serde_json::Value::Object`. Trusted: it holds the members of
/// the map given.
#[verifier::external_body]
pub(crate) fn object_value(members: serde_json::Map<String, serde_json::Value>) -> (v:
    serde_json::Value)
    ensures
        json_of(v) == Json::Object(members_of(members)),
{
    serde_json::Value::Object(members)
}

/// `serde_json::Map::new`. Trusted: the new map has no members.
#[verifier::external_body]
pub(crate) fn new_members() -> (m: serde_json::Map<String, serde_json::Value>)
    ensures
        members_of(m) == no_members(),
{
    serde_json::Map::new()
}

/// `serde_json::Map::insert`. Trusted: afterwards the key is bound to what the
/// value holds, replacing an earlier member with that key, and every other
/// member is as before. The member that was replaced, which `insert` hands
/// back, is dropped.
#[verifier::external_body]
pub(crate) fn insert_member(
    m: &mut serde_json::Map<String, serde_json::Value>,
    key: String,
    value: serde_json::Value,
)
    ensures
        members_of(*final(m)) == members_of(*old(m)).insert(key@, json_of(value)),
{
    m.insert(key, value);
}

/// `serde_json::Value::is_null`. Trusted: it tells whether the value holds
/// JSON null.
#[verifier::external_body]
pub(crate) fn holds_null(value: &serde_json::Value) -> (b: bool)
    ensures
        b == (json_of(*value) is Null),
{
    value.is_null()
}

/// `serde_json::Value::is_f64`. Trusted: it tells whether the value holds a
/// floating-point number.
#[verifier::external_body]
pub(crate) fn holds_float(value: &serde_json::Value) -> (b: bool)
    ensures
        b == (json_of(*value) is Float),
{
    value.is_f64()
}

/// `Clone::clone` of `serde_json::Value`. Trusted: the copy holds what the
/// value it was made from holds.
pub assume_specification[ <serde_json::Value as Clone>::clone ](
    value: &serde_json::Value,
) -> (v: serde_json::Value)
    ensures
        json_of(v) == json_of(*value),
;

/// `serde_json::to_string` on a vector of values. Trusted: whether it
/// succeeds, and the text when it does, depend on what the elements hold and
/// on nothing else (it writes into memory, and the members of an object in
/// the order of their keys). That it succeeds is not claimed.
#[verifier::external_body]
pub(crate) fn write_array(values: &Vec<serde_json::Value>) -> (r: Result<
    String,
    serde_json::Error,
>)
    ensures
        match json_text(json_of_each(values@)) {
            Some(text) => r matches Ok(written) && written@ == text,
            None => r is Err,
        },
{
    serde_json::to_string(values)
}

/// `ToString::to_string` of `serde_json::Error`: the description of a failed
/// serialization. Nothing is claimed about the text.
#[verifier::external_body]
pub(crate) fn describe(failure: &serde_json::Error) -> String {
    failure.to_string()
}

} // verus!
