//! JSON values: what a `serde_json::Value` holds, and the operations of
//! serde_json on it that the library uses.

use vstd::prelude::*;
use vstd::utf8::*;

verus! {

/// `serde_json::Value`, opaque here: `json_of` says what a value holds.
#[verifier::external_type_specification]
#[verifier::external_body]
pub struct ExValue(serde_json::Value);

/// A number of a JSON document: an integer, or a floating-point number by the
/// text that serde_json prints for it.
pub enum JsonNumber {
    Integer(int),
    Float(Seq<char>),
}

/// A JSON document as a mathematical value.
#[verifier::ext_equal]
pub enum Json {
    Null,
    Bool(bool),
    Number(JsonNumber),
    Text(Seq<char>),
    Array(Seq<Json>),
    Object(Map<Seq<char>, Json>),
}

/// What a `serde_json::Value` holds. An object is held in a map ordered by key,
/// so its entries have no order of their own.
pub uninterp spec fn json_of(value: serde_json::Value) -> Json;

/// What an optional value holds.
pub open spec fn json_of_option(value: Option<&serde_json::Value>) -> Option<Json> {
    match value {
        Some(v) => Some(json_of(*v)),
        None => None,
    }
}

/// What each value of a list holds.
pub open spec fn json_of_all(values: Seq<serde_json::Value>) -> Seq<Json> {
    Seq::new(values.len(), |i: int| json_of(values[i]))
}

/// The entry of `json` under `key`: none where `json` is not an object, or has
/// no such key.
pub open spec fn field(json: Json, key: Seq<char>) -> Option<Json> {
    match json {
        Json::Object(entries) => if entries.contains_key(key) {
            Some(entries[key])
        } else {
            None
        },
        _ => None,
    }
}

/// `field`, of a document that may be missing.
pub open spec fn field_of(json: Option<Json>, key: Seq<char>) -> Option<Json> {
    match json {
        Some(j) => field(j, key),
        None => None,
    }
}

/// The characters of `json` where it is a string.
pub open spec fn text_of(json: Option<Json>) -> Option<Seq<char>> {
    match json {
        Some(Json::Text(text)) => Some(text),
        _ => None,
    }
}

/// `json` where it is a boolean.
pub open spec fn bool_of(json: Option<Json>) -> Option<bool> {
    match json {
        Some(Json::Bool(b)) => Some(b),
        _ => None,
    }
}

/// `json` where it is an integer between `low` and `high`.
pub open spec fn integer_within(json: Option<Json>, low: int, high: int) -> Option<int> {
    match json {
        Some(Json::Number(JsonNumber::Integer(n))) => if low <= n <= high {
            Some(n)
        } else {
            None
        },
        _ => None,
    }
}

/// The JSON number of `n`.
pub open spec fn integer(n: int) -> Json {
    Json::Number(JsonNumber::Integer(n))
}

/// The entries of an empty object.
pub open spec fn no_entries() -> Map<Seq<char>, Json> {
    Map::empty()
}

/// `Value::get` with a string: the entry of an object under that key.
#[verifier::external_body]
pub(crate) fn get<'a>(value: &'a serde_json::Value, key: &str) -> (entry: Option<
    &'a serde_json::Value,
>)
    ensures
        json_of_option(entry) == field(json_of(*value), key@),
{
    value.get(key)
}

/// `Value::as_str`: the characters of a string, and nothing of another value.
pub assume_specification[ serde_json::Value::as_str ](value: &serde_json::Value) -> (chars: Option<
    &str,
>)
    ensures
        match chars {
            Some(t) => json_of(*value) == Json::Text(t@),
            None => !(json_of(*value) is Text),
        },
;

/// `Value::as_bool`: the boolean, and nothing of another value.
pub assume_specification[ serde_json::Value::as_bool ](value: &serde_json::Value) -> (b: Option<
    bool,
>)
    ensures
        b == bool_of(Some(json_of(*value))),
;

/// `Value::as_i64`: an integer that fits, and nothing of another value; a
/// floating-point number is no integer, whatever its value.
pub assume_specification[ serde_json::Value::as_i64 ](value: &serde_json::Value) -> (n: Option<i64>)
    ensures
        match n {
            Some(i) => json_of(*value) == integer(i as int),
            None => integer_within(Some(json_of(*value)), i64::MIN as int, i64::MAX as int) is None,
        },
;

/// `Value::as_u64`: a non-negative integer, and nothing of another value.
pub assume_specification[ serde_json::Value::as_u64 ](value: &serde_json::Value) -> (n: Option<u64>)
    ensures
        match n {
            Some(i) => json_of(*value) == integer(i as int),
            None => integer_within(Some(json_of(*value)), 0, u64::MAX as int) is None,
        },
;

/// `Value::is_object`.
pub assume_specification[ serde_json::Value::is_object ](value: &serde_json::Value) -> (is: bool)
    ensures
        is == (json_of(*value) is Object),
;

/// `Value::as_array`: the elements of an array in their order, and nothing of
/// another value.
pub assume_specification[ serde_json::Value::as_array ](
    value: &serde_json::Value,
) -> (elements: Option<&Vec<serde_json::Value>>)
    ensures
        match elements {
            Some(list) => json_of(*value) == Json::Array(json_of_all(list@)),
            None => !(json_of(*value) is Array),
        },
;

/// `Value::clone`: a value that holds the same.
pub assume_specification[ <serde_json::Value as Clone>::clone ](
    value: &serde_json::Value,
) -> (copy: serde_json::Value)
    ensures
        json_of(copy) == json_of(*value),
;

/// `Value::Null`.
#[verifier::external_body]
pub(crate) fn null() -> (value: serde_json::Value)
    ensures
        json_of(value) == Json::Null,
{
    serde_json::Value::Null
}

/// `Value::Bool`.
#[verifier::external_body]
pub(crate) fn from_bool(b: bool) -> (value: serde_json::Value)
    ensures
        json_of(value) == Json::Bool(b),
{
    serde_json::Value::Bool(b)
}

/// `Value::from` of an unsigned integer.
#[verifier::external_body]
pub(crate) fn from_u64(n: u64) -> (value: serde_json::Value)
    ensures
        json_of(value) == integer(n as int),
{
    serde_json::Value::from(n)
}

/// `Value::from` of a string.
#[verifier::external_body]
pub(crate) fn from_text(s: &str) -> (value: serde_json::Value)
    ensures
        json_of(value) == Json::Text(s@),
{
    serde_json::Value::from(s)
}

/// `Value::Array` of a list.
#[verifier::external_body]
pub(crate) fn from_list(values: Vec<serde_json::Value>) -> (value: serde_json::Value)
    ensures
        json_of(value) == Json::Array(json_of_all(values@)),
{
    serde_json::Value::Array(values)
}

/// `Value::Object` of `serde_json::Map::new`: an object without entries.
#[verifier::external_body]
pub(crate) fn empty_object() -> (value: serde_json::Value)
    ensures
        json_of(value) == Json::Object(no_entries()),
{
    serde_json::Value::Object(serde_json::Map::new())
}

/// `value[key] = entry`, through `IndexMut` of `Value`, which adds the key where
/// it is missing, replaces the entry where it is there, and panics on what is
/// neither an object nor null.
#[verifier::external_body]
pub(crate) fn set(value: &mut serde_json::Value, key: &str, entry: serde_json::Value)
    requires
        json_of(*old(value)) is Object,
    ensures
        json_of(*final(value)) == Json::Object(
            json_of(*old(value))->Object_0.insert(key@, json_of(entry)),
        ),
{
    value[key] = entry;
}

/// What `serde_json::from_str` reads from a text; nothing where it fails.
pub uninterp spec fn json_parsed(text: Seq<char>) -> Option<Json>;

/// `serde_json::from_str` into a `Value`, with the error dropped.
#[verifier::external_body]
pub(crate) fn parse(text: &str) -> (value: Option<serde_json::Value>)
    ensures
        match value {
            Some(v) => json_parsed(text@) == Some(json_of(v)),
            None => json_parsed(text@) is None,
        },
{
    serde_json::from_str(text).ok()
}

/// What `serde_json::from_slice` reads from bytes; the text of its error where it
/// fails.
pub uninterp spec fn json_parsed_bytes(bytes: Seq<u8>) -> Result<Json, Seq<char>>;

/// `serde_json::from_slice` into a `Value`, with the error as its text.
#[verifier::external_body]
pub(crate) fn parse_bytes(bytes: &[u8]) -> (value: Result<serde_json::Value, String>)
    ensures
        match value {
            Ok(v) => json_parsed_bytes(bytes@) == Ok::<Json, Seq<char>>(json_of(v)),
            Err(e) => json_parsed_bytes(bytes@) == Err::<Json, Seq<char>>(e@),
        },
{
    serde_json::from_slice(bytes).map_err(|e| e.to_string())
}

/// The compact text that serde_json writes for a document. The entries of an
/// object are written in the order of their keys, as they are without the feature
/// `preserve_order`.
pub uninterp spec fn json_text(json: Json) -> Seq<char>;

/// `Value::to_string`, through its `Display`: the compact text. Strings and keys
/// are written with their control characters escaped, and nothing is written
/// between tokens, so the text is a single line.
#[verifier::external_body]
pub(crate) fn to_text(value: &serde_json::Value) -> (text: String)
    ensures
        text@ == json_text(json_of(*value)),
        !text@.contains('\n'),
        !text@.contains('\r'),
{
    value.to_string()
}

/// `serde_json::to_vec`: the bytes of the compact text. Writing a `Value` into a
/// vector does not fail: its keys are strings, and the vector takes every write.
#[verifier::external_body]
pub(crate) fn to_bytes(value: &serde_json::Value) -> (bytes: Result<Vec<u8>, String>)
    ensures
        bytes is Ok,
        bytes->Ok_0@ == encode_utf8(json_text(json_of(*value))),
{
    serde_json::to_vec(value).map_err(|e| e.to_string())
}

} // verus!
