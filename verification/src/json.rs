//! JSON documents, as `serde_json` holds, reads and writes them.
use vstd::prelude::*;
use serde_json::Value;

verus! {

/// A number inside a JSON document.
pub enum JsonNumber {
    /// A number that is held as an integer.
    Integer(int),
    /// A number that is held as a binary fraction, given by the text that it is written as.
    Fraction(Seq<char>),
}

/// What a JSON document says.
pub enum Json {
    Null,
    Bool(bool),
    Number(JsonNumber),
    Text(Seq<char>),
    Array(Seq<Json>),
    Object(Map<Seq<char>, Json>),
}

#[verifier::external_type_specification]
#[verifier::external_body]
pub struct ExValue(Value);

#[verifier::external_type_specification]
#[verifier::external_body]
#[verifier::reject_recursive_types(K)]
#[verifier::reject_recursive_types(V)]
pub struct ExObject<K, V>(serde_json::Map<K, V>);

/// What a `serde_json::Value` holds.
pub uninterp spec fn json_of(value: Value) -> Json;

/// The members that a `serde_json::Map` holds.
pub uninterp spec fn members_of(object: serde_json::Map<String, Value>) -> Map<Seq<char>, Json>;

/// What the values of a list hold.
pub open spec fn jsons_of(values: Seq<Value>) -> Seq<Json> {
    values.map_values(|value: Value| json_of(value))
}

/// The member of an object under a key, where there is one.
pub open spec fn member(json: Json, key: Seq<char>) -> Option<Json> {
    match json {
        Json::Object(members) => if members.dom().contains(key) {
            Some(members[key])
        } else {
            None
        },
        _ => None,
    }
}

/// An object with one member set.
pub open spec fn with_member(object: Json, key: Seq<char>, json: Json) -> Json {
    Json::Object(object->Object_0.insert(key, json))
}

/// An integer.
pub open spec fn integer(n: int) -> Json {
    Json::Number(JsonNumber::Integer(n))
}

/// `serde_json::Value::as_str`: the text of a string, and nothing of any other value.
pub assume_specification[ Value::as_str ](value: &Value) -> (r: Option<&str>)
    ensures
        match json_of(*value) {
            Json::Text(text) => r is Some && r->0@ == text,
            _ => r is None,
        },
;

/// `serde_json::Value::as_array`: the items of an array, and nothing of any other value.
pub assume_specification[ Value::as_array ](value: &Value) -> (r: Option<&Vec<Value>>)
    ensures
        match json_of(*value) {
            Json::Array(items) => r is Some && jsons_of((r->0)@) == items,
            _ => r is None,
        },
;

/// `serde_json::Value::as_object_mut`: the members of an object, for changing
/// them in place, and nothing of any other value.
pub assume_specification[ Value::as_object_mut ](value: &mut Value) -> (r: Option<
    &mut serde_json::Map<String, Value>,
>)
    ensures
        match json_of(*old(value)) {
            Json::Object(members) => {
                &&& r is Some
                &&& members_of(*(r->0)) == members
                &&& json_of(*final(value)) == Json::Object(members_of(*final(r->0)))
            },
            _ => r is None && *final(value) == *old(value),
        },
;

/// `serde_json::Value::take`: moves the value out and leaves null in its place.
pub assume_specification[ Value::take ](value: &mut Value) -> (r: Value)
    ensures
        r == *old(value),
        json_of(*final(value)) == Json::Null,
;

/// Cloning a `serde_json::Value` gives a value that holds the same.
pub assume_specification[ <Value as Clone>::clone ](value: &Value) -> (r: Value)
    ensures
        json_of(r) == json_of(*value),
;

/// `serde_json::Map::new`: no members.
pub assume_specification[ serde_json::Map::<String, Value>::new ]() -> (r: serde_json::Map<String, Value>)
    ensures
        (members_of(r) == Map::<Seq<char>, Json>::empty()),
;

/// `serde_json::Map::insert`: sets one member and gives back what it was before.
pub assume_specification[ serde_json::Map::<String, Value>::insert ](
    target: &mut serde_json::Map<String, Value>,
    k: String,
    v: Value,
) -> (r: Option<Value>)
    ensures
        members_of(*final(target)) == members_of(*old(target)).insert(k@, json_of(v)),
        match r {
            Some(before) => member(Json::Object(members_of(*old(target))), k@) == Some(
                json_of(before),
            ),
            None => member(Json::Object(members_of(*old(target))), k@) is None,
        },
;

/// `serde_json::Value::get` on a key.
#[verifier::external_body]
pub(crate) fn member_ref<'a>(value: &'a Value, key: &str) -> (r: Option<&'a Value>)
    ensures
        match member(json_of(*value), key@) {
            Some(found) => r is Some && json_of(*(r->0)) == found,
            None => r is None,
        },
{
    value.get(key)
}

/// `serde_json::Value::get_mut` on a key: the member, for changing it in place.
#[verifier::external_body]
pub(crate) fn member_mut<'a>(value: &'a mut Value, key: &str) -> (r: Option<&'a mut Value>)
    ensures
        match member(json_of(*old(value)), key@) {
            Some(found) => {
                &&& r is Some
                &&& json_of(*(r->0)) == found
                &&& json_of(*final(value)) == with_member(
                    json_of(*old(value)),
                    key@,
                    json_of(*final(r->0)),
                )
            },
            None => r is None && *final(value) == *old(value),
        },
{
    value.get_mut(key)
}

/// Whether a text can stand in a JSON pointer as it is, and names no array index.
pub open spec fn is_plain_token(token: Seq<char>) -> bool {
    &&& token.len() > 0
    &&& 'a' <= token[0] <= 'z'
    &&& forall|i: int| 0 <= i < token.len() ==> #[trigger] token[i] != '/' && token[i] != '~'
}

/// `serde_json::Value::pointer` on two tokens: the member of a member.
#[verifier::external_body]
pub(crate) fn pointer<'a>(value: &'a Value, outer: &str, inner: &str) -> (r: Option<&'a Value>)
    requires
        is_plain_token(outer@),
        is_plain_token(inner@),
    ensures
        match inner_member(json_of(*value), outer@, inner@) {
            Some(found) => r is Some && json_of(*(r->0)) == found,
            None => r is None,
        },
{
    value.pointer(&format!("/{outer}/{inner}"))
}

/// The member of a member, where there is one.
pub open spec fn inner_member(json: Json, outer: Seq<char>, inner: Seq<char>) -> Option<Json> {
    match member(json, outer) {
        Some(found) => member(found, inner),
        None => None,
    }
}

/// The variant `serde_json::Value::Null`.
#[verifier::external_body]
pub(crate) fn null() -> (r: Value)
    ensures
        json_of(r) == Json::Null,
{
    Value::Null
}

/// `serde_json::Value::from` on a text: a string.
#[verifier::external_body]
pub(crate) fn text(s: &str) -> (r: Value)
    ensures
        json_of(r) == Json::Text(s@),
{
    Value::from(s)
}

/// `serde_json::Value::from` on an unsigned integer: a number.
#[verifier::external_body]
pub(crate) fn number(n: u64) -> (r: Value)
    ensures
        json_of(r) == integer(n as int),
{
    Value::from(n)
}

/// The variant `serde_json::Value::Array`.
#[verifier::external_body]
pub(crate) fn array(items: Vec<Value>) -> (r: Value)
    ensures
        json_of(r) == Json::Array(jsons_of(items@)),
{
    Value::Array(items)
}

/// The items of the variant `serde_json::Value::Array`, moved out of it.
#[verifier::external_body]
pub(crate) fn into_array(value: Value) -> (r: Option<Vec<Value>>)
    ensures
        match json_of(value) {
            Json::Array(items) => r is Some && jsons_of((r->0)@) == items,
            _ => r is None,
        },
{
    match value {
        Value::Array(items) => Some(items),
        _ => None,
    }
}

/// The variant `serde_json::Value::Object`.
#[verifier::external_body]
pub(crate) fn object(members: serde_json::Map<String, Value>) -> (r: Value)
    ensures
        json_of(r) == Json::Object(members_of(members)),
{
    Value::Object(members)
}

/// What `serde_json::from_slice` reads from bytes, where they are a JSON document.
pub uninterp spec fn parsed_bytes(bytes: Seq<u8>) -> Option<Json>;

/// `serde_json::from_slice`, whose result is named by [`parsed_bytes`].
#[verifier::external_body]
pub(crate) fn parse_bytes(bytes: &[u8]) -> (r: Option<Value>)
    ensures
        (match r {
            Some(value) => Some(json_of(value)),
            None => None,
        }) == parsed_bytes(bytes@),
{
    serde_json::from_slice(bytes).ok()
}

/// What `serde_json::from_str` reads from a text, where it is a JSON document.
pub uninterp spec fn parsed_text(text: Seq<char>) -> Option<Json>;

/// `serde_json::from_str`, whose result is named by [`parsed_text`].
#[verifier::external_body]
pub(crate) fn parse_text(text: &str) -> (r: Option<Value>)
    ensures
        (match r {
            Some(value) => Some(json_of(value)),
            None => None,
        }) == parsed_text(text@),
{
    serde_json::from_str(text).ok()
}

/// The text that `serde_json::to_string` writes for a document, where it writes one.
pub uninterp spec fn written_text(json: Json) -> Option<Seq<char>>;

/// `serde_json::to_string`, whose result is named by [`written_text`].
#[verifier::external_body]
pub(crate) fn write_text(value: &Value) -> (r: Option<String>)
    ensures
        (match r {
            Some(text) => Some(text@),
            None => None,
        }) == written_text(json_of(*value)),
{
    serde_json::to_string(value).ok()
}

/// The bytes that `serde_json::to_vec` writes for a document, where it writes any.
pub uninterp spec fn written_bytes(json: Json) -> Option<Seq<u8>>;

/// `serde_json::to_vec`, whose result is named by [`written_bytes`].
#[verifier::external_body]
pub(crate) fn write_bytes(value: &Value) -> (r: Option<Vec<u8>>)
    ensures
        (match r {
            Some(bytes) => Some(bytes@),
            None => None,
        }) == written_bytes(json_of(*value)),
{
    serde_json::to_vec(value).ok()
}

/// Sets one member of a document that is an object, and says whether it is one.
pub(crate) fn set_member(value: &mut Value, key: &str, json: Value) -> (r: bool)
    ensures
        r == (json_of(*old(value)) is Object),
        r ==> json_of(*final(value)) == with_member(json_of(*old(value)), key@, json_of(json)),
        !r ==> *final(value) == *old(value),
{
    match value.as_object_mut() {
        Some(object) => {
            object.insert(key.to_string(), json);
            true
        },
        None => false,
    }
}

} // verus!
