//! JSON, as far as this crate reads it.  The trees are serde_json's; what
//! stands here says what they hold and how they are asked.

use vstd::prelude::*;
use vstd::string::*;

verus! {

/// `serde_json::Value`, a JSON tree.
#[verifier::external_type_specification]
#[verifier::external_body]
pub struct ExJsonValue(serde_json::Value);

/// `serde_json::Error`, the reason why a text is no JSON.
#[verifier::external_type_specification]
#[verifier::external_body]
pub struct ExJsonError(serde_json::Error);

/// What a JSON tree holds.
pub enum Json {
    Null,
    Bool(bool),
    /// A number, with its value where it is a whole number in the range of
    /// `i64`.
    Number(Option<i64>),
    Text(Seq<char>),
    List(Seq<Json>),
    Object(Map<Seq<char>, Json>),
}

/// What the tree `value` holds.  Nothing is known of it but what the
/// contracts below say of the functions that ask a tree.
pub uninterp spec fn json(value: serde_json::Value) -> Json;

/// What the tree holds that the text `text` writes down, where it writes
/// one down.  Nothing is known of it but that [`parse`] returns it.
pub uninterp spec fn json_of(text: Seq<char>) -> Option<Json>;

/// The text of a JSON string; no other tree has one.
pub open spec fn text_of(tree: Json) -> Option<Seq<char>> {
    match tree {
        Json::Text(text) => Some(text),
        _ => None,
    }
}

/// The value of a JSON number that is a whole number in the range of `i64`;
/// no other tree has one.
pub open spec fn integer_of(tree: Json) -> Option<i64> {
    match tree {
        Json::Number(integer) => integer,
        _ => None,
    }
}

/// The items of a JSON array; no other tree has any.
pub open spec fn items_of(tree: Json) -> Option<Seq<Json>> {
    match tree {
        Json::List(items) => Some(items),
        _ => None,
    }
}

/// The member `name` of a JSON object that has one; no other tree has
/// members.
pub open spec fn member_of(tree: Json, name: Seq<char>) -> Option<Json> {
    match tree {
        Json::Object(members) => if members.contains_key(name) {
            Some(members[name])
        } else {
            None
        },
        _ => None,
    }
}

/// The text of the member `name` of `tree`, where `tree` is an object that
/// has that member and the member is a string.
pub open spec fn text_member(tree: Json, name: Seq<char>) -> Option<Seq<char>> {
    match member_of(tree, name) {
        Some(found) => text_of(found),
        None => None,
    }
}

/// The whole number that is the member `name` of `tree`.
pub open spec fn integer_member(tree: Json, name: Seq<char>) -> Option<i64> {
    match member_of(tree, name) {
        Some(found) => integer_of(found),
        None => None,
    }
}

/// What each tree of a list holds.
pub open spec fn jsons(values: Seq<serde_json::Value>) -> Seq<Json> {
    values.map_values(|value: serde_json::Value| json(value))
}

/// `serde_json::from_str`, asked for a `Value`: the tree that `text` writes
/// down, or the reason why it writes none.  The tree depends on the text
/// alone; the contract names what it holds [`json_of`].
#[verifier::external_body]
pub(crate) fn parse(text: &str) -> (parsed: Result<serde_json::Value, serde_json::Error>)
    ensures
        match parsed {
            Ok(value) => json_of(text@) == Some(json(value)),
            Err(_) => json_of(text@) is None,
        },
{
    serde_json::from_str::<serde_json::Value>(text)
}

/// `serde_json::Value::get` with the name of a member: the member of that
/// name where the tree is an object that has one, and `None` for every
/// other tree and every other name.
#[verifier::external_body]
pub(crate) fn member<'a>(value: &'a serde_json::Value, name: &str) -> (found: Option<
    &'a serde_json::Value,
>)
    ensures
        match found {
            Some(tree) => member_of(json(*value), name@) == Some(json(*tree)),
            None => member_of(json(*value), name@) is None,
        },
{
    value.get(name)
}

/// `serde_json::Value::as_str`: the text of a tree that is a JSON string,
/// and `None` for every other tree.
pub assume_specification[ serde_json::Value::as_str ](value: &serde_json::Value) -> (text: Option<
    &str,
>)
    ensures
        match text {
            Some(s) => text_of(json(*value)) == Some(s@),
            None => text_of(json(*value)) is None,
        },
;

/// `serde_json::Value::as_i64`: the value of a tree that is a whole number
/// in the range of `i64`, and `None` for every other tree.
pub assume_specification[ serde_json::Value::as_i64 ](value: &serde_json::Value) -> (integer:
    Option<i64>)
    ensures
        integer == integer_of(json(*value)),
;

/// `serde_json::Value::as_array`: the items of a tree that is a JSON array,
/// in their order, and `None` for every other tree.
pub assume_specification[ serde_json::Value::as_array ](value: &serde_json::Value) -> (items:
    Option<&Vec<serde_json::Value>>)
    ensures
        match items {
            Some(list) => items_of(json(*value)) == Some(jsons(list@)),
            None => items_of(json(*value)) is None,
        },
;

/// The text of the member `name` of `value`.
pub(crate) fn text_at(value: &serde_json::Value, name: &str) -> (text: Option<String>)
    ensures
        match text {
            Some(s) => text_member(json(*value), name@) == Some(s@),
            None => text_member(json(*value), name@) is None,
        },
{
    match member(value, name) {
        Some(found) => match found.as_str() {
            Some(text) => Some(text.to_owned()),
            None => None,
        },
        None => None,
    }
}

/// The whole number that is the member `name` of `value`.
pub(crate) fn integer_at(value: &serde_json::Value, name: &str) -> (integer: Option<i64>)
    ensures
        integer == integer_member(json(*value), name@),
{
    match member(value, name) {
        Some(found) => found.as_i64(),
        None => None,
    }
}

} // verus!
