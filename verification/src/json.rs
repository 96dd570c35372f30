//! JSON values as `serde_json` parses them, and what the verified code may
//! take for granted of them.
//!
//! A `serde_json::Value` is opaque to the verifier. [`json_model`] names the
//! tree that such a value holds, and each function below is described by what
//! it reads from that tree. None of these descriptions is proved: they restate
//! `serde_json`'s own code.

use vstd::prelude::*;

verus! {

/// One member of a JSON object.
pub struct Member {
    pub name: Seq<char>,
    pub value: Json,
}

/// A JSON value. The members of an object stand in the order in which
/// `serde_json`'s map walks them; no name occurs twice.
pub enum Json {
    Null,
    Bool(bool),
    Number,
    Text(Seq<char>),
    Array(Seq<Json>),
    Object(Seq<Member>),
}

/// The value of the first member called `name`.
pub open spec fn find_member(members: Seq<Member>, name: Seq<char>) -> Option<Json>
    decreases members.len(),
{
    if members.len() == 0 {
        None
    } else if members[0].name == name {
        Some(members[0].value)
    } else {
        find_member(members.drop_first(), name)
    }
}

impl Json {
    /// The member `name` of an object; nothing for any other value.
    pub open spec fn member(self, name: Seq<char>) -> Option<Json> {
        match self {
            Json::Object(members) => find_member(members, name),
            _ => None,
        }
    }

    /// The value of the member that an object's map walks first.
    pub open spec fn first_member(self) -> Option<Json> {
        match self {
            Json::Object(members) => if members.len() > 0 {
                Some(members[0].value)
            } else {
                None
            },
            _ => None,
        }
    }
}

#[verifier::external_type_specification]
#[verifier::external_body]
pub struct ExJsonValue(serde_json::Value);

/// The tree that a `serde_json::Value` holds.
pub uninterp spec fn json_model(value: serde_json::Value) -> Json;

/// What `serde_json::from_slice` makes of a text: the tree it parses to, or
/// nothing where it rejects the text.
pub uninterp spec fn json_parse(bytes: Seq<u8>) -> Option<Json>;

/// `serde_json::from_slice`, read as a `serde_json::Value`, with the error
/// dropped. The result is a function of the bytes alone, named by
/// [`json_parse`].
#[verifier::external_body]
pub(crate) fn parse_json(bytes: &[u8]) -> (parsed: Option<serde_json::Value>)
    ensures
        match parsed {
            Some(value) => json_parse(bytes@) == Some(json_model(value)),
            None => json_parse(bytes@) is None,
        },
{
    serde_json::from_slice::<serde_json::Value>(bytes).ok()
}

/// `serde_json::Value::get` with a string index: the member of that name where
/// the value is an object that has one, else nothing.
#[verifier::external_body]
pub(crate) fn json_member<'a>(value: &'a serde_json::Value, name: &str) -> (found: Option<
    &'a serde_json::Value,
>)
    ensures
        match found {
            Some(member) => json_model(*value).member(name@) == Some(json_model(*member)),
            None => json_model(*value).member(name@) is None,
        },
{
    value.get(name)
}

/// `serde_json::Value::as_object`, then the first value that
/// `serde_json::Map::values` yields: nothing where the value is no object or
/// the object is empty.
#[verifier::external_body]
pub(crate) fn json_first_member(value: &serde_json::Value) -> (first: Option<&serde_json::Value>)
    ensures
        match first {
            Some(member) => json_model(*value).first_member() == Some(json_model(*member)),
            None => json_model(*value).first_member() is None,
        },
{
    value.as_object().and_then(|members| members.values().next())
}

/// The truth value of a JSON boolean; nothing for any other value.
pub assume_specification[ serde_json::Value::as_bool ](value: &serde_json::Value) -> (flag: Option<
    bool,
>)
    ensures
        flag == (match json_model(*value) {
            Json::Bool(b) => Some(b),
            _ => None,
        }),
;

/// The text of a JSON string; nothing for any other value.
pub assume_specification[ serde_json::Value::as_str ](value: &serde_json::Value) -> (text: Option<
    &str,
>)
    ensures
        match text {
            Some(s) => json_model(*value) == Json::Text(s@),
            None => !(json_model(*value) is Text),
        },
;

/// The elements of a JSON array, in order; nothing for any other value.
pub assume_specification[ serde_json::Value::as_array ](value: &serde_json::Value) -> (items:
    Option<&Vec<serde_json::Value>>)
    ensures
        match items {
            Some(list) => json_model(*value) == Json::Array(
                Seq::new(list@.len(), |i: int| json_model(list@[i])),
            ),
            None => !(json_model(*value) is Array),
        },
;

} // verus!
