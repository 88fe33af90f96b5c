//! The boundary to `serde_json`: inbound frames are parsed by that crate, and
//! the session logic reads the parsed tree through the functions below.
//!
//! Nothing here is proved. Each function makes one call into `serde_json`,
//! and its contract states what that call does in terms of `Json`, the
//! mathematical picture of a parsed value.

use vstd::prelude::*;

verus! {

#[verifier::external_type_specification]
#[verifier::external_body]
pub struct ExValue(serde_json::Value);

/// What a parsed JSON value holds.
///
/// A number is kept as the bit pattern of the 64-bit float that
/// `serde_json` reads it as. The members of an object are listed in the
/// order in which `serde_json` walks them; no two of them have the same key.
pub enum Json {
    Null,
    Bool(bool),
    Number(u64),
    Text(Seq<char>),
    Array(Seq<Json>),
    Object(Seq<(Seq<char>, Json)>),
}

impl Json {
    /// The member under `key`, or `Null` where there is none: where the value
    /// is no object, or the object has no such key.
    pub open spec fn member(self, key: Seq<char>) -> Json {
        match self {
            Json::Object(members) => first_with_key(members, key),
            _ => Json::Null,
        }
    }
}

/// The value of the first of `members` whose key is `key`; `Null` if there is
/// none.
pub open spec fn first_with_key(members: Seq<(Seq<char>, Json)>, key: Seq<char>) -> Json
    decreases members.len(),
{
    if members.len() == 0 {
        Json::Null
    } else if members[0].0 == key {
        members[0].1
    } else {
        first_with_key(members.drop_first(), key)
    }
}

/// What the value `value` holds.
pub uninterp spec fn json_value(value: serde_json::Value) -> Json;

/// What `serde_json` makes of the text `text`: the value it parses it to, or
/// `None` where it rejects the text.
pub uninterp spec fn json_document(text: Seq<char>) -> Option<Json>;

/// `serde_json::from_str`, with the reason of a failure dropped. The result
/// depends on the text alone: it is what `json_document` names.
#[verifier::external_body]
pub(crate) fn parse_document(text: &str) -> (parsed: Option<serde_json::Value>)
    ensures
        match parsed {
            Some(value) => json_document(text@) == Some(json_value(value)),
            None => json_document(text@) is None,
        },
{
    serde_json::from_str(text).ok()
}

/// Indexing a `serde_json::Value` with a string. The crate answers with the
/// member under that key, and with a null value where there is none.
#[verifier::external_body]
pub(crate) fn member<'a>(value: &'a serde_json::Value, key: &str) -> (found: &'a serde_json::Value)
    ensures
        json_value(*found) == json_value(*value).member(key@),
{
    &value[key]
}

/// `serde_json::Value::as_object`, followed by `serde_json::Map::iter`: the
/// members of an object in the order of the walk, and `None` for a value
/// that is no object.
#[verifier::external_body]
pub(crate) fn members<'a>(value: &'a serde_json::Value) -> (listed: Option<Vec<(&'a str, &'a serde_json::Value)>>)
    ensures
        match listed {
            Some(pairs) => json_value(*value) matches Json::Object(held) && pairs.len() == held.len()
                && forall|i: int| 0 <= i < held.len() ==> (#[trigger] pairs[i]).0@ == held[i].0
                    && json_value(*pairs[i].1) == held[i].1,
            None => !(json_value(*value) is Object),
        },
{
    value.as_object().map(|map| map.iter().map(|(key, held)| (key.as_str(), held)).collect())
}

/// `serde_json::Value::as_str`: the text of a string value, and `None` for
/// any other value.
#[verifier::external_body]
pub(crate) fn text<'a>(value: &'a serde_json::Value) -> (held: Option<&'a str>)
    ensures
        match held {
            Some(characters) => json_value(*value) == Json::Text(characters@),
            None => !(json_value(*value) is Text),
        },
{
    value.as_str()
}

/// `serde_json::Value::as_f64`, the float handed on as its bit pattern: the
/// number a numeric value holds, and `None` for any other value. The crate is
/// used without its `arbitrary_precision` feature, so that every number can
/// be read as a float.
#[verifier::external_body]
pub(crate) fn number(value: &serde_json::Value) -> (held: Option<u64>)
    ensures
        match held {
            Some(bits) => json_value(*value) == Json::Number(bits),
            None => !(json_value(*value) is Number),
        },
{
    value.as_f64().map(|float| float.to_bits())
}

} // verus!
