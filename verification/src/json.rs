//! The JSON decoder that documents arrive through.
//!
//! Decoding is done by `serde_json`, and nothing in this module is proved.
//! A decoded value stays opaque: the rest of the crate learns what it holds
//! only through the four functions specified here, each of which is tied to
//! an uninterpreted function of the same meaning.

use vstd::prelude::*;

verus! {

/// `serde_json::Value`, a decoded JSON value. Its content is never looked at
/// directly.
#[verifier::external_type_specification]
#[verifier::external_body]
pub struct ExValue(serde_json::Value);

/// `serde_json::Error`, the reason a text was refused. It is only passed on.
#[verifier::external_type_specification]
#[verifier::external_body]
pub struct ExError(serde_json::Error);

/// The value that `text` denotes, or `None` when `text` is not accepted as
/// one JSON value.
pub uninterp spec fn json_value(text: Seq<char>) -> Option<serde_json::Value>;

/// The member that `value` holds under `key`, or `None` when `value` is not
/// an object or has no such member.
pub uninterp spec fn json_member(value: serde_json::Value, key: Seq<char>) -> Option<
    serde_json::Value,
>;

/// The elements of `value` in order, or `None` when `value` is not an array.
pub uninterp spec fn json_elements(value: serde_json::Value) -> Option<Seq<serde_json::Value>>;

/// The characters of `value`, or `None` when `value` is not a string.
pub uninterp spec fn json_string(value: serde_json::Value) -> Option<Seq<char>>;

/// Calls `serde_json::from_str` to decode one `Value`.
///
/// Assumed: whether the text is accepted, and the value it yields, depend on
/// the text alone. Nothing is assumed about which texts are accepted.
#[verifier::external_body]
pub(crate) fn parse(text: &str) -> (r: Result<serde_json::Value, serde_json::Error>)
    ensures
        match r {
            Ok(value) => json_value(text@) == Some(value),
            Err(_) => json_value(text@) is None,
        },
{
    serde_json::from_str(text)
}

/// Calls `serde_json::Value::get` with a string index.
///
/// Assumed: the result is the member stored under `key` when `value` is an
/// object that has one, and `None` otherwise.
#[verifier::external_body]
pub(crate) fn member<'a>(value: &'a serde_json::Value, key: &str) -> (r: Option<
    &'a serde_json::Value,
>)
    ensures
        match r {
            Some(found) => json_member(*value, key@) == Some(*found),
            None => json_member(*value, key@) is None,
        },
{
    value.get(key)
}

/// Assumed of `serde_json::Value::as_array`: it hands out the elements when
/// the value is an array, and `None` otherwise.
pub assume_specification<'a>[ serde_json::Value::as_array ](value: &'a serde_json::Value) -> (r:
    Option<&'a Vec<serde_json::Value>>)
    ensures
        match r {
            Some(elements) => json_elements(*value) == Some(elements@),
            None => json_elements(*value) is None,
        },
;

/// Assumed of `serde_json::Value::as_str`: it hands out the characters when
/// the value is a string, and `None` otherwise.
pub assume_specification<'a>[ serde_json::Value::as_str ](value: &'a serde_json::Value) -> (r:
    Option<&'a str>)
    ensures
        match r {
            Some(s) => json_string(*value) == Some(s@),
            None => json_string(*value) is None,
        },
;

} // verus!
