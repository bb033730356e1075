//! The boundary to `serde_json`.
//!
//! A parsed response is a `serde_json::Value`. Verus does not look inside one:
//! everything the decoders learn about a value they learn through the
//! observations named here, one for each `serde_json` function that is called.
//! The contracts in this file are taken on trust from the source of
//! `serde_json`; everything built on top of them is proved.

use vstd::prelude::*;

verus! {

/// `serde_json::Value`, a parsed JSON value. Nothing of its inside is known
/// here.
#[verifier::external_type_specification]
#[verifier::external_body]
pub struct ExValue(serde_json::Value);

/// `serde_json::Error`, what `serde_json::from_str` gives for a text that it
/// rejects. It is carried, never read.
#[verifier::external_type_specification]
#[verifier::external_body]
pub struct ExError(serde_json::Error);

/// The value that `serde_json::from_str` reads from `text`, or `None` where it
/// rejects the text.
pub uninterp spec fn json_document(text: Seq<char>) -> Option<serde_json::Value>;

/// The elements of `value` as `serde_json::Value::as_array` hands them out,
/// or `None` where `value` is not a JSON array.
pub uninterp spec fn json_items(value: serde_json::Value) -> Option<Seq<serde_json::Value>>;

/// The characters of `value` as `serde_json::Value::as_str` hands them out,
/// or `None` where `value` is not a JSON string.
pub uninterp spec fn json_text(value: serde_json::Value) -> Option<Seq<char>>;

/// The number that `serde_json::Value::as_i64` reads from `value`, or `None`
/// where `value` is not an integer that fits an `i64`.
pub uninterp spec fn json_integer(value: serde_json::Value) -> Option<i64>;

/// The member that `serde_json::Value::get` finds under `key`, or `None`
/// where `value` is not a JSON object or has no such member.
pub uninterp spec fn json_member(value: serde_json::Value, key: Seq<char>) -> Option<
    serde_json::Value,
>;

/// `serde_json::from_str` at the type `serde_json::Value`. Trusted: parsing
/// depends on the text alone, so the outcome is `json_document` of the text.
/// Nothing is claimed about which texts are accepted.
#[verifier::external_body]
pub(crate) fn parse_value(text: &str) -> (parsed: Result<serde_json::Value, serde_json::Error>)
    ensures
        match parsed {
            Ok(value) => json_document(text@) == Some(value),
            Err(_) => json_document(text@) is None,
        },
{
    serde_json::from_str::<serde_json::Value>(text)
}

/// `serde_json::Value::get` with a string key. Trusted: the outcome is
/// `json_member` of the value and the key; the call reads and changes nothing
/// else.
#[verifier::external_body]
pub(crate) fn member<'a>(value: &'a serde_json::Value, key: &str) -> (found: Option<
    &'a serde_json::Value,
>)
    ensures
        match found {
            Some(inner) => json_member(*value, key@) == Some(*inner),
            None => json_member(*value, key@) is None,
        },
{
    value.get(key)
}

/// `serde_json::Value::as_array`. Trusted: it returns the vector inside a JSON
/// array and `None` for every other value; `json_items` is the name of that
/// outcome.
pub assume_specification[ serde_json::Value::as_array ](value: &serde_json::Value) -> (found:
    Option<&Vec<serde_json::Value>>)
    ensures
        match found {
            Some(items) => json_items(*value) == Some(items@),
            None => json_items(*value) is None,
        },
;

/// `serde_json::Value::as_str`. Trusted: it returns the string inside a JSON
/// string and `None` for every other value; `json_text` is the name of that
/// outcome.
pub assume_specification[ serde_json::Value::as_str ](value: &serde_json::Value) -> (found:
    Option<&str>)
    ensures
        match found {
            Some(text) => json_text(*value) == Some(text@),
            None => json_text(*value) is None,
        },
;

/// `serde_json::Value::as_i64`. Trusted: it returns the number inside a JSON
/// integer that fits an `i64` and `None` for every other value;
/// `json_integer` is the name of that outcome.
pub assume_specification[ serde_json::Value::as_i64 ](value: &serde_json::Value) -> (found:
    Option<i64>)
    ensures
        found == json_integer(*value),
;

/// `clone` of `serde_json::Value`. Trusted: the copy is the same JSON value,
/// so whatever is observed of the one is observed of the other.
pub assume_specification[ <serde_json::Value as Clone>::clone ](
    value: &serde_json::Value,
) -> (copy: serde_json::Value)
    ensures
        copy == *value,
;

} // verus!
