//! Reading the members of a JSON object.

use crate::json::{json_integer, json_items, json_member, json_text, member};
use vstd::prelude::*;

verus! {

/// The text under `key`: the member is there and is a string.
pub open spec fn text_member(value: serde_json::Value, key: Seq<char>) -> Option<Seq<char>> {
    match json_member(value, key) {
        Some(inner) => json_text(inner),
        None => None,
    }
}

/// The number under `key`: the member is there and is an integer that fits an
/// `i64`.
pub open spec fn integer_member(value: serde_json::Value, key: Seq<char>) -> Option<i64> {
    match json_member(value, key) {
        Some(inner) => json_integer(inner),
        None => None,
    }
}

/// The elements under `key`: the member is there and is an array.
pub open spec fn items_member(value: serde_json::Value, key: Seq<char>) -> Option<
    Seq<serde_json::Value>,
> {
    match json_member(value, key) {
        Some(inner) => json_items(inner),
        None => None,
    }
}

/// Reads the text under `key`.
pub fn text_field(value: &serde_json::Value, key: &str) -> (found: Option<String>)
    ensures
        match found {
            Some(text) => text_member(*value, key@) == Some(text@),
            None => text_member(*value, key@) is None,
        },
{
    match member(value, key) {
        Some(inner) => match inner.as_str() {
            Some(text) => Some(text.to_owned()),
            None => None,
        },
        None => None,
    }
}

/// Reads the number under `key`.
pub fn integer_field(value: &serde_json::Value, key: &str) -> (found: Option<i64>)
    ensures
        found == integer_member(*value, key@),
{
    match member(value, key) {
        Some(inner) => inner.as_i64(),
        None => None,
    }
}

/// Reads the elements under `key`, each one copied.
pub fn items_field(value: &serde_json::Value, key: &str) -> (found: Option<
    Vec<serde_json::Value>,
>)
    ensures
        match found {
            Some(items) => items_member(*value, key@) == Some(items@),
            None => items_member(*value, key@) is None,
        },
{
    let inner = match member(value, key) {
        Some(inner) => inner,
        None => {
            return None;
        },
    };
    let items = match inner.as_array() {
        Some(items) => items,
        None => {
            return None;
        },
    };
    let mut copies: Vec<serde_json::Value> = Vec::new();
    let mut i: usize = 0;
    while i < items.len()
        invariant
            i <= items.len(),
            copies@ == items@.take(i as int),
        decreases items.len() - i,
    {
        copies.push(items[i].clone());
        i += 1;
    }
    Some(copies)
}

} // verus!
