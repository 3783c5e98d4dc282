//! JSON documents, read with `serde_json`.

use vstd::prelude::*;

verus! {

/// `serde_json::Value`: a JSON value. Nothing is known of it but the tree
/// that it holds.
#[verifier::external_type_specification]
#[verifier::external_body]
pub struct ExJsonValue(serde_json::Value);

/// What a JSON value holds.
pub enum JsonTree {
    Null,
    Bool(bool),
    /// A number. It carries the number itself where the document wrote it as
    /// an integer between zero and 2^64 - 1, without fraction or exponent.
    Number(Option<u64>),
    Text(Seq<char>),
    List(Seq<JsonTree>),
    Record(Map<Seq<char>, JsonTree>),
}

/// What `serde_json` reads from the bytes: the document that they hold
/// where they are JSON, and else the message with which the parser fails.
pub uninterp spec fn json_document(bytes: Seq<u8>) -> Result<JsonTree, Seq<char>>;

/// What a value of `serde_json` holds.
pub uninterp spec fn json_tree(value: serde_json::Value) -> JsonTree;

/// The member of a record under `key`.
pub open spec fn member_of(tree: JsonTree, key: Seq<char>) -> Option<JsonTree> {
    match tree {
        JsonTree::Record(fields) => if fields.contains_key(key) {
            Some(fields[key])
        } else {
            None
        },
        _ => None,
    }
}

/// The text of a value that is a string.
pub open spec fn text_of(tree: JsonTree) -> Option<Seq<char>> {
    match tree {
        JsonTree::Text(t) => Some(t),
        _ => None,
    }
}

/// The number of a value that is an unsigned integer.
pub open spec fn unsigned_of(tree: JsonTree) -> Option<u64> {
    match tree {
        JsonTree::Number(n) => n,
        _ => None,
    }
}

/// The items of a value that is an array.
pub open spec fn items_of(tree: JsonTree) -> Option<Seq<JsonTree>> {
    match tree {
        JsonTree::List(items) => Some(items),
        _ => None,
    }
}

/// `Clone` for `serde_json::Value`: the copy holds the same tree.
pub assume_specification[ <serde_json::Value as Clone>::clone ](value: &serde_json::Value) -> (r:
    serde_json::Value)
    ensures
        json_tree(r) == json_tree(*value),
;

/// `serde_json::from_slice` into a `serde_json::Value`: the value of the
/// document that the bytes hold, or where they hold none the error, as the
/// message that it displays.
#[verifier::external_body]
pub(crate) fn parse_document(bytes: &[u8]) -> (r: Result<serde_json::Value, String>)
    ensures
        match r {
            Ok(value) => json_document(bytes@) == Ok::<JsonTree, Seq<char>>(json_tree(value)),
            Err(message) => json_document(bytes@) == Err::<JsonTree, Seq<char>>(message@),
        },
{
    match serde_json::from_slice::<serde_json::Value>(bytes) {
        Ok(value) => Ok(value),
        Err(e) => Err(e.to_string()),
    }
}

/// `serde_json::Value::get` with a string key: the member under the key
/// where the value is an object that has one, nothing otherwise.
#[verifier::external_body]
pub(crate) fn member<'a>(value: &'a serde_json::Value, key: &str) -> (r: Option<
    &'a serde_json::Value,
>)
    ensures
        match r {
            Some(m) => member_of(json_tree(*value), key@) == Some(json_tree(*m)),
            None => member_of(json_tree(*value), key@) is None,
        },
{
    value.get(key)
}

/// `serde_json::Value::as_str`: the text where the value is a string.
#[verifier::external_body]
pub(crate) fn as_text<'a>(value: &'a serde_json::Value) -> (r: Option<&'a str>)
    ensures
        match r {
            Some(s) => text_of(json_tree(*value)) == Some(s@),
            None => text_of(json_tree(*value)) is None,
        },
{
    value.as_str()
}

/// `serde_json::Value::as_u64`: the number where the value is an unsigned
/// integer of up to 64 bits.
#[verifier::external_body]
pub(crate) fn as_unsigned(value: &serde_json::Value) -> (r: Option<u64>)
    ensures
        r == unsigned_of(json_tree(*value)),
{
    value.as_u64()
}

/// `serde_json::Value::as_array`: the items, in order, where the value is an
/// array.
#[verifier::external_body]
pub(crate) fn as_items<'a>(value: &'a serde_json::Value) -> (r: Option<&'a Vec<serde_json::Value>>)
    ensures
        match r {
            Some(items) => items_of(json_tree(*value)) == Some(items@.map_values(|v| json_tree(v))),
            None => items_of(json_tree(*value)) is None,
        },
{
    value.as_array()
}

} // verus!
