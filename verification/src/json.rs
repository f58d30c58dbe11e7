//! JSON payloads, as `serde_json` reads them.

use vstd::prelude::*;

verus! {

/// `serde_json::Value`, taken as it is: nothing is read from inside it but
/// through the functions below.
#[verifier::external_type_specification]
#[verifier::external_body]
pub struct ExJsonValue(serde_json::Value);

/// The shape of a JSON value. A number's magnitude is left out: nothing here reads it.
pub enum JsonTree {
    Null,
    Bool(bool),
    Number,
    Text(Seq<char>),
    Array(Seq<JsonTree>),
    Object(Map<Seq<char>, JsonTree>),
}

/// What a parsed value holds.
pub uninterp spec fn json_tree(value: serde_json::Value) -> JsonTree;

/// What `serde_json` makes of a text: the value that the text denotes, or
/// nothing where the text is not one JSON value.
pub uninterp spec fn parsed_json(text: Seq<char>) -> Option<JsonTree>;

/// What lossy UTF-8 decoding makes of a run of bytes.
pub uninterp spec fn utf8_lossy_text(bytes: Seq<u8>) -> Seq<char>;

/// `String::from_utf8_lossy`: the bytes read as UTF-8, each ill-formed
/// sequence replaced by U+FFFD. The result depends on the bytes alone.
#[verifier::external_body]
pub(crate) fn utf8_lossy(bytes: &[u8]) -> (text: String)
    ensures
        text@ == utf8_lossy_text(bytes@),
{
    String::from_utf8_lossy(bytes).into_owned()
}

/// `serde_json::from_str` at type `Value`: the parsed value where the text
/// is one JSON value, nothing otherwise. The result depends on the text alone.
#[verifier::external_body]
pub(crate) fn parse_value(text: &str) -> (parsed: Option<serde_json::Value>)
    ensures
        match parsed {
            Some(value) => parsed_json(text@) == Some(json_tree(value)),
            None => parsed_json(text@) is None,
        },
{
    serde_json::from_str::<serde_json::Value>(text).ok()
}

/// `Value::get` with a string index: the member under `key` where the value
/// is an object that has one, nothing otherwise.
#[verifier::external_body]
pub(crate) fn value_member<'a>(value: &'a serde_json::Value, key: &str) -> (found: Option<&'a serde_json::Value>)
    ensures
        match json_tree(*value) {
            JsonTree::Object(members) => if members.contains_key(key@) {
                found matches Some(member) && json_tree(*member) == members[key@]
            } else {
                found is None
            },
            _ => found is None,
        },
{
    value.get(key)
}

/// `Value::as_str`: the string where the value is one, nothing otherwise.
#[verifier::external_body]
pub(crate) fn value_text<'a>(value: &'a serde_json::Value) -> (found: Option<&'a str>)
    ensures
        match json_tree(*value) {
            JsonTree::Text(text) => found matches Some(s) && s@ == text,
            _ => found is None,
        },
{
    value.as_str()
}

/// `Value::as_array`: the elements, in order, where the value is an array,
/// nothing otherwise.
#[verifier::external_body]
pub(crate) fn value_items<'a>(value: &'a serde_json::Value) -> (found: Option<&'a Vec<serde_json::Value>>)
    ensures
        match json_tree(*value) {
            JsonTree::Array(items) => found matches Some(elements) && elements@.len() == items.len() && forall|i: int|
                0 <= i < items.len() ==> json_tree(#[trigger] elements@[i]) == items[i],
            _ => found is None,
        },
{
    value.as_array()
}

} // verus!
