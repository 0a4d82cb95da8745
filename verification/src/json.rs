//! The JSON services this crate takes from `serde_json`.
//!
//! Nothing in this file is proved. Each function below makes one call into
//! `serde_json`, and its contract gives the outcome of that call a name, so
//! that the verified code can say exactly what it does with that outcome.

use vstd::prelude::*;
use crate::text::texts;

verus! {

/// A parsed JSON value, as `serde_json` holds it. Its contents are reached
/// only through the functions of this file.
#[verifier::external_type_specification]
#[verifier::external_body]
pub struct ExValue(serde_json::Value);

/// The error that `serde_json` reports when parsing or serializing fails.
#[verifier::external_type_specification]
#[verifier::external_body]
pub struct ExError(serde_json::Error);

/// What `serde_json::from_str` makes of `text` when asked for a `Value`:
/// the parsed value, or the error that says why `text` is not JSON.
pub uninterp spec fn json_parse(text: Seq<char>) -> Result<serde_json::Value, serde_json::Error>;

/// What `Value::get` finds under `key`: the member of that name if `doc` is
/// an object that has one, nothing otherwise.
pub uninterp spec fn json_member(doc: serde_json::Value, key: Seq<char>) -> Option<serde_json::Value>;

/// What `Value::as_str` returns: the text of a JSON string, nothing for any
/// other kind of value.
pub uninterp spec fn json_text(value: serde_json::Value) -> Option<Seq<char>>;

/// What `Value::as_u64` returns: the number if `value` is a JSON number that
/// `serde_json` holds as an unsigned integer, nothing otherwise.
pub uninterp spec fn json_u64(value: serde_json::Value) -> Option<u64>;

/// What `serde_json::from_value` returns when asked for a `Vec<String>`: the
/// texts of an array whose elements are all strings, nothing otherwise.
pub uninterp spec fn json_strings(value: serde_json::Value) -> Option<Seq<Seq<char>>>;

/// The message that a `serde_json::Error` displays.
pub uninterp spec fn json_error_text(error: serde_json::Error) -> Seq<char>;

/// What `serde_json::to_string` writes for a list of strings, or nothing if
/// it reports an error.
pub uninterp spec fn json_of_strings(list: Seq<Seq<char>>) -> Option<Seq<char>>;

/// What `serde_json::to_string` writes for a single string, or nothing if it
/// reports an error.
pub uninterp spec fn json_of_string(text: Seq<char>) -> Option<Seq<char>>;

/// Calls `serde_json::from_str` for a `Value`. The result is exactly the
/// named outcome for this text, be it a value or an error.
#[verifier::external_body]
pub(crate) fn parse(text: &str) -> (r: Result<serde_json::Value, serde_json::Error>)
    ensures
        r == json_parse(text@),
{
    serde_json::from_str::<serde_json::Value>(text)
}

/// Calls `Value::get` with a string key. The result is the named member.
#[verifier::external_body]
pub(crate) fn member<'a>(doc: &'a serde_json::Value, key: &str) -> (r: Option<&'a serde_json::Value>)
    ensures
        match r {
            Some(found) => json_member(*doc, key@) == Some(*found),
            None => json_member(*doc, key@) is None,
        },
{
    doc.get(key)
}

/// Calls `Value::as_str` and copies the text out. The result is the named text.
#[verifier::external_body]
pub(crate) fn as_text(value: &serde_json::Value) -> (r: Option<String>)
    ensures
        match r {
            Some(text) => json_text(*value) == Some(text@),
            None => json_text(*value) is None,
        },
{
    value.as_str().map(String::from)
}

/// Calls `Value::as_u64`. The result is the named number.
#[verifier::external_body]
pub(crate) fn as_u64(value: &serde_json::Value) -> (r: Option<u64>)
    ensures
        r == json_u64(*value),
{
    value.as_u64()
}

/// Calls `serde_json::from_value` for a `Vec<String>` on a copy of `value`.
/// The result holds the named texts; the error, if any, is dropped.
#[verifier::external_body]
pub(crate) fn as_strings(value: &serde_json::Value) -> (r: Option<Vec<String>>)
    ensures
        match r {
            Some(list) => json_strings(*value) == Some(texts(list@)),
            None => json_strings(*value) is None,
        },
{
    serde_json::from_value::<Vec<String>>(value.clone()).ok()
}

/// Calls `to_string` on a `serde_json::Error`. The result is its named message.
#[verifier::external_body]
pub(crate) fn error_text(error: &serde_json::Error) -> (r: String)
    ensures
        r@ == json_error_text(*error),
{
    error.to_string()
}

/// Calls `serde_json::to_string` on a list of strings. The result is the
/// named text, or the error when the named outcome is a failure.
#[verifier::external_body]
pub(crate) fn strings_to_json(list: &Vec<String>) -> (r: Result<String, serde_json::Error>)
    ensures
        match r {
            Ok(text) => json_of_strings(texts(list@)) == Some(text@),
            Err(_) => json_of_strings(texts(list@)) is None,
        },
{
    serde_json::to_string(list)
}

/// Calls `serde_json::to_string` on a single string. The result is the
/// named text, or the error when the named outcome is a failure.
#[verifier::external_body]
pub(crate) fn string_to_json(text: &str) -> (r: Result<String, serde_json::Error>)
    ensures
        match r {
            Ok(encoded) => json_of_string(text@) == Some(encoded@),
            Err(_) => json_of_string(text@) is None,
        },
{
    serde_json::to_string(text)
}

} // verus!
