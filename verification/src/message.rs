//! The command envelope: reading a raw message into the plain values that
//! the dispatcher decides on.

use vstd::prelude::*;
use vstd::string::*;
use crate::error::{DispatchError, DispatchErrorView};
use crate::json::{
    as_strings, as_text, as_u64, error_text, json_error_text, json_member, json_parse,
    json_strings, json_text, json_u64, member, parse,
};
use crate::prefs::optional_text;
use crate::url::optional_texts;

verus! {

/// IPC message structure for synchronous messages: the operation asked
/// for, and the payload fields that an operation may read.
#[derive(Debug, PartialEq, Eq)]
pub struct SynchronousMessage {
    /// The name of the operation.
    pub operation: String,
    /// The argument vector to replay in a new window.
    pub argv: Option<Vec<String>>,
    /// The width asked for a new window, in pixels.
    pub width: Option<u32>,
    /// The height asked for a new window, in pixels.
    pub height: Option<u32>,
    /// The title asked for a new window.
    pub title: Option<String>,
}

/// What a message holds, with each text as a sequence of characters.
pub struct MessageView {
    pub operation: Seq<char>,
    pub argv: Option<Seq<Seq<char>>>,
    pub width: Option<u32>,
    pub height: Option<u32>,
    pub title: Option<Seq<char>>,
}

impl View for SynchronousMessage {
    type V = MessageView;

    open spec fn view(&self) -> MessageView {
        MessageView {
            operation: self.operation@,
            argv: optional_texts(self.argv),
            width: self.width,
            height: self.height,
            title: optional_text(self.title),
        }
    }
}

/// The low 32 bits of a number: what is kept of a size that a message gives.
pub open spec fn low_u32(n: u64) -> u32 {
    (n % 0x1_0000_0000) as u32
}

/// The text under `key`, if the document has a string there.
pub open spec fn text_field(doc: serde_json::Value, key: Seq<char>) -> Option<Seq<char>> {
    match json_member(doc, key) {
        Some(value) => json_text(value),
        None => None,
    }
}

/// The size under `key`, if the document has a non-negative integer there.
pub open spec fn size_field(doc: serde_json::Value, key: Seq<char>) -> Option<u32> {
    match json_member(doc, key) {
        Some(value) => match json_u64(value) {
            Some(n) => Some(low_u32(n)),
            None => None,
        },
        None => None,
    }
}

/// The strings under `key`, if the document has an array of strings there.
pub open spec fn strings_field(doc: serde_json::Value, key: Seq<char>) -> Option<Seq<Seq<char>>> {
    match json_member(doc, key) {
        Some(value) => json_strings(value),
        None => None,
    }
}

/// What is reported of a document that has no `operation` member.
pub open spec fn missing_operation() -> Seq<char> {
    "missing field `operation`"@
}

/// What is reported of a document whose `operation` member is not a string.
pub open spec fn operation_not_text() -> Seq<char> {
    "field `operation` is not a string"@
}

/// The message that a parsed document carries. A payload field of the wrong
/// kind counts as absent; only the operation is required.
pub open spec fn message_of(doc: serde_json::Value) -> Result<MessageView, DispatchErrorView> {
    match json_member(doc, "operation"@) {
        None => Err(DispatchErrorView::InvalidMessage { detail: missing_operation() }),
        Some(value) => match json_text(value) {
            None => Err(DispatchErrorView::InvalidMessage { detail: operation_not_text() }),
            Some(operation) => Ok(
                MessageView {
                    operation,
                    argv: strings_field(doc, "argv"@),
                    width: size_field(doc, "width"@),
                    height: size_field(doc, "height"@),
                    title: text_field(doc, "title"@),
                },
            ),
        },
    }
}

/// The message that a raw text carries, or why it carries none.
pub open spec fn decoded(text: Seq<char>) -> Result<MessageView, DispatchErrorView> {
    match json_parse(text) {
        Err(error) => Err(DispatchErrorView::InvalidMessage { detail: json_error_text(error) }),
        Ok(doc) => message_of(doc),
    }
}

/// What the result of decoding holds.
pub open spec fn decoding_view(r: Result<SynchronousMessage, DispatchError>) -> Result<
    MessageView,
    DispatchErrorView,
> {
    match r {
        Ok(message) => Ok(message@),
        Err(error) => Err(error@),
    }
}

/// Keeps the low 32 bits of a number.
pub fn truncate_to_u32(n: u64) -> (r: u32)
    ensures
        r == low_u32(n),
{
    let low: u64 = n % 0x1_0000_0000;
    low as u32
}

/// Reads the text under `key`.
fn read_text(doc: &serde_json::Value, key: &str) -> (r: Option<String>)
    ensures
        optional_text(r) == text_field(*doc, key@),
{
    match member(doc, key) {
        Some(value) => as_text(value),
        None => None,
    }
}

/// Reads the size under `key`.
fn read_size(doc: &serde_json::Value, key: &str) -> (r: Option<u32>)
    ensures
        r == size_field(*doc, key@),
{
    match member(doc, key) {
        Some(value) => match as_u64(value) {
            Some(n) => Some(truncate_to_u32(n)),
            None => None,
        },
        None => None,
    }
}

/// Reads the strings under `key`.
fn read_strings(doc: &serde_json::Value, key: &str) -> (r: Option<Vec<String>>)
    ensures
        optional_texts(r) == strings_field(*doc, key@),
{
    match member(doc, key) {
        Some(value) => as_strings(value),
        None => None,
    }
}

/// Reads the message that a parsed document carries.
pub fn read_message(doc: &serde_json::Value) -> (r: Result<SynchronousMessage, DispatchError>)
    ensures
        decoding_view(r) == message_of(*doc),
{
    match member(doc, "operation") {
        None => Err(
            DispatchError::InvalidMessage { detail: String::from_str("missing field `operation`") },
        ),
        Some(value) => match as_text(value) {
            None => Err(
                DispatchError::InvalidMessage {
                    detail: String::from_str("field `operation` is not a string"),
                },
            ),
            Some(operation) => Ok(
                SynchronousMessage {
                    operation,
                    argv: read_strings(doc, "argv"),
                    width: read_size(doc, "width"),
                    height: read_size(doc, "height"),
                    title: read_text(doc, "title"),
                },
            ),
        },
    }
}

/// Reports a failure to parse as an invalid message, in the parser's words.
pub fn invalid_message(error: &serde_json::Error) -> (r: DispatchError)
    ensures
        r@ == (DispatchErrorView::InvalidMessage { detail: json_error_text(*error) }),
{
    DispatchError::InvalidMessage { detail: error_text(error) }
}

/// Decodes a raw message: it must be a JSON document with a string under
/// `operation`; `argv`, `width`, `height` and `title` are read where they
/// have the right kind of value.
pub fn decode_message(message: &str) -> (r: Result<SynchronousMessage, DispatchError>)
    ensures
        decoding_view(r) == decoded(message@),
{
    match parse(message) {
        Err(error) => Err(invalid_message(&error)),
        Ok(doc) => read_message(&doc),
    }
}

} // verus!
