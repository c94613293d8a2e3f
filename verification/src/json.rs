//! JSON as the bridge holds it.
//!
//! The bridge never looks inside a message. It needs to know that some bytes
//! are JSON, and it needs the same value back as text without layout. A
//! [`JsonValue`] is therefore held as its compact text, the form in which it
//! travels to the child and back to the caller. Reading and writing JSON is
//! `serde_json`'s work; the two functions at the end of this file are the only
//! places where it is called, and their contracts are taken on trust.

use vstd::prelude::*;
use vstd::slice::slice_to_vec;

verus! {

/// What `serde_json::from_slice::<serde_json::Value>` makes of `bytes`.
///
/// `Ok(text)`: the bytes are one JSON value, and `text` is that value as
/// `serde_json` prints it in compact form. `Err(message)`: the bytes are
/// refused, and `message` is the error as `serde_json` displays it. Nothing
/// more is assumed of either.
pub uninterp spec fn json_decode(bytes: Seq<u8>) -> Result<Seq<u8>, Seq<char>>;

/// The compact text that `serde_json` prints for an object with the single
/// member `key`, whose value is the string `value`.
pub uninterp spec fn json_member(key: Seq<char>, value: Seq<char>) -> Seq<u8>;

/// One JSON value, held as its compact text.
#[derive(Debug, Clone, PartialEq, Eq)]
pub struct JsonValue {
    text: Vec<u8>,
}

impl View for JsonValue {
    type V = Seq<u8>;

    closed spec fn view(&self) -> Seq<u8> {
        self.text@
    }
}

/// The outcome of [`JsonValue::parse`] in the terms of [`json_decode`].
pub open spec fn parsed(outcome: Result<JsonValue, String>) -> Result<Seq<u8>, Seq<char>> {
    match outcome {
        Ok(value) => Ok(value@),
        Err(message) => Err(message@),
    }
}

impl JsonValue {
    /// Reads `bytes` as one JSON value. Succeeds exactly on the bytes that
    /// `serde_json` takes for JSON; otherwise returns the decoder's message.
    pub fn parse(bytes: &[u8]) -> (outcome: Result<JsonValue, String>)
        ensures
            parsed(outcome) == json_decode(bytes@),
    {
        match decode_compact(bytes) {
            Ok(text) => Ok(JsonValue { text }),
            Err(message) => Err(message),
        }
    }

    /// The object with the single member `key`, whose value is the string
    /// `value`.
    pub fn member(key: &str, value: &str) -> (object: JsonValue)
        ensures
            object@ == json_member(key@, value@),
    {
        JsonValue { text: print_member(key, value) }
    }

    /// The value's compact text.
    pub fn as_bytes(&self) -> (text: &[u8])
        ensures
            text@ == self@,
    {
        self.text.as_slice()
    }

    /// A copy of the value's compact text.
    pub fn to_bytes(&self) -> (text: Vec<u8>)
        ensures
            text@ == self@,
    {
        slice_to_vec(self.text.as_slice())
    }

    /// Gives up the value for its compact text.
    pub fn into_bytes(self) -> (text: Vec<u8>)
        ensures
            text@ == self@,
    {
        self.text
    }
}

/// Calls `serde_json::from_slice` for a `serde_json::Value`. On success the
/// value is handed back as the text that its `Display` impl prints, which is
/// `serde_json`'s compact form; on failure the error is handed back as the
/// text that its `Display` impl prints. The contract claims only that this
/// outcome depends on the bytes alone.
#[verifier::external_body]
fn decode_compact(bytes: &[u8]) -> (outcome: Result<Vec<u8>, String>)
    ensures
        match outcome {
            Ok(text) => json_decode(bytes@) == Ok::<Seq<u8>, Seq<char>>(text@),
            Err(message) => json_decode(bytes@) == Err::<Seq<u8>, Seq<char>>(message@),
        },
{
    match serde_json::from_slice::<serde_json::Value>(bytes) {
        Ok(value) => Ok(value.to_string().into_bytes()),
        Err(error) => Err(error.to_string()),
    }
}

/// Builds a `serde_json::Map` with the one entry `key` and
/// `serde_json::Value::String(value)`, and hands back the text that the
/// `Display` impl of `serde_json::Value` prints for that object. The contract
/// claims only that this text depends on the two strings alone.
#[verifier::external_body]
fn print_member(key: &str, value: &str) -> (text: Vec<u8>)
    ensures
        text@ == json_member(key@, value@),
{
    let mut object = serde_json::Map::new();
    object.insert(key.to_owned(), serde_json::Value::String(value.to_owned()));
    serde_json::Value::Object(object).to_string().into_bytes()
}

} // verus!
