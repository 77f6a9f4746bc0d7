//! What this crate takes on trust from `reqwest` and `serde_json`.
//!
//! Nothing in this file is proved. Each item says in its comment which
//! outside function it stands for and what is claimed of it; the rest of the
//! crate is verified against these claims.

use crate::header::header_bytes_ok;
use crate::json::{Json, JsonView};
use reqwest::header::{HeaderValue, InvalidHeaderValue};
use reqwest::Error as TransportError;
use serde_json::Error as JsonError;
use serde_json::Value;
use vstd::prelude::*;
use vstd::utf8::encode_utf8;

verus! {

#[verifier::external_type_specification]
#[verifier::external_body]
pub struct ExHeaderValue(reqwest::header::HeaderValue);

#[verifier::external_type_specification]
#[verifier::external_body]
pub struct ExInvalidHeaderValue(reqwest::header::InvalidHeaderValue);

/// `reqwest::Error`, under the name it is imported by.
#[verifier::external_type_specification]
#[verifier::external_body]
pub struct ExTransportError(TransportError);

/// `serde_json::Error`, under the name it is imported by.
#[verifier::external_type_specification]
#[verifier::external_body]
pub struct ExJsonError(JsonError);

#[verifier::external_type_specification]
#[verifier::external_body]
pub struct ExValue(serde_json::Value);

/// The document that a `serde_json::Value` holds. A number counts with its
/// value where `Number::as_u64` gives one, and as `Number(None)` where it
/// gives none; an object counts as the map from its names to its members.
pub uninterp spec fn value_model(value: Value) -> JsonView;

/// What `serde_json::from_str` makes of a text: the document that the text
/// denotes, or `None` where the text is not JSON.
pub uninterp spec fn json_parse(text: Seq<char>) -> Option<JsonView>;

/// The text that `serde_json::to_string` writes for a document.
pub uninterp spec fn json_text(document: JsonView) -> Seq<char>;

/// What a `reqwest::Error` prints of itself.
pub uninterp spec fn transport_error_words(error: TransportError) -> Seq<char>;

/// What a `serde_json::Error` prints of itself.
pub uninterp spec fn json_error_words(error: JsonError) -> Seq<char>;

/// `reqwest::header::HeaderValue::from_str`: the text is taken as a header
/// value exactly when none of the bytes of its UTF-8 encoding is a control
/// character other than the horizontal tab. Nothing is claimed of the value
/// or of the error that comes back.
#[verifier::external_body]
pub(crate) fn parse_header_value(text: &str) -> (parsed: Result<HeaderValue, InvalidHeaderValue>)
    ensures
        parsed is Ok <==> header_bytes_ok(encode_utf8(text@)),
{
    HeaderValue::from_str(text)
}

/// What `reqwest::header::InvalidHeaderValue` prints of itself: one fixed
/// sentence, whatever the rejected text was.
#[verifier::external_body]
pub(crate) fn header_error_text(error: &InvalidHeaderValue) -> (text: String)
    ensures
        text@ == "failed to parse header value"@,
{
    error.to_string()
}

/// `Display` of `reqwest::Error`: the text depends on the error alone and
/// is the one named by [`transport_error_words`].
#[verifier::external_body]
pub(crate) fn transport_error_text(error: &TransportError) -> (text: String)
    ensures
        text@ == transport_error_words(*error),
{
    error.to_string()
}

/// `Display` of `serde_json::Error`: the text depends on the error alone
/// and is the one named by [`json_error_words`].
#[verifier::external_body]
pub(crate) fn json_error_text(error: &JsonError) -> (text: String)
    ensures
        text@ == json_error_words(*error),
{
    error.to_string()
}

/// `serde_json::from_str` at the type `serde_json::Value`. The outcome
/// depends on the text alone: a value that holds the document named by
/// [`json_parse`], or an error where there is none.
#[verifier::external_body]
pub(crate) fn parse_value(text: &str) -> (parsed: Result<Value, JsonError>)
    ensures
        parsed matches Ok(value) ==> json_parse(text@) == Some(value_model(value)),
        parsed is Err ==> json_parse(text@) is None,
{
    serde_json::from_str::<Value>(text)
}

/// Copies a `serde_json::Value` into a [`Json`], variant by variant: a
/// number through `Number::as_u64`, the members of an object in the order
/// in which `Map::iter` hands them out.
#[verifier::external_body]
pub(crate) fn value_to_json(value: &Value) -> (document: Json)
    ensures
        document@ == value_model(*value),
{
    match value {
        Value::Null => Json::Null,
        Value::Bool(b) => Json::Bool(*b),
        Value::Number(n) => Json::Number(n.as_u64()),
        Value::String(s) => Json::String(s.clone()),
        Value::Array(items) => Json::Array(items.iter().map(value_to_json).collect()),
        Value::Object(members) => Json::Object(
            members.iter().map(|(name, member)| (name.clone(), value_to_json(member))).collect(),
        ),
    }
}

/// Copies a [`Json`] into a `serde_json::Value`, variant by variant: a
/// number through `Value::from`, the members of an object through
/// `Map::insert` in their order, so that a later member replaces an earlier
/// one of the same name. A number without a value can only stand in a
/// member that a later one replaces; `null` is put in its place until then.
#[verifier::external_body]
pub(crate) fn json_to_value(document: &Json) -> (value: Value)
    requires
        document@.writable(),
    ensures
        value_model(value) == document@,
{
    match document {
        Json::Null => Value::Null,
        Json::Bool(b) => Value::Bool(*b),
        Json::Number(n) => n.map_or(Value::Null, Value::from),
        Json::String(s) => Value::String(s.clone()),
        Json::Array(items) => Value::Array(items.iter().map(json_to_value).collect()),
        Json::Object(members) => {
            let mut map = serde_json::Map::new();
            for (name, member) in members {
                map.insert(name.clone(), json_to_value(member));
            }
            Value::Object(map)
        },
    }
}

/// `serde_json::to_string` on a `serde_json::Value`. It succeeds: the one
/// way in which writing a `Value` fails is an error of the writer, which
/// here is a buffer in memory, and the names of members are strings. The
/// text depends on the document alone and is the one named by
/// [`json_text`]. This leans on the map of an object being kept sorted by
/// name, as `serde_json` does unless asked to preserve the order of
/// insertion.
#[verifier::external_body]
pub(crate) fn value_to_text(value: &Value) -> (written: Result<String, JsonError>)
    requires
        value_model(*value).writable(),
    ensures
        written is Ok,
        written matches Ok(text) ==> text@ == json_text(value_model(*value)),
{
    serde_json::to_string(value)
}

} // verus!
