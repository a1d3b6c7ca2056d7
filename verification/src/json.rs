//! JSON documents as plain values.
//!
//! Bodies received from a bridge are parsed by `serde_json`; the result is
//! carried over into [`JsonValue`], on which the rest of the library works.

use crate::error::HueStatusError;
use crate::string_map::{find, lookup};
use vstd::prelude::*;
use vstd::string::*;

verus! {

/// A JSON number: a non-negative integer, a negative integer, or any other
/// number, which is kept as its decimal text.
#[derive(Debug, Clone, PartialEq, Eq)]
pub enum JsonNumber {
    /// An integer from zero to `u64::MAX`.
    Unsigned(u64),
    /// An integer below zero.
    Negative(i64),
    /// A number with a fraction or an exponent, as text.
    Decimal(String),
}

/// A JSON document.
#[derive(Debug, PartialEq, Eq)]
pub enum JsonValue {
    Null,
    Bool(bool),
    Number(JsonNumber),
    String(String),
    Array(Vec<JsonValue>),
    /// An object: its members with their keys, no key twice.
    Object(Vec<(String, JsonValue)>),
}

/// Why a text is not a JSON document of the expected shape.
#[derive(Debug, Clone, PartialEq, Eq)]
pub struct JsonFailure {
    /// Whether the text is not syntactically valid JSON.
    pub syntax: bool,
    /// The parser's description of the failure.
    pub message: String,
}

/// Declares `serde_json::Value`, the document type of `serde_json`, so that
/// it can stand in the signatures of the functions below. Nothing is
/// claimed of it.
#[verifier::external_type_specification]
#[verifier::external_body]
pub struct ExJsonDocument(serde_json::Value);

/// Declares `serde_json::Number`, the number type of `serde_json`, so that
/// it can stand in the signatures of the functions below. Nothing is
/// claimed of it.
#[verifier::external_type_specification]
#[verifier::external_body]
pub struct ExJsonDocumentNumber(serde_json::Number);

/// What `serde_json::from_str` makes of `text` when asked for a
/// `serde_json::Value`, carried over into the library's types.
pub uninterp spec fn json_document(text: Seq<char>) -> Result<JsonValue, JsonFailure>;

/// What `serde_json::from_str` makes of `text` when asked for a
/// `Vec<serde_json::Value>`, carried over into the library's types.
pub uninterp spec fn json_array_document(text: Seq<char>) -> Result<Vec<JsonValue>, JsonFailure>;

/// Carries a `serde_json::Number` over: `as_u64` and `as_i64` tell the
/// integers apart, and any other number is kept as the text that its
/// `Display` prints.
#[verifier::external_body]
fn number_from_serde(number: &serde_json::Number) -> JsonNumber {
    match (number.as_u64(), number.as_i64()) {
        (Some(n), _) => JsonNumber::Unsigned(n),
        (None, Some(n)) => JsonNumber::Negative(n),
        (None, None) => JsonNumber::Decimal(number.to_string()),
    }
}

/// Carries a `serde_json::Value` over, variant by variant. The entries of
/// an object come in the order in which `serde_json::Map::iter` yields them.
#[verifier::external_body]
fn value_from_serde(value: &serde_json::Value) -> JsonValue {
    match value {
        serde_json::Value::Null => JsonValue::Null,
        serde_json::Value::Bool(b) => JsonValue::Bool(*b),
        serde_json::Value::Number(n) => JsonValue::Number(number_from_serde(n)),
        serde_json::Value::String(s) => JsonValue::String(s.clone()),
        serde_json::Value::Array(items) => JsonValue::Array(items.iter().map(value_from_serde).collect()),
        serde_json::Value::Object(map) => JsonValue::Object(
            map.iter().map(|(k, v)| (k.clone(), value_from_serde(v))).collect(),
        ),
    }
}

/// Calls `serde_json::from_str::<serde_json::Value>`. The contract names
/// the result and claims nothing more: the same text always gives the same
/// document or the same failure.
#[verifier::external_body]
fn parse_document(text: &str) -> (parsed: Result<JsonValue, JsonFailure>)
    ensures
        parsed == json_document(text@),
{
    match serde_json::from_str::<serde_json::Value>(text) {
        Ok(value) => Ok(value_from_serde(&value)),
        Err(e) => Err(JsonFailure { syntax: e.is_syntax(), message: e.to_string() }),
    }
}

/// Calls `serde_json::from_str::<Vec<serde_json::Value>>`. The contract
/// names the result and claims nothing more.
#[verifier::external_body]
fn parse_array_document(text: &str) -> (parsed: Result<Vec<JsonValue>, JsonFailure>)
    ensures
        parsed == json_array_document(text@),
{
    match serde_json::from_str::<Vec<serde_json::Value>>(text) {
        Ok(items) => Ok(items.iter().map(value_from_serde).collect()),
        Err(e) => Err(JsonFailure { syntax: e.is_syntax(), message: e.to_string() }),
    }
}

impl JsonValue {
    /// The member `key` of an object; nothing for any other value.
    pub open spec fn member(&self, key: Seq<char>) -> Option<JsonValue> {
        match self {
            JsonValue::Object(members) => lookup(members@, key),
            _ => None,
        }
    }

    /// The text of a string; nothing for any other value.
    pub open spec fn text(&self) -> Option<Seq<char>> {
        match self {
            JsonValue::String(s) => Some(s@),
            _ => None,
        }
    }

    /// The string member `key` of an object.
    pub open spec fn text_member(&self, key: Seq<char>) -> Option<Seq<char>> {
        match self.member(key) {
            Some(v) => v.text(),
            None => None,
        }
    }

    /// The value of a non-negative integer; nothing for any other value.
    pub open spec fn unsigned(&self) -> Option<u64> {
        match self {
            JsonValue::Number(JsonNumber::Unsigned(n)) => Some(*n),
            _ => None,
        }
    }

    /// The elements of an array; nothing for any other value.
    pub open spec fn elements(&self) -> Option<Seq<JsonValue>> {
        match self {
            JsonValue::Array(items) => Some(items@),
            _ => None,
        }
    }

    /// Parses a JSON document.
    pub fn parse(text: &str) -> (parsed: Result<JsonValue, JsonFailure>)
        ensures
            parsed == json_document(text@),
    {
        parse_document(text)
    }

    /// Parses a JSON document that must be an array, and returns its elements.
    pub fn parse_array(text: &str) -> (parsed: Result<Vec<JsonValue>, JsonFailure>)
        ensures
            parsed == json_array_document(text@),
    {
        parse_array_document(text)
    }

    /// The member `key` of an object.
    pub fn get(&self, key: &str) -> (found: Option<&JsonValue>)
        ensures
            match found {
                Some(v) => self.member(key@) == Some(*v),
                None => self.member(key@) is None,
            },
    {
        match self {
            JsonValue::Object(members) => find(members, key),
            _ => None,
        }
    }

    /// The text of a string.
    pub fn as_str(&self) -> (found: Option<&str>)
        ensures
            match found {
                Some(s) => self.text() == Some(s@),
                None => self.text() is None,
            },
    {
        match self {
            JsonValue::String(s) => Some(s.as_str()),
            _ => None,
        }
    }

    /// A copy of the string member `key` of an object.
    pub fn string_member(&self, key: &str) -> (found: Option<String>)
        ensures
            match found {
                Some(s) => self.text_member(key@) == Some(s@),
                None => self.text_member(key@) is None,
            },
    {
        match self.get(key) {
            Some(v) => match v.as_str() {
                Some(s) => Some(String::from_str(s)),
                None => None,
            },
            None => None,
        }
    }

    /// The value of a non-negative integer.
    pub fn as_u64(&self) -> (found: Option<u64>)
        ensures
            found == self.unsigned(),
    {
        match self {
            JsonValue::Number(JsonNumber::Unsigned(n)) => Some(*n),
            _ => None,
        }
    }

    /// The elements of an array.
    pub fn as_array(&self) -> (found: Option<&Vec<JsonValue>>)
        ensures
            match found {
                Some(items) => self.elements() == Some(items@),
                None => self.elements() is None,
            },
    {
        match self {
            JsonValue::Array(items) => Some(items),
            _ => None,
        }
    }
}

/// What [`json_error`] makes of a decoding failure.
pub open spec fn json_failure(failure: JsonFailure) -> crate::error::ErrorView {
    if failure.syntax {
        crate::error::ErrorView::ConfigCorrupted
    } else {
        crate::error::ErrorView::JsonError { source: failure.message@ }
    }
}

/// Classifies a failure to decode a configuration document: text that is
/// not JSON at all means a corrupted file.
pub fn json_error(failure: JsonFailure) -> (error: HueStatusError)
    ensures
        error@ == json_failure(failure),
{
    if failure.syntax {
        HueStatusError::ConfigCorrupted
    } else {
        HueStatusError::JsonError { source: failure.message }
    }
}

} // verus!
