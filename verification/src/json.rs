//! JSON documents as plain values, read from JSON text and written as JSON
//! text.

use serde_json::Value;
use vstd::prelude::*;

verus! {

/// A JSON document.
#[derive(Debug, PartialEq, Eq)]
pub enum JsonValue {
    Null,
    Bool(bool),
    /// A whole number that is not negative.
    Unsigned(u64),
    /// A whole number; the parser gives the negative ones here.
    Negative(i64),
    /// Any other number, as the text that stands for it.
    Real(String),
    Text(String),
    Array(Vec<JsonValue>),
    /// The members of an object with their names, in order.
    Object(Vec<(String, JsonValue)>),
}

/// What a `JsonValue` holds.
pub enum Json {
    Null,
    Bool(bool),
    Unsigned(u64),
    Negative(i64),
    Real(Seq<char>),
    Text(Seq<char>),
    Array(Seq<Json>),
    Object(Seq<(Seq<char>, Json)>),
}

impl View for JsonValue {
    type V = Json;

    open spec fn view(&self) -> Json
        decreases self,
    {
        match self {
            JsonValue::Null => Json::Null,
            JsonValue::Bool(b) => Json::Bool(*b),
            JsonValue::Unsigned(n) => Json::Unsigned(*n),
            JsonValue::Negative(n) => Json::Negative(*n),
            JsonValue::Real(s) => Json::Real(s@),
            JsonValue::Text(s) => Json::Text(s@),
            JsonValue::Array(items) => Json::Array(
                Seq::new(
                    items.len() as nat,
                    |i: int|
                        if 0 <= i < items.len() {
                            items[i]@
                        } else {
                            Json::Null
                        },
                ),
            ),
            JsonValue::Object(members) => Json::Object(
                Seq::new(
                    members.len() as nat,
                    |i: int|
                        if 0 <= i < members.len() {
                            (members[i].0@, members[i].1@)
                        } else {
                            (Seq::empty(), Json::Null)
                        },
                ),
            ),
        }
    }
}

impl DeepView for JsonValue {
    type V = Json;

    open spec fn deep_view(&self) -> Json {
        self@
    }
}

/// An object holds its members' names and values, in order.
pub proof fn lemma_object_view(doc: JsonValue)
    requires
        doc is Object,
    ensures
        doc@ == Json::Object(doc->Object_0.deep_view()),
{
    let members = doc->Object_0;
    reveal_with_fuel(<JsonValue as View>::view, 2);
    assert forall|i: int| 0 <= i < members.len() implies doc@->Object_0[i]
        == members.deep_view()[i] by {
    }
    assert(doc@->Object_0 =~= members.deep_view());
}

/// An array holds its items, in order.
pub proof fn lemma_array_view(doc: JsonValue)
    requires
        doc is Array,
    ensures
        doc@ == Json::Array(doc->Array_0.deep_view()),
{
    let items = doc->Array_0;
    reveal_with_fuel(<JsonValue as View>::view, 2);
    assert forall|i: int| 0 <= i < items.len() implies doc@->Array_0[i] == items.deep_view()[i] by {
    }
    assert(doc@->Array_0 =~= items.deep_view());
}

/// Why a document could not be read. The variants that speak of a member
/// carry its name.
#[derive(Debug, Clone, PartialEq, Eq)]
pub enum JsonError {
    /// The bytes are no JSON text; the message is the parser's.
    Syntax(String),
    /// A number was given as text that is no JSON number.
    Number(String),
    /// An object was expected.
    NotAnObject,
    /// A member that must be there is not.
    MissingField(String),
    /// A member occurs more than once.
    DuplicateField(String),
    /// A member that takes no language tag carries one.
    UnexpectedLanguageTag(String),
    /// A member holds a value of the wrong kind.
    InvalidValue(String),
}

/// What a `JsonError` says, without the parser's own words.
pub enum JsonFault {
    Syntax,
    Number,
    NotAnObject,
    MissingField(Seq<char>),
    DuplicateField(Seq<char>),
    UnexpectedLanguageTag(Seq<char>),
    InvalidValue(Seq<char>),
}

impl View for JsonError {
    type V = JsonFault;

    open spec fn view(&self) -> JsonFault {
        match self {
            JsonError::Syntax(_) => JsonFault::Syntax,
            JsonError::Number(_) => JsonFault::Number,
            JsonError::NotAnObject => JsonFault::NotAnObject,
            JsonError::MissingField(name) => JsonFault::MissingField(name@),
            JsonError::DuplicateField(name) => JsonFault::DuplicateField(name@),
            JsonError::UnexpectedLanguageTag(name) => JsonFault::UnexpectedLanguageTag(name@),
            JsonError::InvalidValue(name) => JsonFault::InvalidValue(name@),
        }
    }
}

#[verifier::external_type_specification]
#[verifier::external_body]
pub struct ExSerdeValue(serde_json::Value);

#[verifier::external_type_specification]
#[verifier::external_body]
pub struct ExSerdeError(serde_json::Error);

/// The document that the JSON parser reads from `bytes`, where it accepts
/// them.
pub uninterp spec fn parsed_json(bytes: Seq<u8>) -> Option<Json>;

/// What a parsed value holds: its members, items and scalars.
pub uninterp spec fn value_content(value: serde_json::Value) -> Json;

/// The parser's value for a document, where one can be built. An object's
/// members are taken in order, a later one replacing an earlier one of the
/// same name.
pub uninterp spec fn built_value(doc: Json) -> Option<serde_json::Value>;

/// The compact JSON text of a value.
pub uninterp spec fn printed_value(value: serde_json::Value) -> Seq<u8>;

/// Whether a number kept as text occurs anywhere in the document.
pub open spec fn has_real(doc: Json) -> bool
    decreases doc,
{
    match doc {
        Json::Real(_) => true,
        Json::Array(items) => exists|i: int| 0 <= i < items.len() && has_real(#[trigger] items[i]),
        Json::Object(members) => exists|i: int|
            0 <= i < members.len() && has_real((#[trigger] members[i]).1),
        _ => false,
    }
}

/// The compact JSON text of a document, where it can be written.
pub open spec fn json_text(doc: Json) -> Option<Seq<u8>> {
    match built_value(doc) {
        Some(value) => Some(printed_value(value)),
        None => None,
    }
}

/// `serde_json::from_slice` at `serde_json::Value`: succeeds exactly on the
/// bytes that `parsed_json` knows, with a value of that content.
#[verifier::external_body]
fn parse_value(bytes: &[u8]) -> (r: Result<serde_json::Value, serde_json::Error>)
    ensures
        r is Ok <==> parsed_json(bytes@) is Some,
        r matches Ok(value) ==> parsed_json(bytes@) == Some(value_content(value)),
{
    serde_json::from_slice::<serde_json::Value>(bytes)
}

/// Copies a `serde_json::Value` into a `JsonValue`, variant by variant. A
/// number goes by `Number::as_u64`, then `Number::as_i64`, then its text.
#[verifier::external_body]
fn copy_value(value: &Value) -> (doc: JsonValue)
    ensures
        doc@ == value_content(*value),
{
    match value {
        Value::Null => JsonValue::Null,
        Value::Bool(b) => JsonValue::Bool(*b),
        Value::Number(n) => match (n.as_u64(), n.as_i64()) {
            (Some(u), _) => JsonValue::Unsigned(u),
            (_, Some(i)) => JsonValue::Negative(i),
            _ => JsonValue::Real(n.to_string()),
        },
        Value::String(s) => JsonValue::Text(s.clone()),
        Value::Array(a) => JsonValue::Array(a.iter().map(copy_value).collect()),
        Value::Object(m) => JsonValue::Object(
            m.iter().map(|(k, v)| (k.clone(), copy_value(v))).collect(),
        ),
    }
}

/// Builds a `Value` from a `JsonValue`, variant by variant. Only
/// a number kept as text can fail: it is read by `serde_json::from_str` at
/// `serde_json::Number`.
#[verifier::external_body]
fn build_value(doc: &JsonValue) -> (r: Result<Value, serde_json::Error>)
    ensures
        r is Ok <==> built_value(doc@) is Some,
        r matches Ok(value) ==> built_value(doc@) == Some(value),
        !has_real(doc@) ==> r is Ok,
{
    Ok(match doc {
        JsonValue::Null => Value::Null,
        JsonValue::Bool(b) => Value::Bool(*b),
        JsonValue::Unsigned(u) => Value::from(*u),
        JsonValue::Negative(i) => Value::from(*i),
        JsonValue::Real(s) => Value::Number(serde_json::from_str(s)?),
        JsonValue::Text(s) => Value::String(s.clone()),
        JsonValue::Array(a) => Value::Array(
            a.iter().map(build_value).collect::<Result<_, _>>()?,
        ),
        JsonValue::Object(m) => Value::Object(
            m.iter().map(|(k, v)| Ok((k.clone(), build_value(v)?))).collect::<Result<_, _>>()?,
        ),
    })
}

/// `serde_json::to_vec` on a `serde_json::Value`, which writes into memory
/// and cannot fail there.
#[verifier::external_body]
fn print_value(value: &serde_json::Value) -> (r: Result<Vec<u8>, serde_json::Error>)
    ensures
        r is Ok,
        r matches Ok(bytes) ==> bytes@ == printed_value(*value),
{
    serde_json::to_vec(value)
}

/// The words of a `serde_json::Error`, by its `to_string`.
#[verifier::external_body]
fn error_text(error: &serde_json::Error) -> String {
    error.to_string()
}

/// Reads a JSON document from bytes.
pub fn parse(bytes: &[u8]) -> (r: Result<JsonValue, JsonError>)
    ensures
        r matches Ok(doc) ==> parsed_json(bytes@) == Some(doc@),
        r matches Err(e) ==> parsed_json(bytes@) is None && e@ == JsonFault::Syntax,
{
    match parse_value(bytes) {
        Ok(value) => Ok(copy_value(&value)),
        Err(error) => Err(JsonError::Syntax(error_text(&error))),
    }
}

/// Writes a document as compact JSON text.
pub fn to_bytes(doc: &JsonValue) -> (r: Result<Vec<u8>, JsonError>)
    ensures
        r matches Ok(bytes) ==> json_text(doc@) == Some(bytes@),
        r matches Err(e) ==> json_text(doc@) is None && e@ == JsonFault::Number,
        !has_real(doc@) ==> r is Ok,
{
    match build_value(doc) {
        Ok(value) => match print_value(&value) {
            Ok(bytes) => Ok(bytes),
            Err(_) => vstd::pervasive::unreached(),
        },
        Err(error) => Err(JsonError::Number(error_text(&error))),
    }
}

} // verus!
