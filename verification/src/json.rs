//! The JSON objects that travel on the wire, as far as the relay reads them.
//!
//! The relay looks at flat objects only: a field is null, a boolean, an
//! integer, a string or a list of strings. Reading and writing JSON text is
//! left to `serde_json`; this module holds what came out of it, or goes into
//! it, as plain values.

use crate::text::{clone_texts, str_eq, texts};
use serde_json::Value;
use vstd::prelude::*;

verus! {

/// A JSON value of one of the kinds that the relay's messages are made of.
#[derive(Debug, Clone, PartialEq, Eq)]
pub enum JsonValue {
    Null,
    Bool(bool),
    Int(i64),
    Text(String),
    TextList(Vec<String>),
}

/// What a [`JsonValue`] holds.
pub enum JsonValueView {
    Null,
    Bool(bool),
    Int(i64),
    Text(Seq<char>),
    TextList(Seq<Seq<char>>),
}

impl View for JsonValue {
    type V = JsonValueView;

    open spec fn view(&self) -> JsonValueView {
        match self {
            JsonValue::Null => JsonValueView::Null,
            JsonValue::Bool(flag) => JsonValueView::Bool(*flag),
            JsonValue::Int(number) => JsonValueView::Int(*number),
            JsonValue::Text(text) => JsonValueView::Text(text@),
            JsonValue::TextList(items) => JsonValueView::TextList(texts(items@)),
        }
    }
}

/// A field of an object that is to be written.
#[derive(Debug, Clone, PartialEq, Eq)]
pub struct JsonField {
    pub name: String,
    pub value: JsonValue,
}

/// What a [`JsonField`] holds.
pub struct JsonFieldView {
    pub name: Seq<char>,
    pub value: JsonValueView,
}

impl View for JsonField {
    type V = JsonFieldView;

    open spec fn view(&self) -> JsonFieldView {
        JsonFieldView { name: self.name@, value: self.value@ }
    }
}

/// A field of an object that was read. The value is `None` where the text held
/// something of another kind: a fraction, an integer beyond 64 signed bits, a
/// nested object, or a list with anything but strings in it.
#[derive(Debug, Clone, PartialEq, Eq)]
pub struct ParsedField {
    pub name: String,
    pub value: Option<JsonValue>,
}

/// What a [`ParsedField`] holds.
pub struct ParsedFieldView {
    pub name: Seq<char>,
    pub value: Option<JsonValueView>,
}

impl View for ParsedField {
    type V = ParsedFieldView;

    open spec fn view(&self) -> ParsedFieldView {
        ParsedFieldView {
            name: self.name@,
            value: match self.value {
                Some(value) => Some(value@),
                None => None,
            },
        }
    }
}

/// What a list of fields to be written holds.
pub open spec fn fields_view(fields: Seq<JsonField>) -> Seq<JsonFieldView> {
    fields.map_values(|field: JsonField| field@)
}

/// What a list of fields that were read holds.
pub open spec fn parsed_view(fields: Seq<ParsedField>) -> Seq<ParsedFieldView> {
    fields.map_values(|field: ParsedField| field@)
}

/// The fields as they are read back once written: every value is of a known kind.
pub open spec fn as_parsed(fields: Seq<JsonFieldView>) -> Seq<ParsedFieldView> {
    fields.map_values(|field: JsonFieldView| ParsedFieldView { name: field.name, value: Some(field.value) })
}

/// The fields of the JSON object that a text holds, as `serde_json` reads it;
/// `None` for a text that is not one JSON object.
pub uninterp spec fn json_fields_of(text: Seq<char>) -> Option<Seq<ParsedFieldView>>;

/// The compact JSON text that `serde_json` writes for an object of the given fields.
pub uninterp spec fn json_text_of(fields: Seq<JsonFieldView>) -> Seq<char>;

/// `serde_json::from_str` at the type `Map<String, Value>`, each value handed out
/// by its variant: the fields of the object that the text holds, or `None` where
/// the text is not one JSON object.
#[verifier::external_body]
pub(crate) fn read_object(text: &str) -> (fields: Option<Vec<ParsedField>>)
    ensures
        fields is Some <==> json_fields_of(text@) is Some,
        fields is Some ==> parsed_view(fields->0@) == json_fields_of(text@)->0,
{
    let object: serde_json::Map<String, Value> = serde_json::from_str(text).ok()?;
    Some(object.into_iter().map(|(name, value)| ParsedField { name, value: match value {
        Value::Null => Some(JsonValue::Null),
        Value::Bool(flag) => Some(JsonValue::Bool(flag)),
        Value::Number(number) => number.as_i64().map(JsonValue::Int),
        Value::String(text) => Some(JsonValue::Text(text)),
        Value::Array(items) => items.into_iter().map(|item| match item {
            Value::String(text) => Some(text),
            _ => None,
        }).collect::<Option<Vec<String>>>().map(JsonValue::TextList),
        Value::Object(_) => None,
    } }).collect())
}

/// `Value::to_string` on an object built from the fields: its compact JSON text.
#[verifier::external_body]
pub(crate) fn write_object(fields: &Vec<JsonField>) -> (text: String)
    ensures
        text@ == json_text_of(fields_view(fields@)),
{
    let mut object = serde_json::Map::new();
    for field in fields {
        object.insert(field.name.clone(), match &field.value {
            JsonValue::Null => Value::Null,
            JsonValue::Bool(flag) => Value::Bool(*flag),
            JsonValue::Int(number) => Value::from(*number),
            JsonValue::Text(text) => Value::String(text.clone()),
            JsonValue::TextList(items) => Value::Array(items.iter().cloned().map(Value::String).collect()),
        });
    }
    Value::Object(object).to_string()
}

/// The value of the first field of the given name at or after a position.
pub open spec fn lookup_from(fields: Seq<ParsedFieldView>, name: Seq<char>, start: int) -> Option<
    Option<JsonValueView>,
>
    decreases fields.len() - start,
{
    if start < 0 || start >= fields.len() {
        None
    } else if fields[start].name == name {
        Some(fields[start].value)
    } else {
        lookup_from(fields, name, start + 1)
    }
}

/// The value of the first field of the given name: `None` where no field has
/// the name, `Some(None)` where the field's value is of no known kind.
pub open spec fn lookup(fields: Seq<ParsedFieldView>, name: Seq<char>) -> Option<Option<JsonValueView>> {
    lookup_from(fields, name, 0)
}

/// The string in the field of the given name, where there is one.
pub open spec fn text_of(fields: Seq<ParsedFieldView>, name: Seq<char>) -> Option<Seq<char>> {
    match lookup(fields, name) {
        Some(Some(JsonValueView::Text(text))) => Some(text),
        _ => None,
    }
}

/// The boolean in the field of the given name, where there is one.
pub open spec fn flag_of(fields: Seq<ParsedFieldView>, name: Seq<char>) -> Option<bool> {
    match lookup(fields, name) {
        Some(Some(JsonValueView::Bool(flag))) => Some(flag),
        _ => None,
    }
}

/// The integer in the field of the given name, where there is one.
pub open spec fn int_of(fields: Seq<ParsedFieldView>, name: Seq<char>) -> Option<i64> {
    match lookup(fields, name) {
        Some(Some(JsonValueView::Int(number))) => Some(number),
        _ => None,
    }
}

/// The list of strings in the field of the given name, where there is one.
pub open spec fn list_of(fields: Seq<ParsedFieldView>, name: Seq<char>) -> Option<Seq<Seq<char>>> {
    match lookup(fields, name) {
        Some(Some(JsonValueView::TextList(items))) => Some(items),
        _ => None,
    }
}

/// The string in an optional field: nothing where the field is absent or null,
/// and no answer (`None`) where it holds anything but a string.
pub open spec fn optional_text_of(fields: Seq<ParsedFieldView>, name: Seq<char>) -> Option<Option<Seq<char>>> {
    match lookup(fields, name) {
        None => Some(None),
        Some(Some(JsonValueView::Null)) => Some(None),
        Some(Some(JsonValueView::Text(text))) => Some(Some(text)),
        _ => None,
    }
}

/// The integer in an optional field: nothing where the field is absent or null,
/// and no answer (`None`) where it holds anything but an integer.
pub open spec fn optional_int_of(fields: Seq<ParsedFieldView>, name: Seq<char>) -> Option<Option<i64>> {
    match lookup(fields, name) {
        None => Some(None),
        Some(Some(JsonValueView::Null)) => Some(None),
        Some(Some(JsonValueView::Int(number))) => Some(Some(number)),
        _ => None,
    }
}

/// Finds the first field of the given name.
pub fn find_field<'a>(fields: &'a Vec<ParsedField>, name: &str) -> (found: Option<&'a ParsedField>)
    ensures
        found is Some <==> lookup(parsed_view(fields@), name@) is Some,
        found is Some ==> lookup(parsed_view(fields@), name@) == Some(found->0@.value),
{
    let ghost all = parsed_view(fields@);
    let mut i: usize = 0;
    while i < fields.len()
        invariant
            i <= fields.len(),
            all == parsed_view(fields@),
            lookup(all, name@) == lookup_from(all, name@, i as int),
        decreases fields.len() - i,
    {
        proof {
            assert(all[i as int] == fields@[i as int]@);
        }
        if str_eq(fields[i].name.as_str(), name) {
            return Some(&fields[i]);
        }
        i += 1;
    }
    None
}

/// Reads a required string field.
pub fn text_field(fields: &Vec<ParsedField>, name: &str) -> (found: Option<String>)
    ensures
        match found {
            Some(text) => text_of(parsed_view(fields@), name@) == Some(text@),
            None => text_of(parsed_view(fields@), name@) is None,
        },
{
    match find_field(fields, name) {
        Some(field) => match &field.value {
            Some(JsonValue::Text(text)) => Some(text.clone()),
            _ => None,
        },
        None => None,
    }
}

/// Reads a required boolean field.
pub fn flag_field(fields: &Vec<ParsedField>, name: &str) -> (found: Option<bool>)
    ensures
        found == flag_of(parsed_view(fields@), name@),
{
    match find_field(fields, name) {
        Some(field) => match &field.value {
            Some(JsonValue::Bool(flag)) => Some(*flag),
            _ => None,
        },
        None => None,
    }
}

/// Reads a required integer field.
pub fn int_field(fields: &Vec<ParsedField>, name: &str) -> (found: Option<i64>)
    ensures
        found == int_of(parsed_view(fields@), name@),
{
    match find_field(fields, name) {
        Some(field) => match &field.value {
            Some(JsonValue::Int(number)) => Some(*number),
            _ => None,
        },
        None => None,
    }
}

/// Reads a required field that holds a list of strings.
pub fn list_field(fields: &Vec<ParsedField>, name: &str) -> (found: Option<Vec<String>>)
    ensures
        match found {
            Some(items) => list_of(parsed_view(fields@), name@) == Some(texts(items@)),
            None => list_of(parsed_view(fields@), name@) is None,
        },
{
    match find_field(fields, name) {
        Some(field) => match &field.value {
            Some(JsonValue::TextList(items)) => Some(clone_texts(items)),
            _ => None,
        },
        None => None,
    }
}

/// Reads an optional string field; `Err` where the field holds anything but a
/// string or null.
pub fn optional_text_field(fields: &Vec<ParsedField>, name: &str) -> (found: Result<Option<String>, ()>)
    ensures
        match found {
            Ok(Some(text)) => optional_text_of(parsed_view(fields@), name@) == Some(Some(text@)),
            Ok(None) => optional_text_of(parsed_view(fields@), name@) == Some(None::<Seq<char>>),
            Err(_) => optional_text_of(parsed_view(fields@), name@) is None,
        },
{
    match find_field(fields, name) {
        Some(field) => match &field.value {
            Some(JsonValue::Text(text)) => Ok(Some(text.clone())),
            Some(JsonValue::Null) => Ok(None),
            _ => Err(()),
        },
        None => Ok(None),
    }
}

/// Reads an optional integer field; `Err` where the field holds anything but an
/// integer or null.
pub fn optional_int_field(fields: &Vec<ParsedField>, name: &str) -> (found: Result<Option<i64>, ()>)
    ensures
        match found {
            Ok(number) => optional_int_of(parsed_view(fields@), name@) == Some(number),
            Err(_) => optional_int_of(parsed_view(fields@), name@) is None,
        },
{
    match find_field(fields, name) {
        Some(field) => match &field.value {
            Some(JsonValue::Int(number)) => Ok(Some(*number)),
            Some(JsonValue::Null) => Ok(None),
            _ => Err(()),
        },
        None => Ok(None),
    }
}

/// A field that holds a string.
pub fn text_entry(name: &str, text: &str) -> (field: JsonField)
    ensures
        field@ == (JsonFieldView { name: name@, value: JsonValueView::Text(text@) }),
{
    JsonField { name: name.to_owned(), value: JsonValue::Text(text.to_owned()) }
}

/// A field that holds a boolean.
pub fn flag_entry(name: &str, flag: bool) -> (field: JsonField)
    ensures
        field@ == (JsonFieldView { name: name@, value: JsonValueView::Bool(flag) }),
{
    JsonField { name: name.to_owned(), value: JsonValue::Bool(flag) }
}

/// A field that holds an integer.
pub fn int_entry(name: &str, number: i64) -> (field: JsonField)
    ensures
        field@ == (JsonFieldView { name: name@, value: JsonValueView::Int(number) }),
{
    JsonField { name: name.to_owned(), value: JsonValue::Int(number) }
}

/// A field that holds a list of strings.
pub fn list_entry(name: &str, items: &Vec<String>) -> (field: JsonField)
    ensures
        field@ == (JsonFieldView { name: name@, value: JsonValueView::TextList(texts(items@)) }),
{
    JsonField { name: name.to_owned(), value: JsonValue::TextList(clone_texts(items)) }
}

/// The value that an optional string is written as: null where there is none.
pub open spec fn optional_text_value(text: Option<Seq<char>>) -> JsonValueView {
    match text {
        Some(text) => JsonValueView::Text(text),
        None => JsonValueView::Null,
    }
}

/// The value that an optional integer is written as: null where there is none.
pub open spec fn optional_int_value(number: Option<i64>) -> JsonValueView {
    match number {
        Some(number) => JsonValueView::Int(number),
        None => JsonValueView::Null,
    }
}

/// A field that holds a string, or null where there is none.
pub fn optional_text_entry(name: &str, text: &Option<String>) -> (field: JsonField)
    ensures
        field@ == (JsonFieldView {
            name: name@,
            value: optional_text_value(
                match text {
                    Some(text) => Some(text@),
                    None => None,
                },
            ),
        }),
{
    match text {
        Some(text) => JsonField { name: name.to_owned(), value: JsonValue::Text(text.clone()) },
        None => JsonField { name: name.to_owned(), value: JsonValue::Null },
    }
}

/// A field that holds an integer, or null where there is none.
pub fn optional_int_entry(name: &str, number: Option<i64>) -> (field: JsonField)
    ensures
        field@ == (JsonFieldView { name: name@, value: optional_int_value(number) }),
{
    match number {
        Some(number) => JsonField { name: name.to_owned(), value: JsonValue::Int(number) },
        None => JsonField { name: name.to_owned(), value: JsonValue::Null },
    }
}

} // verus!
