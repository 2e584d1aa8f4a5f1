//! JSON documents as plain data.
//!
//! Reading JSON with comments and writing JSON are left to `jsonc_parser` and
//! `serde_json`; what lies between is done on the tree defined here.

use vstd::prelude::*;

verus! {

/// `serde_json::Number`, a JSON number, carried through as an opaque value.
#[verifier::external_type_specification]
#[verifier::external_body]
pub struct ExJsonNumber(serde_json::Number);

/// `serde_json::Value`, carried through as an opaque value.
#[verifier::external_type_specification]
#[verifier::external_body]
pub struct ExSerdeValue(serde_json::Value);

/// `serde_json::Error`, carried through as an opaque value.
#[verifier::external_type_specification]
#[verifier::external_body]
pub struct ExSerdeError(serde_json::Error);

/// `jsonc_parser::errors::ParseError`, carried through as an opaque value.
#[verifier::external_type_specification]
#[verifier::external_body]
pub struct ExJsoncError(jsonc_parser::errors::ParseError);

/// A JSON value.
#[derive(Debug)]
pub enum JsonValue {
    Null,
    Bool(bool),
    Number(serde_json::Number),
    String(String),
    Array(Vec<JsonValue>),
    Object(Vec<JsonMember>),
}

/// One member of a JSON object.
#[derive(Debug)]
pub struct JsonMember {
    pub key: String,
    pub value: JsonValue,
}

/// A JSON value as a mathematical tree: strings are character sequences,
/// arrays are sequences, objects are sequences of keyed members.
pub enum JsonModel {
    Null,
    Bool(bool),
    Number(serde_json::Number),
    Text(Seq<char>),
    Array(Seq<JsonModel>),
    Object(Seq<(Seq<char>, JsonModel)>),
}

impl JsonValue {
    /// The tree that this value stands for.
    pub open spec fn model(&self) -> JsonModel
        decreases self,
    {
        match self {
            JsonValue::Null => JsonModel::Null,
            JsonValue::Bool(b) => JsonModel::Bool(*b),
            JsonValue::Number(n) => JsonModel::Number(*n),
            JsonValue::String(s) => JsonModel::Text(s@),
            JsonValue::Array(items) => JsonModel::Array(
                Seq::new(
                    items@.len(),
                    |i: int|
                        if 0 <= i < items@.len() {
                            items@[i].model()
                        } else {
                            JsonModel::Null
                        },
                ),
            ),
            JsonValue::Object(members) => JsonModel::Object(
                Seq::new(
                    members@.len(),
                    |i: int|
                        if 0 <= i < members@.len() {
                            (members@[i].key@, members@[i].value.model())
                        } else {
                            (Seq::empty(), JsonModel::Null)
                        },
                ),
            ),
        }
    }
}

impl View for JsonValue {
    type V = JsonModel;

    open spec fn view(&self) -> JsonModel {
        self.model()
    }
}

/// The trees of a sequence of values, position by position.
pub open spec fn models_of(items: Seq<JsonValue>) -> Seq<JsonModel> {
    Seq::new(items.len(), |i: int| items[i]@)
}

/// The keyed trees of a sequence of members, position by position.
pub open spec fn members_of(members: Seq<JsonMember>) -> Seq<(Seq<char>, JsonModel)> {
    Seq::new(members.len(), |i: int| (members[i].key@, members[i].value@))
}

/// The tree of an array is the trees of its items.
pub proof fn lemma_array_model(items: Vec<JsonValue>)
    ensures
        JsonValue::Array(items)@ == JsonModel::Array(models_of(items@)),
{
    assert(JsonValue::Array(items).model()->Array_0 =~= models_of(items@));
}

/// The tree of an object is the keyed trees of its members.
pub proof fn lemma_object_model(members: Vec<JsonMember>)
    ensures
        JsonValue::Object(members)@ == JsonModel::Object(members_of(members@)),
{
    assert(JsonValue::Object(members).model()->Object_0 =~= members_of(members@));
}

/// What `jsonc_parser::parse_to_serde_value`, with default options, makes of
/// `text`: `None` where it reports an error, `Some(None)` where the text
/// holds no value, else the value it returns.
pub uninterp spec fn jsonc_document(text: Seq<char>) -> Option<Option<JsonModel>>;

/// What `serde_json::to_string_pretty` writes for `document`: `None` where it
/// reports an error.
pub uninterp spec fn json_pretty_text(document: JsonModel) -> Option<Seq<char>>;

/// The tree of an optional value.
pub open spec fn optional_model(value: Option<JsonValue>) -> Option<JsonModel> {
    match value {
        Some(v) => Some(v@),
        None => None,
    }
}

/// Copies a value of `serde_json` into a `JsonValue`, variant by variant;
/// object members come in the order in which the map yields them. Nothing
/// is proved of the copy: `parse_jsonc` names what it hands out.
#[verifier::external_body]
fn json_from_serde(value: serde_json::Value) -> JsonValue {
    match value {
        serde_json::Value::Null => JsonValue::Null,
        serde_json::Value::Bool(b) => JsonValue::Bool(b),
        serde_json::Value::Number(n) => JsonValue::Number(n),
        serde_json::Value::String(s) => JsonValue::String(s),
        serde_json::Value::Array(items) => JsonValue::Array(
            items.into_iter().map(json_from_serde).collect(),
        ),
        serde_json::Value::Object(map) => JsonValue::Object(
            map.into_iter().map(|(key, v)| JsonMember { key, value: json_from_serde(v) }).collect(),
        ),
    }
}

/// Copies a `JsonValue` into a value of `serde_json`, variant by variant;
/// object members are inserted into the map in their order. Nothing is
/// proved of the copy: `render_pretty` names what is written of it.
#[verifier::external_body]
fn json_into_serde(value: &JsonValue) -> serde_json::Value {
    match value {
        JsonValue::Null => serde_json::Value::Null,
        JsonValue::Bool(b) => serde_json::Value::Bool(*b),
        JsonValue::Number(n) => serde_json::Value::Number(n.clone()),
        JsonValue::String(s) => serde_json::Value::String(s.clone()),
        JsonValue::Array(items) => serde_json::Value::Array(
            items.iter().map(json_into_serde).collect(),
        ),
        JsonValue::Object(members) => serde_json::Value::Object(
            members.iter().map(|m| (m.key.clone(), json_into_serde(&m.value))).collect(),
        ),
    }
}

/// Calls `jsonc_parser::parse_to_serde_value` with default options and copies
/// the value it returns. The result is `Ok` exactly where `jsonc_document`
/// is `Some`, and then holds that document.
#[verifier::external_body]
pub(crate) fn parse_jsonc(text: &str) -> (parsed: Result<
    Option<JsonValue>,
    jsonc_parser::errors::ParseError,
>)
    ensures
        parsed is Ok <==> jsonc_document(text@) is Some,
        parsed matches Ok(document) ==> jsonc_document(text@) == Some(optional_model(document)),
{
    let value = jsonc_parser::parse_to_serde_value(text, &Default::default())?;
    Ok(value.map(json_from_serde))
}

/// Calls `serde_json::to_string_pretty` on a copy of `document`. The result
/// is `Ok` exactly where `json_pretty_text` is `Some`, and then holds that
/// text.
#[verifier::external_body]
pub(crate) fn render_pretty(document: &JsonValue) -> (rendered: Result<String, serde_json::Error>)
    ensures
        rendered is Ok <==> json_pretty_text(document@) is Some,
        rendered matches Ok(text) ==> json_pretty_text(document@) == Some(text@),
{
    serde_json::to_string_pretty(&json_into_serde(document))
}

} // verus!
