//! JSON documents as trees of plain values.
//!
//! Reading and writing JSON text is left to `serde_json`; what the pipeline
//! decides about a document it decides on the tree.
use vstd::prelude::*;
use serde_json::{Number, Value};

verus! {

/// A JSON document held by `serde_json`.
#[verifier::external_type_specification]
#[verifier::external_body]
pub struct ExValue(Value);

/// A JSON document. The members of an object keep the order of the text.
#[derive(Debug, PartialEq)]
pub enum JsonValue {
    /// `null`.
    Null,
    /// `true` or `false`.
    Bool(bool),
    /// A number that is an integer of 64 bits.
    Int(i64),
    /// Any other number, by its JSON text.
    Number(String),
    /// A string.
    Str(String),
    /// An array.
    Array(Vec<JsonValue>),
    /// An object: its members, each a key and a value.
    Object(Vec<(String, JsonValue)>),
}

/// Mathematical model of a [`JsonValue`].
pub ghost enum JsonModel {
    Null,
    Bool(bool),
    Int(i64),
    Number(Seq<char>),
    Str(Seq<char>),
    Array(Seq<JsonModel>),
    Object(Seq<(Seq<char>, JsonModel)>),
}

/// The model of a document: the same tree over sequences.
pub open spec fn json_model(value: &JsonValue) -> JsonModel
    decreases value,
{
    match value {
        JsonValue::Null => JsonModel::Null,
        JsonValue::Bool(b) => JsonModel::Bool(*b),
        JsonValue::Int(i) => JsonModel::Int(*i),
        JsonValue::Number(text) => JsonModel::Number(text@),
        JsonValue::Str(text) => JsonModel::Str(text@),
        JsonValue::Array(items) => JsonModel::Array(
            Seq::new(
                items.len() as nat,
                |i: int|
                    if 0 <= i < items.len() {
                        json_model(&items[i])
                    } else {
                        JsonModel::Null
                    },
            ),
        ),
        JsonValue::Object(members) => JsonModel::Object(
            Seq::new(
                members.len() as nat,
                |i: int|
                    if 0 <= i < members.len() {
                        (members[i].0@, json_model(&members[i].1))
                    } else {
                        (Seq::empty(), JsonModel::Null)
                    },
            ),
        ),
    }
}

impl View for JsonValue {
    type V = JsonModel;

    open spec fn view(&self) -> JsonModel {
        json_model(self)
    }
}

/// The model of an object's members.
pub open spec fn members_model(members: Seq<(String, JsonValue)>) -> Seq<(Seq<char>, JsonModel)> {
    Seq::new(members.len(), |i: int| (members[i].0@, members[i].1@))
}

/// An object's model is the model of its members.
pub proof fn lemma_object_model(members: Vec<(String, JsonValue)>)
    ensures
        JsonValue::Object(members)@ == JsonModel::Object(members_model(members@)),
{
    assert(JsonValue::Object(members)@->Object_0 =~= members_model(members@));
}

/// The value of the first member of an object with the given key.
pub open spec fn member(members: Seq<(Seq<char>, JsonModel)>, key: Seq<char>) -> Option<JsonModel>
    decreases members.len(),
{
    if members.len() == 0 {
        None
    } else if members[0].0 == key {
        Some(members[0].1)
    } else {
        member(members.drop_first(), key)
    }
}

/// The document that a JSON text holds, or `None` where the text is not one
/// JSON document.
pub uninterp spec fn json_decoded(bytes: Seq<u8>) -> Option<JsonModel>;

/// The compact JSON text of a document, or `None` where the writer gave up.
pub uninterp spec fn json_encoded(tree: JsonModel) -> Option<Seq<char>>;

/// Copies a `serde_json::Value` into a tree, variant by variant. A number
/// becomes `Int` where `Number::as_i64` yields one and otherwise keeps the
/// text that `Number::to_string` gives it.
#[verifier::external_body]
fn lift(value: &Value) -> (tree: JsonValue) {
    match value {
        Value::Null => JsonValue::Null,
        Value::Bool(b) => JsonValue::Bool(*b),
        Value::Number(n) => match n.as_i64() {
            Some(i) => JsonValue::Int(i),
            None => JsonValue::Number(n.to_string()),
        },
        Value::String(s) => JsonValue::Str(s.clone()),
        Value::Array(items) => JsonValue::Array(items.iter().map(lift).collect()),
        Value::Object(map) => JsonValue::Object(
            map.iter().map(|(k, v)| (k.clone(), lift(v))).collect(),
        ),
    }
}

/// Copies a tree into a `serde_json::Value`, variant by variant. A number
/// kept as text is read back by `serde_json::Number`, and is `null` where
/// the text is no number.
#[verifier::external_body]
fn lower(tree: &JsonValue) -> (value: Value) {
    match tree {
        JsonValue::Null => Value::Null,
        JsonValue::Bool(b) => Value::Bool(*b),
        JsonValue::Int(i) => Value::from(*i),
        JsonValue::Number(text) => text.parse::<Number>().map_or(Value::Null, Value::Number),
        JsonValue::Str(s) => Value::String(s.clone()),
        JsonValue::Array(items) => Value::Array(items.iter().map(lower).collect()),
        JsonValue::Object(members) => Value::Object(
            members.iter().map(|(k, v)| (k.clone(), lower(v))).collect(),
        ),
    }
}

/// Calls `serde_json::from_slice` for a `serde_json::Value`. Trusted: the
/// result is a function of the bytes alone, and it is `None` exactly where
/// the parser reports an error.
#[verifier::external_body]
pub(crate) fn decode(bytes: &[u8]) -> (tree: Option<JsonValue>)
    ensures
        json_decoded(bytes@) == match tree {
            Some(t) => Some(t@),
            None => None,
        },
{
    match serde_json::from_slice::<Value>(bytes) {
        Ok(value) => Some(lift(&value)),
        Err(_) => None,
    }
}

/// Calls `serde_json::to_string` on the document. Trusted: the result is a
/// function of the document alone, and it is `None` exactly where the writer
/// reports an error.
#[verifier::external_body]
pub(crate) fn encode(tree: &JsonValue) -> (text: Option<String>)
    ensures
        json_encoded(tree@) == match text {
            Some(t) => Some(t@),
            None => None,
        },
{
    match serde_json::to_string(&lower(tree)) {
        Ok(text) => Some(text),
        Err(_) => None,
    }
}

/// Looks a key up among the members of an object.
pub fn get_member<'a>(members: &'a Vec<(String, JsonValue)>, key: &str) -> (found: Option<
    &'a JsonValue,
>)
    ensures
        member(members_model(members@), key@) == match found {
            Some(value) => Some(value@),
            None => None,
        },
{
    let ghost model = members_model(members@);
    let mut i: usize = 0;
    assert(model.subrange(0, model.len() as int) =~= model);
    while i < members.len()
        invariant
            i <= members.len(),
            model == members_model(members@),
            member(model, key@) == member(model.subrange(i as int, model.len() as int), key@),
        decreases members.len() - i,
    {
        let ghost rest = model.subrange(i as int, model.len() as int);
        assert(rest[0] == model[i as int]);
        assert(rest.drop_first() =~= model.subrange(i + 1, model.len() as int));
        if crate::text::same_text(members[i].0.as_str(), key) {
            return Some(&members[i].1);
        }
        i += 1;
    }
    None
}

} // verus!
