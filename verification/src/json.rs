//! JSON documents as plain values, and the parser that produces them.

use crate::errors::{DecodeError, DecodeErrorView};
use serde_json::Value;
use vstd::prelude::*;

verus! {

/// `serde_json::Error`: why a text is not JSON. It is carried to the caller
/// and never looked into.
#[verifier::external_type_specification]
#[verifier::external_body]
pub struct ExSyntaxError(serde_json::Error);

/// `serde_json::Value`: a parsed document as serde_json holds it. It is opaque
/// here; [`value_document`] names what it holds.
#[verifier::external_type_specification]
#[verifier::external_body]
pub struct ExParsedValue(serde_json::Value);

/// A JSON number, as the parser reports it: the integer that it is, where it
/// is one that fits, and the decimal text that stands for it.
#[derive(Debug, PartialEq, Eq)]
pub struct JsonNumber {
    /// The number, where it is an integer from zero up that fits in a `u64`.
    pub unsigned: Option<u64>,
    /// The number, where it is an integer that fits in an `i64`.
    pub signed: Option<i64>,
    /// The number in decimal.
    pub text: String,
}

/// Mathematical model of a [`JsonNumber`].
pub struct JsonNumberView {
    pub unsigned: Option<u64>,
    pub signed: Option<i64>,
    pub text: Seq<char>,
}

impl View for JsonNumber {
    type V = JsonNumberView;

    open spec fn view(&self) -> JsonNumberView {
        JsonNumberView { unsigned: self.unsigned, signed: self.signed, text: self.text@ }
    }
}

/// A JSON document. An object keeps its members in the order in which the
/// parser handed them out.
#[derive(Debug, PartialEq, Eq)]
pub enum Json {
    Null,
    Bool(bool),
    Number(JsonNumber),
    String(String),
    Array(Vec<Json>),
    Object(Vec<(String, Json)>),
}

/// Mathematical model of a [`Json`] document.
pub enum JsonView {
    Null,
    Bool(bool),
    Number(JsonNumberView),
    String(Seq<char>),
    Array(Seq<JsonView>),
    Object(Seq<(Seq<char>, JsonView)>),
}

impl View for Json {
    type V = JsonView;

    // Each closure below is only ever asked for an index inside the vector.
    // The other branch gives it a value elsewhere, so that the definition
    // is seen to end.
    open spec fn view(&self) -> JsonView
        decreases self,
    {
        match self {
            Json::Null => JsonView::Null,
            Json::Bool(b) => JsonView::Bool(*b),
            Json::Number(n) => JsonView::Number(n@),
            Json::String(text) => JsonView::String(text@),
            Json::Array(items) => JsonView::Array(
                Seq::new(
                    items@.len(),
                    |i: int|
                        if 0 <= i < items@.len() {
                            items@[i].view()
                        } else {
                            JsonView::Null
                        },
                ),
            ),
            Json::Object(members) => JsonView::Object(
                Seq::new(
                    members@.len(),
                    |i: int|
                        if 0 <= i < members@.len() {
                            (members@[i].0@, members@[i].1.view())
                        } else {
                            (Seq::empty(), JsonView::Null)
                        },
                ),
            ),
        }
    }
}

/// Model of the items of an array held in a vector.
pub open spec fn items_view(items: &Vec<Json>) -> Seq<JsonView> {
    Seq::new(items@.len(), |i: int| items@[i]@)
}

/// Model of the members of an object held in a vector.
pub open spec fn members_view(members: &Vec<(String, Json)>) -> Seq<(Seq<char>, JsonView)> {
    Seq::new(members@.len(), |i: int| (members@[i].0@, members@[i].1@))
}

/// The model of an array holds the models of its items, in order.
pub proof fn lemma_array_view(json: Json)
    requires
        json is Array,
    ensures
        json@ == JsonView::Array(items_view(&json->Array_0)),
{
    reveal_with_fuel(<Json as View>::view, 2);
    assert(json@->Array_0 =~= items_view(&json->Array_0));
}

/// The model of an object holds the models of its members, in order.
pub proof fn lemma_object_view(json: Json)
    requires
        json is Object,
    ensures
        json@ == JsonView::Object(members_view(&json->Object_0)),
{
    reveal_with_fuel(<Json as View>::view, 2);
    assert(json@->Object_0 =~= members_view(&json->Object_0));
}

impl Clone for JsonNumber {
    fn clone(&self) -> (copy: JsonNumber)
        ensures
            copy@ == self@,
    {
        JsonNumber { unsigned: self.unsigned, signed: self.signed, text: self.text.clone() }
    }
}

impl Clone for Json {
    fn clone(&self) -> (copy: Json)
        ensures
            copy@ == self@,
        decreases self,
    {
        match self {
            Json::Null => Json::Null,
            Json::Bool(b) => Json::Bool(*b),
            Json::Number(n) => Json::Number(n.clone()),
            Json::String(text) => Json::String(text.clone()),
            Json::Array(items) => {
                let mut copies: Vec<Json> = Vec::new();
                let mut i: usize = 0;
                while i < items.len()
                    invariant
                        i <= items.len(),
                        copies@.len() == i,
                        forall|k: int| 0 <= k < i ==> copies@[k]@ == items@[k]@,
                        decreases_to!(self => items),
                    decreases items.len() - i,
                {
                    copies.push(items[i].clone());
                    i += 1;
                }
                let copy = Json::Array(copies);
                proof {
                    lemma_array_view(copy);
                    lemma_array_view(*self);
                    assert(items_view(&copy->Array_0) =~= items_view(items));
                }
                copy
            },
            Json::Object(members) => {
                let mut copies: Vec<(String, Json)> = Vec::new();
                let mut i: usize = 0;
                while i < members.len()
                    invariant
                        i <= members.len(),
                        copies@.len() == i,
                        forall|k: int|
                            0 <= k < i ==> copies@[k].0@ == members@[k].0@ && copies@[k].1@
                                == members@[k].1@,
                        decreases_to!(self => members),
                    decreases members.len() - i,
                {
                    copies.push((members[i].0.clone(), members[i].1.clone()));
                    i += 1;
                }
                let copy = Json::Object(copies);
                proof {
                    lemma_object_view(copy);
                    lemma_object_view(*self);
                    assert(members_view(&copy->Object_0) =~= members_view(members));
                }
                copy
            },
        }
    }
}

/// The document that a text denotes, or `None` where the text is not one
/// JSON value. This names the outcome of `serde_json::from_str` on the text,
/// which depends on the text alone.
pub uninterp spec fn parsed_document(text: Seq<char>) -> Option<JsonView>;

/// The document that a `serde_json::Value` holds.
pub uninterp spec fn value_document(value: Value) -> JsonView;

/// Calls `serde_json::from_str` for a `serde_json::Value`. The contract ties
/// the two names together and claims nothing else: on success the text denotes
/// what the value holds, and on an error of serde_json it denotes nothing.
#[verifier::external_body]
fn parse_value(text: &str) -> (result: Result<Value, serde_json::Error>)
    ensures
        match result {
            Ok(value) => parsed_document(text@) == Some(value_document(value)),
            Err(_) => parsed_document(text@) is None,
        },
{
    serde_json::from_str(text)
}

/// Hands out what a `serde_json::Value` holds, variant by variant. A number
/// is written down as `Number::as_u64`, `Number::as_i64` and its `Display`
/// give it; the members of an object come in the order in which
/// `serde_json::Map` hands them out.
#[verifier::external_body]
fn json_from(value: Value) -> (json: Json)
    ensures
        json@ == value_document(value),
{
    match value {
        Value::Null => Json::Null,
        Value::Bool(b) => Json::Bool(b),
        Value::Number(n) => Json::Number(
            JsonNumber { unsigned: n.as_u64(), signed: n.as_i64(), text: n.to_string() },
        ),
        Value::String(text) => Json::String(text),
        Value::Array(items) => Json::Array(items.into_iter().map(json_from).collect()),
        Value::Object(members) => Json::Object(
            members.into_iter().map(|(key, value)| (key, json_from(value))).collect(),
        ),
    }
}

impl Json {
    /// Parses a text as one JSON document.
    pub fn parse(text: &str) -> (result: Result<Json, DecodeError>)
        ensures
            match result {
                Ok(json) => parsed_document(text@) == Some(json@),
                Err(error) => parsed_document(text@) is None && error@ == DecodeErrorView::Syntax,
            },
    {
        match parse_value(text) {
            Ok(value) => Ok(json_from(value)),
            Err(error) => Err(DecodeError::Syntax(error)),
        }
    }
}

} // verus!
