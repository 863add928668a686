//! JSON documents: the form in which a message goes to the service.

use crate::error::SlackError;
use vstd::prelude::*;

verus! {

/// A JSON document. An object keeps its members in the order in which they
/// were given.
#[derive(Debug, PartialEq)]
pub enum Json {
    Null,
    Bool(bool),
    Number(i64),
    Text(String),
    Array(Vec<Json>),
    Object(Vec<(String, Json)>),
}

/// A JSON document as plain values.
pub ghost enum JsonValue {
    Null,
    Bool(bool),
    Number(int),
    Text(Seq<char>),
    Array(Seq<JsonValue>),
    Object(Seq<(Seq<char>, JsonValue)>),
}

impl Json {
    /// The document as plain values.
    pub open spec fn value(&self) -> JsonValue
        decreases self,
    {
        match self {
            Json::Null => JsonValue::Null,
            Json::Bool(b) => JsonValue::Bool(*b),
            Json::Number(n) => JsonValue::Number(*n as int),
            Json::Text(text) => JsonValue::Text(text@),
            Json::Array(items) => JsonValue::Array(
                Seq::new(
                    items@.len(),
                    |i: int|
                        if 0 <= i < items@.len() {
                            items@[i].value()
                        } else {
                            JsonValue::Null
                        },
                ),
            ),
            Json::Object(members) => JsonValue::Object(
                Seq::new(
                    members@.len(),
                    |i: int|
                        if 0 <= i < members@.len() {
                            (members@[i].0@, members@[i].1.value())
                        } else {
                            (Seq::empty(), JsonValue::Null)
                        },
                ),
            ),
        }
    }
}

impl View for Json {
    type V = JsonValue;

    open spec fn view(&self) -> JsonValue {
        self.value()
    }
}

impl DeepView for Json {
    type V = JsonValue;

    open spec fn deep_view(&self) -> JsonValue {
        self.value()
    }
}

/// The documents of a list as plain values.
pub open spec fn items_value(items: Seq<Json>) -> Seq<JsonValue> {
    Seq::new(items.len(), |i: int| items[i]@)
}

/// The members of an object as plain values.
pub open spec fn members_value(members: Seq<(String, Json)>) -> Seq<(Seq<char>, JsonValue)> {
    Seq::new(members.len(), |i: int| (members[i].0@, members[i].1@))
}

/// No `null` stands anywhere in the document.
pub open spec fn null_free(document: JsonValue) -> bool
    decreases document,
{
    match document {
        JsonValue::Null => false,
        JsonValue::Array(items) => forall|i: int|
            0 <= i < items.len() ==> null_free(#[trigger] items[i]),
        JsonValue::Object(members) => forall|i: int|
            0 <= i < members.len() ==> null_free((#[trigger] members[i]).1),
        _ => true,
    }
}

/// `serde_json::Value`, carried through unread.
#[verifier::external_type_specification]
#[verifier::external_body]
pub struct ExOutsideValue(serde_json::Value);

/// The text that `serde_json` writes for a document, in its compact form
/// and with the members of each object in their order.
pub uninterp spec fn json_text(document: JsonValue) -> Seq<char>;

/// Makes the `serde_json::Value` of the same shape, variant for variant: a
/// list is collected into an array, and the members of an object into a
/// map that keeps their order.
#[verifier::external_body]
fn to_outside(document: &Json) -> serde_json::Value {
    match document {
        Json::Null => serde_json::Value::Null,
        Json::Bool(b) => serde_json::Value::from(*b),
        Json::Number(n) => serde_json::Value::from(*n),
        Json::Text(text) => serde_json::Value::from(text.as_str()),
        Json::Array(items) => items.iter().map(to_outside).collect(),
        Json::Object(members) => members.iter().map(|m| (m.0.clone(), to_outside(&m.1))).collect(),
    }
}

/// Writes the document with `serde_json::to_string`. What is written is a
/// function of the document alone, so it is named. The writing succeeds:
/// the source shows a failure only where the writer fails, where a value
/// refuses to be written, or where the key of a map is no string, and a
/// `serde_json::Value` written to memory gives rise to none of these.
#[verifier::external_body]
fn write_json(document: &Json) -> (written: Result<String, serde_json::Error>)
    ensures
        written is Ok,
        written matches Ok(text) ==> text@ == json_text(document@),
{
    serde_json::to_string(&to_outside(document))
}

impl Json {
    /// A document that holds a text.
    pub fn text(text: &str) -> (document: Json)
        ensures
            document@ == JsonValue::Text(text@),
    {
        Json::Text(text.to_owned())
    }

    /// A list of documents.
    pub fn array(items: Vec<Json>) -> (document: Json)
        ensures
            document@ == JsonValue::Array(items_value(items@)),
    {
        let document = Json::Array(items);
        proof {
            assert(document@->Array_0 =~= items_value(items@));
        }
        document
    }

    /// An object with the given members, in their order.
    pub fn object(members: Vec<(String, Json)>) -> (document: Json)
        ensures
            document@ == JsonValue::Object(members_value(members@)),
    {
        let document = Json::Object(members);
        proof {
            assert(document@->Object_0 =~= members_value(members@));
        }
        document
    }

    /// The document as JSON text, in compact form. The writing succeeds on
    /// every document.
    pub fn render(&self) -> (rendered: Result<String, SlackError>)
        ensures
            rendered matches Ok(text) && text@ == json_text(self@),
    {
        match write_json(self) {
            Ok(text) => Ok(text),
            Err(e) => Err(SlackError::from(e)),
        }
    }
}

} // verus!
