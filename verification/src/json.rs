//! Reading JSON documents. Decoding and access are `serde_json`'s. A decoded
//! document is carried as a value of its type; what it holds is modelled by
//! [`Json`], and each accessor is described over that model.

use vstd::prelude::*;
use crate::model::text_of;

verus! {

/// A JSON document as a mathematical value. Of a number the model says only
/// that it is one.
pub enum Json {
    Null,
    Bool(bool),
    Number,
    Text(Seq<char>),
    Array(Seq<Json>),
    Object(Map<Seq<char>, Json>),
}

/// A decoded JSON document. Nothing inside it is open to the library but
/// through the accessors below.
#[verifier::external_type_specification]
#[verifier::external_body]
pub struct ExValue(serde_json::Value);

/// The reason why bytes did not decode. The library does not look into it.
#[verifier::external_type_specification]
#[verifier::external_body]
pub struct ExError(serde_json::Error);

/// The document that a decoded value holds.
pub uninterp spec fn json_of(doc: serde_json::Value) -> Json;

/// The document that a byte string decodes to, where it is one JSON text.
pub uninterp spec fn json_decoded(bytes: Seq<u8>) -> Option<Json>;

/// The text that a byte string stands for when it is read as UTF-8 and each
/// ill-formed part is replaced by U+FFFD.
pub uninterp spec fn lossy_text(bytes: Seq<u8>) -> Seq<char>;

/// The member of a document under a key: there is one where the document is
/// an object that has the key.
pub open spec fn member_of(doc: Json, key: Seq<char>) -> Option<Json> {
    match doc {
        Json::Object(members) => if members.contains_key(key) {
            Some(members[key])
        } else {
            None
        },
        _ => None,
    }
}

/// The text of a document: there is one where the document is a string.
pub open spec fn text_in(doc: Json) -> Option<Seq<char>> {
    match doc {
        Json::Text(text) => Some(text),
        _ => None,
    }
}

/// The elements of a document: there are some where the document is an
/// array.
pub open spec fn items_in(doc: Json) -> Option<Seq<Json>> {
    match doc {
        Json::Array(items) => Some(items),
        _ => None,
    }
}

/// The documents that a list of decoded values holds.
pub open spec fn jsons_of(docs: Seq<serde_json::Value>) -> Seq<Json> {
    Seq::new(docs.len(), |i: int| json_of(docs[i]))
}

/// Calls `serde_json::from_slice` for a `Value`. Assumed: whether the bytes
/// decode, and to which document, depends on the bytes alone; `json_decoded`
/// names that document.
#[verifier::external_body]
pub(crate) fn decode(bytes: &[u8]) -> (r: Result<serde_json::Value, serde_json::Error>)
    ensures
        match r {
            Ok(doc) => json_decoded(bytes@) == Some(json_of(doc)),
            Err(_) => json_decoded(bytes@) is None,
        },
{
    serde_json::from_slice::<serde_json::Value>(bytes)
}

/// Calls `serde_json::Value::get` with a string key. Assumed: it returns the
/// member under the key where the value is an object that has the key, and
/// nothing otherwise.
#[verifier::external_body]
pub(crate) fn member<'a>(doc: &'a serde_json::Value, key: &str) -> (r: Option<
    &'a serde_json::Value,
>)
    ensures
        match r {
            Some(found) => member_of(json_of(*doc), key@) == Some(json_of(*found)),
            None => member_of(json_of(*doc), key@) is None,
        },
{
    doc.get(key)
}

/// `serde_json::Value::as_str`. Assumed: it returns the text where the value
/// is a string, and nothing otherwise.
pub assume_specification<'a>[ serde_json::Value::as_str ](doc: &'a serde_json::Value) -> (r:
    Option<&'a str>)
    ensures
        match r {
            Some(text) => text_in(json_of(*doc)) == Some(text@),
            None => text_in(json_of(*doc)) is None,
        },
;

/// `serde_json::Value::as_array`. Assumed: it returns the elements where the
/// value is an array, and nothing otherwise.
pub assume_specification<'a>[ serde_json::Value::as_array ](doc: &'a serde_json::Value) -> (r:
    Option<&'a Vec<serde_json::Value>>)
    ensures
        match r {
            Some(items) => items_in(json_of(*doc)) == Some(jsons_of(items@)),
            None => items_in(json_of(*doc)) is None,
        },
;

/// Calls `String::from_utf8_lossy`. Assumed: the text depends on the bytes
/// alone; `lossy_text` names it.
#[verifier::external_body]
pub(crate) fn lossy(bytes: &[u8]) -> (r: String)
    ensures
        r@ == lossy_text(bytes@),
{
    String::from_utf8_lossy(bytes).into_owned()
}

/// What reading a string member off a JSON text comes to.
#[derive(Debug, Clone, PartialEq, Eq)]
pub enum Reading {
    /// The bytes are no JSON text.
    Undecodable,
    /// The document is no object, or has no such member, or the member is no
    /// string.
    Absent,
    /// The member's text.
    Text(String),
}

/// Model of a [`Reading`].
pub enum ReadingView {
    Undecodable,
    Absent,
    Text(Seq<char>),
}

impl View for Reading {
    type V = ReadingView;

    open spec fn view(&self) -> ReadingView {
        match self {
            Reading::Undecodable => ReadingView::Undecodable,
            Reading::Absent => ReadingView::Absent,
            Reading::Text(text) => ReadingView::Text(text@),
        }
    }
}

/// The text of a document's member under a key, where the document has such
/// a member and it is a string.
pub open spec fn member_text(doc: Json, key: Seq<char>) -> Option<Seq<char>> {
    match member_of(doc, key) {
        Some(found) => text_in(found),
        None => None,
    }
}

/// The elements of a document's member under a key, where the document has
/// such a member and it is an array.
pub open spec fn member_items(doc: Json, key: Seq<char>) -> Option<Seq<Json>> {
    match member_of(doc, key) {
        Some(found) => items_in(found),
        None => None,
    }
}

/// What reading the string member `key` off a decoded document, or off
/// nothing where the bytes did not decode, comes to.
pub open spec fn text_found(decoded: Option<Json>, key: Seq<char>) -> ReadingView {
    match decoded {
        None => ReadingView::Undecodable,
        Some(doc) => match member_text(doc, key) {
            None => ReadingView::Absent,
            Some(text) => ReadingView::Text(text),
        },
    }
}

/// What reading the string member `key` off `body` comes to.
pub open spec fn text_read(body: Seq<u8>, key: Seq<char>) -> ReadingView {
    text_found(json_decoded(body), key)
}

/// The string member of a document under a key.
pub fn text_of_member(doc: &serde_json::Value, key: &str) -> (r: Option<String>)
    ensures
        text_of(r) == member_text(json_of(*doc), key@),
{
    match member(doc, key) {
        Some(found) => match found.as_str() {
            Some(text) => Some(text.to_owned()),
            None => None,
        },
        None => None,
    }
}

/// The array member of a document under a key.
pub fn items_of_member<'a>(doc: &'a serde_json::Value, key: &str) -> (r: Option<
    &'a Vec<serde_json::Value>,
>)
    ensures
        match r {
            Some(items) => member_items(json_of(*doc), key@) == Some(jsons_of(items@)),
            None => member_items(json_of(*doc), key@) is None,
        },
{
    match member(doc, key) {
        Some(found) => found.as_array(),
        None => None,
    }
}

/// Decodes a JSON text and reads one string member off it.
pub fn read_text(body: &[u8], key: &str) -> (r: Reading)
    ensures
        r@ == text_read(body@, key@),
{
    match decode(body) {
        Err(_) => Reading::Undecodable,
        Ok(doc) => match text_of_member(&doc, key) {
            None => Reading::Absent,
            Some(text) => Reading::Text(text),
        },
    }
}

} // verus!
