//! The JSON boundary: documents are parsed, inspected, built and rendered by
//! `serde_json`; this module states what the rest of the crate relies on.
//!
//! A `serde_json::Value` is opaque to the verifier. Its content is named by
//! `model`, a tree over plain values, and every contract here speaks of that
//! tree. Nothing in this module is proved: the items marked
//! `external_body` are believed as written.

use serde_json::Value;
use vstd::prelude::*;

verus! {

#[verifier::external_type_specification]
#[verifier::external_body]
pub struct ExValue(serde_json::Value);

#[verifier::external_type_specification]
#[verifier::external_body]
pub struct ExJsonError(serde_json::Error);

/// The JSON data model. A number is kept as its text; an object as its
/// entries in the order the document yields them.
pub enum JsonTree {
    Null,
    Bool(bool),
    Number(Seq<char>),
    Text(Seq<char>),
    List(Seq<JsonTree>),
    Object(Seq<(Seq<char>, JsonTree)>),
}

/// What a document holds.
pub uninterp spec fn model(doc: Value) -> JsonTree;

/// What `serde_json::from_str` makes of a text: the tree of the document it
/// returns, or `None` where it returns an error.
pub uninterp spec fn json_document(text: Seq<char>) -> Option<JsonTree>;

/// What `serde_json::to_string` makes of a document with the given tree: its
/// compact text, or `None` where it returns an error.
pub uninterp spec fn rendered(tree: JsonTree) -> Option<Seq<char>>;

/// The tree of the object that `serde_json` collects from a list of keyed
/// values.
pub uninterp spec fn assembled(entries: Seq<(Seq<char>, JsonTree)>) -> JsonTree;

/// The value of the first entry stored under `key`.
pub open spec fn first_entry(entries: Seq<(Seq<char>, JsonTree)>, key: Seq<char>) -> Option<
    JsonTree,
>
    decreases entries.len(),
{
    if entries.len() == 0 {
        None
    } else if entries[0].0 == key {
        Some(entries[0].1)
    } else {
        first_entry(entries.drop_first(), key)
    }
}

/// The member of an object stored under `key`; `None` for anything but an
/// object and for a key the object lacks.
pub open spec fn member(tree: JsonTree, key: Seq<char>) -> Option<JsonTree> {
    match tree {
        JsonTree::Object(entries) => first_entry(entries, key),
        _ => None,
    }
}

/// The characters of a JSON string; `None` for any other value.
pub open spec fn text_of(tree: JsonTree) -> Option<Seq<char>> {
    match tree {
        JsonTree::Text(s) => Some(s),
        _ => None,
    }
}

/// Whether every element is a JSON string.
pub open spec fn all_text(items: Seq<JsonTree>) -> bool {
    forall|i: int| 0 <= i < items.len() ==> #[trigger] items[i] is Text
}

/// The strings of an array whose every element is a string; `None` for any
/// other value.
pub open spec fn text_list_of(tree: JsonTree) -> Option<Seq<Seq<char>>> {
    match tree {
        JsonTree::List(items) => if all_text(items) {
            Some(Seq::new(items.len(), |i: int| items[i]->Text_0))
        } else {
            None
        },
        _ => None,
    }
}

/// The string member stored under `key`, if there is one.
pub open spec fn member_text(tree: JsonTree, key: Seq<char>) -> Option<Seq<char>> {
    match member(tree, key) {
        Some(m) => text_of(m),
        None => None,
    }
}

/// The list-of-strings member stored under `key`, if there is one.
pub open spec fn member_text_list(tree: JsonTree, key: Seq<char>) -> Option<Seq<Seq<char>>> {
    match member(tree, key) {
        Some(m) => text_list_of(m),
        None => None,
    }
}

/// The tree of an array of strings.
pub open spec fn text_list_tree(items: Seq<Seq<char>>) -> JsonTree {
    JsonTree::List(Seq::new(items.len(), |i: int| JsonTree::Text(items[i])))
}

/// The keyed trees of a list of keyed documents.
pub open spec fn entry_models(entries: Seq<(String, Value)>) -> Seq<(Seq<char>, JsonTree)> {
    Seq::new(entries.len(), |i: int| (entries[i].0@, model(entries[i].1)))
}

/// `serde_json::from_str::<Value>`: parses one JSON document that spans the
/// whole text. Trusted: the outcome is a function of the text alone.
#[verifier::external_body]
pub(crate) fn parse(text: &str) -> (r: Result<Value, serde_json::Error>)
    ensures
        match r {
            Ok(doc) => json_document(text@) == Some(model(doc)),
            Err(_) => json_document(text@) is None,
        },
{
    serde_json::from_str::<Value>(text)
}

/// `Value::get` with a string key: the member of an object under that key.
/// Trusted: `None` for a value that is no object and for a missing key; an
/// object's keys are distinct, so the member is the first entry under the key.
#[verifier::external_body]
pub(crate) fn get<'a>(doc: &'a Value, key: &str) -> (r: Option<&'a Value>)
    ensures
        match r {
            Some(m) => member(model(*doc), key@) == Some(model(*m)),
            None => member(model(*doc), key@) is None,
        },
{
    doc.get(key)
}

/// `Value::as_str`: the characters of a JSON string, `None` for any other
/// value.
#[verifier::external_body]
pub(crate) fn as_text<'a>(doc: &'a Value) -> (r: Option<&'a str>)
    ensures
        match r {
            Some(s) => text_of(model(*doc)) == Some(s@),
            None => text_of(model(*doc)) is None,
        },
{
    doc.as_str()
}

/// `serde_json::from_value::<Vec<String>>` on a copy of the document.
/// Trusted: it succeeds exactly on an array whose elements are all strings,
/// and then returns them in order.
#[verifier::external_body]
pub(crate) fn as_text_list(doc: &Value) -> (r: Option<Vec<String>>)
    ensures
        match r {
            Some(items) => text_list_of(model(*doc)) == Some(items.deep_view()),
            None => text_list_of(model(*doc)) is None,
        },
{
    serde_json::from_value::<Vec<String>>(doc.clone()).ok()
}

/// `Value::from(&str)`: a JSON string with the given characters.
#[verifier::external_body]
pub(crate) fn text_value(text: &str) -> (r: Value)
    ensures
        model(r) == JsonTree::Text(text@),
{
    Value::from(text)
}

/// `Value::from(Vec<String>)`: a JSON array of strings, in the given order.
#[verifier::external_body]
pub(crate) fn text_list_value(items: &Vec<String>) -> (r: Value)
    ensures
        model(r) == text_list_tree(items.deep_view()),
{
    Value::from(items.clone())
}

/// `Value::from_iter` over keyed values: a JSON object. Trusted: the object
/// is a function of the keys and of what the values hold.
#[verifier::external_body]
pub(crate) fn object_value(entries: Vec<(String, Value)>) -> (r: Value)
    ensures
        model(r) == assembled(entry_models(entries@)),
{
    Value::from_iter(entries)
}

/// `serde_json::to_string`: the compact text of a document. Trusted: the
/// outcome is a function of what the document holds.
#[verifier::external_body]
pub(crate) fn render(doc: &Value) -> (r: Result<String, serde_json::Error>)
    ensures
        match r {
            Ok(text) => rendered(model(*doc)) == Some(text@),
            Err(_) => rendered(model(*doc)) is None,
        },
{
    serde_json::to_string(doc)
}

/// The `Display` text of a `serde_json::Error`. Nothing is claimed of it.
#[verifier::external_body]
pub(crate) fn describe(error: &serde_json::Error) -> String {
    error.to_string()
}

} // verus!
