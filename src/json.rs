//! The serde_json items that the library relies on, with their contracts.
use vstd::prelude::*;

use crate::document::{DocView, Document};

verus! {

#[verifier::external_type_specification]
#[verifier::external_body]
pub struct ExJsonValue(serde_json::Value);

#[verifier::external_type_specification]
#[verifier::external_body]
#[verifier::reject_recursive_types(K)]
#[verifier::reject_recursive_types(V)]
pub struct ExJsonMap<K, V>(serde_json::Map<K, V>);

/// What a `serde_json::Map<String, Value>` holds: each key with its value.
pub uninterp spec fn map_entries(m: serde_json::Map<String, serde_json::Value>) -> Map<
    Seq<char>,
    serde_json::Value,
>;

/// Relies on `serde_json::Map::new`: the new map is empty.
#[verifier::external_body]
pub(crate) fn map_new() -> (r: serde_json::Map<String, serde_json::Value>)
    ensures
        map_entries(r) =~= Map::empty(),
{
    serde_json::Map::new()
}

/// Relies on `serde_json::Map::get`: the value stored under `key`, if any.
#[verifier::external_body]
pub(crate) fn map_get<'a>(m: &'a serde_json::Map<String, serde_json::Value>, key: &str) -> (r:
    Option<&'a serde_json::Value>)
    ensures
        match r {
            Some(v) => map_entries(*m).contains_key(key@) && map_entries(*m)[key@] == *v,
            None => !map_entries(*m).contains_key(key@),
        },
{
    m.get(key)
}

/// Relies on `serde_json::Map::insert`: `key` now maps to `value`, every
/// other entry is kept.
#[verifier::external_body]
pub(crate) fn map_insert(
    m: &mut serde_json::Map<String, serde_json::Value>,
    key: String,
    value: serde_json::Value,
)
    ensures
        map_entries(*final(m)) == map_entries(*old(m)).insert(key@, value),
{
    m.insert(key, value);
}

/// Relies on `serde_json::Map::remove`: the entry under `key` leaves the map
/// and its value is handed back.
#[verifier::external_body]
pub(crate) fn map_remove(m: &mut serde_json::Map<String, serde_json::Value>, key: &str) -> (r:
    Option<serde_json::Value>)
    ensures
        map_entries(*final(m)) == map_entries(*old(m)).remove(key@),
        match r {
            Some(v) => map_entries(*old(m)).contains_key(key@) && map_entries(*old(m))[key@] == v,
            None => !map_entries(*old(m)).contains_key(key@),
        },
{
    m.remove(key)
}

/// Relies on `serde_json::Map::keys`: every key of the map, each once.
#[verifier::external_body]
pub(crate) fn map_keys(m: &serde_json::Map<String, serde_json::Value>) -> (r: Vec<String>)
    ensures
        forall|i: int, j: int| 0 <= i < j < r@.len() ==> r@[i]@ != r@[j]@,
        forall|i: int| 0 <= i < r@.len() ==> map_entries(*m).contains_key(#[trigger] r@[i]@),
        forall|k: Seq<char>|
            map_entries(*m).contains_key(k) ==> exists|i: int| 0 <= i < r@.len() && #[trigger] r@[i]@ == k,
{
    m.keys().cloned().collect()
}

/// The pretty-printed JSON text of a document.
pub uninterp spec fn pretty_json(d: DocView) -> Seq<char>;

/// The compact JSON text of a document.
pub uninterp spec fn compact_json(d: DocView) -> Seq<char>;

/// The document that a JSON text holds, or `None` where the text is not
/// well-formed JSON.
pub uninterp spec fn parsed_json(s: Seq<char>) -> Option<DocView>;

/// Relies on `serde_json::to_string_pretty`: the text depends on the document
/// alone (without `preserve_order` a map is ordered by key). It cannot fail
/// here: a `Value` or a `Map<String, Value>` has string keys only and the
/// output goes to memory.
#[verifier::external_body]
pub(crate) fn pretty_text(d: &Document) -> (r: String)
    ensures
        r@ == pretty_json(d@),
{
    match d {
        Document::Object(m) => serde_json::to_string_pretty(m).expect("string keys only"),
        Document::Other(v) => serde_json::to_string_pretty(v).expect("string keys only"),
    }
}

/// Relies on `serde_json::to_string`: the compact text depends on the
/// document alone, and cannot fail for the same reasons as the pretty one.
#[verifier::external_body]
pub(crate) fn compact_text(d: &Document) -> (r: String)
    ensures
        r@ == compact_json(d@),
{
    match d {
        Document::Object(m) => serde_json::to_string(m).expect("string keys only"),
        Document::Other(v) => serde_json::to_string(v).expect("string keys only"),
    }
}

/// Relies on `serde_json::from_str::<Value>`: the outcome depends on the
/// text alone. An object root hands over its map.
#[verifier::external_body]
pub(crate) fn parse_document(s: &str) -> (r: Option<Document>)
    ensures
        match r {
            Some(d) => parsed_json(s@) == Some(d@),
            None => parsed_json(s@) is None,
        },
{
    match serde_json::from_str::<serde_json::Value>(s) {
        Ok(serde_json::Value::Object(m)) => Some(Document::Object(m)),
        Ok(v) => Some(Document::Other(v)),
        Err(_) => None,
    }
}

/// Relies on the derived `Clone` of `serde_json::Value`: a deep copy, equal
/// to the value copied.
pub assume_specification[ <serde_json::Value as Clone>::clone ](v: &serde_json::Value) -> (r:
    serde_json::Value)
    ensures
        r == *v,
;

} // verus!
