//! The in-memory document: a keyed object, or a root of another shape.
use vstd::prelude::*;

use crate::json::{map_entries, map_get, map_insert, map_keys, parsed_json, pretty_json};

verus! {

/// A JSON value, as stored under a key of a document.
pub type JsonValue = serde_json::Value;

/// The kinds of failure that the editor reports.
#[derive(Debug, Clone, Copy, PartialEq, Eq, Structural)]
pub enum EditorError {
    /// The storage location could not be opened.
    NotFound,
    /// What was read could not be taken as a well-formed document.
    InvalidData,
    /// An add named a key that is already present.
    KeyAlreadyExists,
    /// A remove named a key that is absent.
    KeyNotFound,
    /// A write failed after the location was opened.
    IoError,
}

/// The root of a document: an object of named fields, or any other JSON
/// value (which holds no fields).
#[derive(Debug)]
pub enum Document {
    Object(serde_json::Map<String, serde_json::Value>),
    Other(serde_json::Value),
}

/// The mathematical model of a [`Document`].
pub enum DocView {
    Object(Map<Seq<char>, serde_json::Value>),
    Other(serde_json::Value),
}

impl View for Document {
    type V = DocView;

    open spec fn view(&self) -> DocView {
        match self {
            Document::Object(m) => DocView::Object(map_entries(*m)),
            Document::Other(v) => DocView::Other(*v),
        }
    }
}

/// The fields of a document; a root that is not an object has none.
pub open spec fn entries_of(d: DocView) -> Map<Seq<char>, serde_json::Value> {
    match d {
        DocView::Object(e) => e,
        DocView::Other(_) => Map::empty(),
    }
}

/// What a read of a storage location produced.
#[derive(Debug)]
pub enum StoreRead {
    /// The location could not be opened for reading.
    Missing,
    /// The location was opened but its content could not be read as text.
    Unreadable,
    /// The whole content of the location.
    Text(String),
}

/// The value stored under `k`, if `k` is present.
pub open spec fn lookup(d: DocView, k: Seq<char>) -> Option<serde_json::Value> {
    if entries_of(d).contains_key(k) {
        Some(entries_of(d)[k])
    } else {
        None
    }
}

/// Adding `k`: refused where `k` is present, else the fields with `k` bound
/// to `v` (a root that is not an object is first reset to an empty object).
pub open spec fn with_added(d: DocView, k: Seq<char>, v: serde_json::Value) -> Result<
    DocView,
    EditorError,
> {
    if entries_of(d).contains_key(k) {
        Err(EditorError::KeyAlreadyExists)
    } else {
        Ok(DocView::Object(entries_of(d).insert(k, v)))
    }
}

/// Updating `k`: `k` bound to `v` whether or not it was present.
pub open spec fn with_updated(d: DocView, k: Seq<char>, v: serde_json::Value) -> DocView {
    DocView::Object(entries_of(d).insert(k, v))
}

/// Removing `k`: refused where `k` is absent, else the fields without `k`.
pub open spec fn with_removed(d: DocView, k: Seq<char>) -> Result<DocView, EditorError> {
    if entries_of(d).contains_key(k) {
        Ok(DocView::Object(entries_of(d).remove(k)))
    } else {
        Err(EditorError::KeyNotFound)
    }
}

/// The shallow merge of the fields of `mem` over the fields `disk`: every
/// key of either, with the value of `mem` where both hold it.
pub open spec fn merged(disk: Map<Seq<char>, serde_json::Value>, mem: DocView) -> Map<
    Seq<char>,
    serde_json::Value,
> {
    disk.union_prefer_right(entries_of(mem))
}

/// The document that a read yields: `NotFound` where nothing could be
/// opened, `InvalidData` where the content is unreadable or not JSON.
pub open spec fn loaded(read: StoreRead) -> Result<DocView, EditorError> {
    match read {
        StoreRead::Missing => Err(EditorError::NotFound),
        StoreRead::Unreadable => Err(EditorError::InvalidData),
        StoreRead::Text(s) => match parsed_json(s@) {
            Some(d) => Ok(d),
            None => Err(EditorError::InvalidData),
        },
    }
}

/// The text that a full overwrite of the location with `mem` writes.
pub open spec fn overwrite_text(mem: DocView) -> Seq<char> {
    pretty_json(mem)
}

/// The text that a merge-on-save of `mem` writes, given what was read from
/// the location: `mem` alone where nothing was there; the merge where an
/// object was there; `InvalidData` where the content is unreadable, not
/// JSON, or not an object.
pub open spec fn merge_outcome(mem: DocView, existing: StoreRead) -> Result<Seq<char>, EditorError> {
    match existing {
        StoreRead::Missing => Ok(overwrite_text(mem)),
        StoreRead::Unreadable => Err(EditorError::InvalidData),
        StoreRead::Text(s) => match parsed_json(s@) {
            Some(DocView::Object(disk)) => Ok(pretty_json(DocView::Object(merged(disk, mem)))),
            _ => Err(EditorError::InvalidData),
        },
    }
}

/// The model of a text result.
pub open spec fn text_outcome(r: Result<String, EditorError>) -> Result<Seq<char>, EditorError> {
    match r {
        Ok(t) => Ok(t@),
        Err(e) => Err(e),
    }
}

/// The keys among the first `i` of `keys`.
spec fn first_keys(keys: Seq<String>, i: int) -> Set<Seq<char>> {
    Set::new(|k: Seq<char>| exists|j: int| 0 <= j < i && #[trigger] keys[j]@ == k)
}

/// Writes every field of `overlay` into `base`, replacing the value of a key
/// that `base` already holds.
pub fn merge_fields(base: serde_json::Map<String, serde_json::Value>, overlay: &Document) -> (r:
    serde_json::Map<String, serde_json::Value>)
    ensures
        map_entries(r) == merged(map_entries(base), overlay@),
{
    match overlay {
        Document::Other(_) => {
            assert(merged(map_entries(base), overlay@) =~= map_entries(base));
            base
        },
        Document::Object(m) => {
            let keys = map_keys(m);
            let ghost over = map_entries(*m);
            let mut result = base;
            let mut i: usize = 0;
            while i < keys.len()
                invariant
                    i <= keys.len(),
                    over == map_entries(*m),
                    forall|a: int, b: int| 0 <= a < b < keys@.len() ==> keys@[a]@ != keys@[b]@,
                    forall|a: int| 0 <= a < keys@.len() ==> over.contains_key(#[trigger] keys@[a]@),
                    map_entries(result) == map_entries(base).union_prefer_right(
                        over.restrict(first_keys(keys@, i as int)),
                    ),
                decreases keys.len() - i,
            {
                let k = &keys[i];
                let ghost before = map_entries(result);
                match map_get(m, k.as_str()) {
                    Some(v) => map_insert(&mut result, k.clone(), v.clone()),
                    None => {},
                }
                proof {
                    assert(first_keys(keys@, i + 1) =~= first_keys(keys@, i as int).insert(k@)) by {
                        assert forall|x: Seq<char>| first_keys(keys@, i + 1).contains(x) implies first_keys(keys@, i as int).insert(k@).contains(x) by {
                            let j = choose|j: int| 0 <= j < i + 1 && #[trigger] keys@[j]@ == x;
                            if j < i {
                                assert(first_keys(keys@, i as int).contains(x));
                            }
                        }
                        assert(keys@[i as int]@ == k@);
                    }
                    assert(map_entries(result) =~= map_entries(base).union_prefer_right(
                        over.restrict(first_keys(keys@, i + 1)),
                    ));
                }
                i += 1;
            }
            proof {
                assert(first_keys(keys@, keys@.len() as int) =~= over.dom()) by {
                    assert forall|x: Seq<char>| over.contains_key(x) implies first_keys(keys@, keys@.len() as int).contains(x) by {
                        let j = choose|j: int| 0 <= j < keys@.len() && #[trigger] keys@[j]@ == x;
                    }
                }
                assert(over.restrict(over.dom()) =~= over);
                assert(map_entries(result) =~= merged(map_entries(base), overlay@));
            }
            result
        },
    }
}

} // verus!
