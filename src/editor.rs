//! The editor: one document bound to one storage location.
use vstd::prelude::*;

use crate::document::{
    entries_of, loaded, lookup, merge_fields, merge_outcome, text_outcome, with_added,
    with_removed, with_updated, DocView, Document, EditorError, StoreRead,
};
use crate::json::{
    compact_json, compact_text, map_get, map_insert, map_new, map_remove, parse_document,
    pretty_json, pretty_text,
};

verus! {

/// A document held in memory, bound at construction to the location that it
/// is kept at. The location never changes.
#[derive(Debug)]
pub struct JsonEditor {
    pub(crate) json_data: Document,
    pub(crate) path: &'static str,
}

impl View for JsonEditor {
    type V = DocView;

    closed spec fn view(&self) -> DocView {
        self.json_data@
    }
}

/// Takes a read's text as a document.
fn load(read: StoreRead) -> (r: Result<Document, EditorError>)
    ensures
        match r {
            Ok(d) => loaded(read) == Ok::<DocView, EditorError>(d@),
            Err(e) => loaded(read) == Err::<DocView, EditorError>(e),
        },
{
    match read {
        StoreRead::Missing => Err(EditorError::NotFound),
        StoreRead::Unreadable => Err(EditorError::InvalidData),
        StoreRead::Text(s) => match parse_document(s.as_str()) {
            Some(d) => Ok(d),
            None => Err(EditorError::InvalidData),
        },
    }
}

impl JsonEditor {
    /// The location this editor is bound to.
    pub closed spec fn location(&self) -> &'static str {
        self.path
    }

    /// An editor holding an empty object, bound to `path`. Nothing is read.
    pub fn new(path: &'static str) -> (r: JsonEditor)
        ensures
            r@ == DocView::Object(Map::empty()),
            r.location() == path,
    {
        let m = map_new();
        let r = JsonEditor { json_data: Document::Object(m), path };
        assert(r@ =~= DocView::Object(Map::empty()));
        r
    }

    /// The location this editor is bound to.
    pub fn path(&self) -> (r: &'static str)
        ensures
            r == self.location(),
    {
        self.path
    }

    /// The document held in memory.
    pub fn document(&self) -> (r: &Document)
        ensures
            r@ == self@,
    {
        &self.json_data
    }

    /// The value stored under `key`, or `None` where `key` is absent. A key
    /// that holds `null` is present.
    pub fn get_value(&self, key: &str) -> (r: Option<&serde_json::Value>)
        ensures
            match r {
                Some(v) => lookup(self@, key@) == Some(*v),
                None => lookup(self@, key@) is None,
            },
    {
        match &self.json_data {
            Document::Object(m) => map_get(m, key),
            Document::Other(_) => None,
        }
    }

    /// Resets a root that is not an object to an empty object.
    fn make_object(&mut self)
        ensures
            final(self)@ == DocView::Object(entries_of(old(self)@)),
            final(self).location() == old(self).location(),
    {
        if let Document::Other(_) = &self.json_data {
            self.json_data = Document::Object(map_new());
            assert(final(self)@ =~= DocView::Object(entries_of(old(self)@)));
        }
    }

    /// Inserts `key` with `value` in memory, unless `key` is present:
    /// then fails with `KeyAlreadyExists` and changes nothing. Nothing is
    /// written.
    pub fn add_key(&mut self, key: &str, value: serde_json::Value) -> (r: Result<(), EditorError>)
        ensures
            final(self).location() == old(self).location(),
            match with_added(old(self)@, key@, value) {
                Ok(d) => r is Ok && final(self)@ == d,
                Err(e) => r == Err::<(), EditorError>(e) && final(self)@ == old(self)@,
            },
    {
        if self.get_value(key).is_some() {
            return Err(EditorError::KeyAlreadyExists);
        }
        self.update_key(key, value);
        Ok(())
    }

    /// Sets `key` to `value` in memory, whether or not it was present. A
    /// root that is not an object is first reset to an empty object. Nothing
    /// is written.
    pub fn update_key(&mut self, key: &str, value: serde_json::Value)
        ensures
            final(self).location() == old(self).location(),
            final(self)@ == with_updated(old(self)@, key@, value),
    {
        self.make_object();
        match &mut self.json_data {
            Document::Object(m) => map_insert(m, key.to_owned(), value),
            Document::Other(_) => {},
        }
    }

    /// Removes `key` in memory and returns the compact text of the document
    /// that remains, which is to overwrite the whole location. Fails with
    /// `KeyNotFound`, changing nothing, where `key` is absent.
    pub fn remove_key(&mut self, key: &str) -> (r: Result<String, EditorError>)
        ensures
            final(self).location() == old(self).location(),
            match with_removed(old(self)@, key@) {
                Ok(d) => final(self)@ == d && text_outcome(r) == Ok::<Seq<char>, EditorError>(
                    compact_json(d),
                ),
                Err(e) => r == Err::<String, EditorError>(e) && final(self)@ == old(self)@,
            },
    {
        if self.get_value(key).is_none() {
            return Err(EditorError::KeyNotFound);
        }
        match &mut self.json_data {
            Document::Object(m) => {
                map_remove(m, key);
            },
            Document::Other(_) => {},
        }
        assert(self@ =~= DocView::Object(entries_of(old(self)@).remove(key@)));
        Ok(compact_text(&self.json_data))
    }

    /// An editor bound to `path` holding the document that was read there.
    /// Fails with `NotFound` where nothing could be opened, and with
    /// `InvalidData` where the content is unreadable or not JSON. A root that
    /// is not an object is kept as it is.
    pub fn open_from_file(path: &'static str, read: StoreRead) -> (r: Result<JsonEditor, EditorError>)
        ensures
            match r {
                Ok(ed) => loaded(read) == Ok::<DocView, EditorError>(ed@) && ed.location() == path,
                Err(e) => loaded(read) == Err::<DocView, EditorError>(e),
            },
    {
        match load(read) {
            Ok(json_data) => Ok(JsonEditor { json_data, path }),
            Err(e) => Err(e),
        }
    }

    /// Replaces the document in memory with the one that was read. Fails as
    /// `open_from_file` does, and then changes nothing.
    pub fn open_file(&mut self, read: StoreRead) -> (r: Result<(), EditorError>)
        ensures
            final(self).location() == old(self).location(),
            match r {
                Ok(()) => loaded(read) == Ok::<DocView, EditorError>(final(self)@),
                Err(e) => loaded(read) == Err::<DocView, EditorError>(e) && final(self)@ == old(
                    self,
                )@,
            },
    {
        match load(read) {
            Ok(d) => {
                self.json_data = d;
                Ok(())
            },
            Err(e) => Err(e),
        }
    }

    /// The document that was read from this editor's location, leaving the
    /// one in memory as it is. Fails as `open_from_file` does.
    pub fn read_file(&self, read: StoreRead) -> (r: Result<Document, EditorError>)
        ensures
            match r {
                Ok(d) => loaded(read) == Ok::<DocView, EditorError>(d@),
                Err(e) => loaded(read) == Err::<DocView, EditorError>(e),
            },
    {
        load(read)
    }

    /// The text that saves the document by merging it into what the
    /// location holds: the fields there are kept unless the document in
    /// memory holds the same key, whose value then wins. Where nothing could
    /// be opened, the document in memory alone. Fails with `InvalidData`,
    /// and nothing is to be written, where the content there is unreadable,
    /// not JSON, or not an object.
    pub fn save_to_file(&self, existing: StoreRead) -> (r: Result<String, EditorError>)
        ensures
            text_outcome(r) == merge_outcome(self@, existing),
    {
        match existing {
            StoreRead::Missing => Ok(self.save_to_file_new()),
            StoreRead::Unreadable => Err(EditorError::InvalidData),
            StoreRead::Text(s) => match parse_document(s.as_str()) {
                Some(Document::Object(disk)) => {
                    let m = merge_fields(disk, &self.json_data);
                    Ok(pretty_text(&Document::Object(m)))
                },
                _ => Err(EditorError::InvalidData),
            },
        }
    }

    /// The pretty-printed text of the document in memory, which is to
    /// overwrite the whole location.
    pub fn save_to_file_new(&self) -> (r: String)
        ensures
            r@ == pretty_json(self@),
    {
        pretty_text(&self.json_data)
    }
}

} // verus!
