//! A flat JSON document editor: a keyed document held in memory, with
//! add / update / remove of top-level fields and a merge-on-save policy.
//!
//! The library decides; the caller performs storage reads and writes and
//! hands their outcome in as plain values.

pub mod json;

pub mod document;

pub use document::{DocView, Document, EditorError, JsonValue, StoreRead};

pub mod editor;

pub mod laws;

pub use editor::JsonEditor;
