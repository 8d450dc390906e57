//! Laws of the editor's operations, stated over the document model.
use vstd::prelude::*;

use crate::document::{
    entries_of, lookup, merge_outcome, merged, overwrite_text, with_added, with_removed,
    with_updated, DocView, EditorError, StoreRead,
};
use crate::json::parsed_json;

verus! {

/// Adding a key that is absent succeeds, and the key then holds the value.
pub proof fn law_add_absent_key(d: DocView, k: Seq<char>, v: serde_json::Value)
    requires
        !entries_of(d).contains_key(k),
    ensures
        with_added(d, k, v) is Ok,
        lookup(with_added(d, k, v)->Ok_0, k) == Some(v),
{
}

/// Adding a key that is present fails with `KeyAlreadyExists`.
pub proof fn law_add_present_key(d: DocView, k: Seq<char>, v: serde_json::Value)
    requires
        entries_of(d).contains_key(k),
    ensures
        with_added(d, k, v) == Err::<DocView, EditorError>(EditorError::KeyAlreadyExists),
{
}

/// Updating a key, present or not, leaves it holding the value.
pub proof fn law_update_sets(d: DocView, k: Seq<char>, v: serde_json::Value)
    ensures
        lookup(with_updated(d, k, v), k) == Some(v),
{
}

/// Removing an absent key fails with `KeyNotFound`; removing a present one
/// succeeds and leaves it absent.
pub proof fn law_remove(d: DocView, k: Seq<char>)
    ensures
        !entries_of(d).contains_key(k) ==> with_removed(d, k) == Err::<DocView, EditorError>(
            EditorError::KeyNotFound,
        ),
        entries_of(d).contains_key(k) ==> with_removed(d, k) is Ok && lookup(
            with_removed(d, k)->Ok_0,
            k,
        ) is None,
{
}

/// A merge keeps every key of either side: the value in memory wins where
/// both hold a key, and a key that only the location holds keeps its value.
pub proof fn law_merge(disk: Map<Seq<char>, serde_json::Value>, mem: DocView)
    ensures
        forall|k: Seq<char>|
            #[trigger] merged(disk, mem).contains_key(k) <==> (disk.contains_key(k)
                || entries_of(mem).contains_key(k)),
        forall|k: Seq<char>|
            entries_of(mem).contains_key(k) ==> #[trigger] merged(disk, mem)[k] == entries_of(
                mem,
            )[k],
        forall|k: Seq<char>|
            disk.contains_key(k) && !entries_of(mem).contains_key(k) ==> #[trigger] merged(
                disk,
                mem,
            )[k] == disk[k],
{
}

/// A merge-on-save where nothing could be opened writes what a full
/// overwrite writes.
pub proof fn law_merge_into_missing(mem: DocView)
    ensures
        merge_outcome(mem, StoreRead::Missing) == Ok::<Seq<char>, EditorError>(
            overwrite_text(mem),
        ),
{
}

/// A merge-on-save onto content that is not JSON fails with `InvalidData`,
/// so nothing is written.
pub proof fn law_merge_into_unparsable(mem: DocView, s: String)
    requires
        parsed_json(s@) is None,
    ensures
        merge_outcome(mem, StoreRead::Text(s)) == Err::<Seq<char>, EditorError>(
            EditorError::InvalidData,
        ),
{
}

/// Merging the same document a second time into the result of a merge
/// changes nothing.
pub proof fn law_merge_idempotent(disk: Map<Seq<char>, serde_json::Value>, mem: DocView)
    ensures
        merged(merged(disk, mem), mem) == merged(disk, mem),
{
    assert(merged(merged(disk, mem), mem) =~= merged(disk, mem));
}

} // verus!
