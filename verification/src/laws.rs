//! What holds of the store's operations taken together.

use crate::cache::{with_all, with_built, Entries};
use crate::errors::OdiliaError;
use crate::identity::AccessibleId;
use crate::item::{CacheItem, CacheItemView};
use vstd::prelude::*;

verus! {

/// A snapshot that was added is found under its identity, as it was added.
pub proof fn law_added_is_found(entries: Entries, item: CacheItemView)
    ensures
        entries.insert(item.id, item).get(item.id) == Some(item),
{
}

/// Of two snapshots with one identity that are added one after the other,
/// only the second stays: the store is as if the first had never been added.
pub proof fn law_added_again_replaces(entries: Entries, first: CacheItemView, second: CacheItemView)
    requires
        first.id == second.id,
    ensures
        entries.insert(first.id, first).insert(second.id, second) == entries.insert(
            second.id,
            second,
        ),
        entries.insert(first.id, first).insert(second.id, second).get(first.id) == Some(second),
{
    assert(entries.insert(first.id, first).insert(second.id, second) =~= entries.insert(
        second.id,
        second,
    ));
}

/// Adding a snapshot leaves the snapshots of all other identities as they
/// were.
pub proof fn law_added_leaves_others(entries: Entries, item: CacheItemView, other: AccessibleId)
    requires
        other != item.id,
    ensures
        entries.insert(item.id, item).get(other) == entries.get(other),
{
}

/// After an identity was removed nothing is found under it, whether or not
/// there was something before.
pub proof fn law_removed_is_not_found(entries: Entries, id: AccessibleId)
    ensures
        entries.remove(id).get(id) is None,
{
}

/// Removing an identity twice is the same as removing it once, and removing
/// one that is not there changes nothing.
pub proof fn law_remove_is_idempotent(entries: Entries, id: AccessibleId)
    ensures
        entries.remove(id).remove(id) == entries.remove(id),
        !entries.contains_key(id) ==> entries.remove(id) == entries,
{
}

/// Removing an identity leaves the snapshots of all other identities as they
/// were.
pub proof fn law_removed_leaves_others(entries: Entries, id: AccessibleId, other: AccessibleId)
    requires
        other != id,
    ensures
        entries.remove(id).get(other) == entries.get(other),
{
}

/// After a batch was added, the last snapshot of the batch with a given
/// identity is found under that identity.
pub proof fn law_batch_is_found(entries: Entries, items: Seq<CacheItemView>, i: int)
    requires
        0 <= i < items.len(),
        forall|j: int| i < j < items.len() ==> (#[trigger] items[j]).id != items[i].id,
    ensures
        with_all(entries, items).get(items[i].id) == Some(items[i]),
    decreases items.len(),
{
    if i < items.len() - 1 {
        law_batch_is_found(entries, items.drop_last(), i);
    }
}

/// After a batch was added, an identity that no snapshot of the batch has is
/// found as before.
pub proof fn law_batch_leaves_others(entries: Entries, items: Seq<CacheItemView>, id: AccessibleId)
    requires
        forall|i: int| 0 <= i < items.len() ==> (#[trigger] items[i]).id != id,
    ensures
        with_all(entries, items).get(id) == entries.get(id),
    decreases items.len(),
{
    if items.len() > 0 {
        law_batch_leaves_others(entries, items.drop_last(), id);
    }
}

/// A snapshot that was built and filed is found under its identity from then
/// on, equal to what the builder made: a second request for it builds
/// nothing.
pub proof fn law_built_is_found(entries: Entries, built: CacheItem)
    ensures
        with_built(entries, Ok(built)).get(built.id) == Some(built@),
{
}

/// A builder's failure leaves the store as it was.
pub proof fn law_failed_build_changes_nothing(entries: Entries, err: OdiliaError)
    ensures
        with_built(entries, Err(err)) == entries,
{
}

} // verus!
