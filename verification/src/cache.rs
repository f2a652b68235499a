//! The store: at most one snapshot for each identity.
//!
//! A `Cache` is a plain value. Whoever shares it among tasks puts it behind a
//! reader/writer lock: the operations that take `&self` need shared access,
//! those that take `&mut self` exclusive access, and each of them is one step
//! under that access.

use crate::errors::OdiliaError;
use crate::identity::{AccessibleId, Identity};
use crate::item::{copy_into_cache_item, view_of, views_of, CacheItem, CacheItemView};
use std::collections::HashMap;
use vstd::prelude::*;
use vstd::std_specs::convert::TryIntoSpec;

verus! {

/// What a store holds: the snapshot of each identity that is present.
pub type Entries = Map<AccessibleId, CacheItemView>;

/// The integer under which the snapshot of an identity is filed. Numbers keep
/// their value; the two keywords lie just above the largest number.
spec fn slot_of(id: AccessibleId) -> i128 {
    match id {
        AccessibleId::Number(n) => n as i128,
        AccessibleId::Null => 0x8000_0000_0000_0000i128,
        AccessibleId::Root => 0x8000_0000_0000_0001i128,
    }
}

fn slot(id: &AccessibleId) -> (k: i128)
    ensures
        k == slot_of(*id),
{
    match id {
        AccessibleId::Number(n) => *n as i128,
        AccessibleId::Null => 0x8000_0000_0000_0000i128,
        AccessibleId::Root => 0x8000_0000_0000_0001i128,
    }
}

/// The store after each snapshot of `items` was filed in turn: of two with
/// one identity the later one stays.
pub open spec fn with_all(entries: Entries, items: Seq<CacheItemView>) -> Entries {
    items.fold_left(entries, |acc: Entries, item: CacheItemView| acc.insert(item.id, item))
}

/// The store after the builder came back with `built`: a snapshot that was
/// built is filed, a failure changes nothing.
pub open spec fn with_built(entries: Entries, built: Result<CacheItem, OdiliaError>) -> Entries {
    match built {
        Ok(item) => entries.insert(item.id, item@),
        Err(_) => entries,
    }
}

/// What a request for the snapshot of an element has to do next.
pub enum Request {
    /// The request is over, with this outcome.
    Done(Result<CacheItem, OdiliaError>),
    /// The store has no snapshot of the element: the element has to be asked,
    /// and what comes of that be brought to `insert_built`.
    Build,
}

/// The store of snapshots, each filed under the identity of its element.
pub struct Cache {
    by_id: HashMap<i128, CacheItem>,
}

impl View for Cache {
    type V = Entries;

    closed spec fn view(&self) -> Entries {
        Map::new(
            |id: AccessibleId| self.by_id@.contains_key(slot_of(id)),
            |id: AccessibleId| self.by_id@[slot_of(id)]@,
        )
    }
}

impl Cache {
    /// A store that holds nothing.
    pub fn new() -> (cache: Self)
        ensures
            cache@ == Entries::empty(),
    {
        Cache { by_id: HashMap::new() }
    }

    /// Files a snapshot under its identity, in place of the one that was
    /// there, if any.
    pub fn add(&mut self, cache_item: CacheItem)
        ensures
            final(self)@ == old(self)@.insert(cache_item.id, cache_item@),
    {
        let k = slot(&cache_item.id);
        self.by_id.insert(k, cache_item);
    }

    /// Takes the snapshot of an identity out of the store, if it is there.
    pub fn remove(&mut self, id: &AccessibleId)
        ensures
            final(self)@ == old(self)@.remove(*id),
    {
        let k = slot(id);
        self.by_id.remove(&k);
    }

    /// A copy of the snapshot of an identity, if it is in the store.
    pub fn get_by_id(&self, id: &AccessibleId) -> (found: Option<CacheItem>)
        ensures
            view_of(found) == self@.get(*id),
    {
        match self.by_id.get(&slot(id)) {
            Some(item) => Some(copy_into_cache_item(item)),
            None => None,
        }
    }

    /// A copy of the snapshot of what `to_id` converts into. A value that
    /// does not convert into an identity finds nothing.
    pub fn get<T: TryInto<AccessibleId>>(&self, to_id: T) -> (found: Option<CacheItem>)
        ensures
            T::obeys_try_into_spec() ==> view_of(found) == (match T::try_into_spec(to_id) {
                Ok(id) => self@.get(id),
                Err(_) => None,
            }),
            found is Some ==> exists|id: AccessibleId| self@.get(id) == view_of(found),
    {
        match to_id.try_into() {
            Ok(id) => self.get_by_id(&id),
            Err(_) => None,
        }
    }

    /// A copy of the snapshot of each identity of `ids` that is in the store,
    /// in the order of `ids`.
    pub fn get_all(&self, ids: Vec<AccessibleId>) -> (found: Vec<Option<CacheItem>>)
        ensures
            found.len() == ids.len(),
            forall|i: int| 0 <= i < ids.len() ==> view_of(#[trigger] found[i]) == self@.get(ids[i]),
    {
        let mut found: Vec<Option<CacheItem>> = Vec::new();
        let mut i: usize = 0;
        while i < ids.len()
            invariant
                i <= ids.len(),
                found.len() == i,
                forall|j: int| 0 <= j < i ==> view_of(#[trigger] found[j]) == self@.get(ids[j]),
            decreases ids.len() - i,
        {
            found.push(self.get_by_id(&ids[i]));
            i += 1;
        }
        found
    }

    /// Files every snapshot of `cache_items`, in their order, as one step.
    pub fn add_all(&mut self, cache_items: Vec<CacheItem>)
        ensures
            final(self)@ == with_all(old(self)@, views_of(cache_items@)),
    {
        let ghost items = views_of(cache_items@);
        for cache_item in it: cache_items
            invariant
                it.seq() == cache_items@,
                items == views_of(cache_items@),
                self@ == with_all(old(self)@, items.take(it.index() as int)),
        {
            proof {
                let n = it.index() as int;
                assert(items.take(n + 1).drop_last() =~= items.take(n));
            }
            self.add(cache_item);
        }
    }

    /// Takes the snapshot of every identity of `ids` out of the store, as one
    /// step.
    pub fn remove_all(&mut self, ids: Vec<AccessibleId>)
        ensures
            final(self)@ == old(self)@.remove_keys(ids@.to_set()),
    {
        let mut i: usize = 0;
        while i < ids.len()
            invariant
                i <= ids.len(),
                self@ == old(self)@.remove_keys(ids@.take(i as int).to_set()),
            decreases ids.len() - i,
        {
            self.remove(&ids[i]);
            proof {
                let before = ids@.take(i as int);
                let after = ids@.take(i + 1);
                assert(after =~= before.push(ids[i as int]));
                before.lemma_push_to_set_commute(ids[i as int]);
            }
            i += 1;
        }
        proof {
            assert(ids@.take(ids.len() as int) =~= ids@);
        }
    }

    /// Changes the snapshot of `id` by one call of `modify`, which gets it as
    /// it is in the store and leaves it as it is to be from then on, and says
    /// whether there was one to change. The snapshot stays where it was
    /// filed, whatever `modify` makes of its identity.
    pub fn modify_item<F>(&mut self, id: &AccessibleId, modify: F) -> (found: bool) where
        F: Fn(&mut CacheItem),

        requires
            forall|entry: &mut CacheItem|
                old(self)@.get(*id) == Some((*entry)@) ==> call_requires(modify, (entry,)),
        ensures
            found == old(self)@.contains_key(*id),
            !found ==> final(self)@ == old(self)@,
            found ==> exists|entry: &mut CacheItem|
                {
                    &&& (*entry)@ == old(self)@[*id]
                    &&& #[trigger] call_ensures(modify, (entry,), ())
                    &&& final(self)@ == old(self)@.insert(*id, (*final(entry))@)
                },
    {
        let k = slot(id);
        match self.by_id.remove(&k) {
            Some(cache_item) => {
                let mut cache_item = cache_item;
                assert(old(self)@.get(*id) == Some(cache_item@));
                modify(&mut cache_item);
                self.by_id.insert(k, cache_item);
                true
            },
            None => {
                false
            },
        }
    }

    /// The first step of a request for the snapshot of an element, under
    /// shared access, with the element's identity as it was read from its
    /// path. An identity that was not read ends the request with a conversion
    /// error. A snapshot that is in the store ends it with a copy of that
    /// snapshot, and nothing is asked of the element. Else the element has to
    /// be asked, which is done under no access at all.
    pub fn request(&self, id: Identity) -> (next: Request)
        ensures
            match id {
                Err(reason) => next matches Request::Done(
                    Err(OdiliaError::PrimitiveConversionError(e)),
                ) && e == reason,
                Ok(id) => match self@.get(id) {
                    Some(snapshot) => next matches Request::Done(Ok(cache_item)) && cache_item@
                        == snapshot,
                    None => next is Build,
                },
            },
    {
        match id {
            Err(reason) => Request::Done(Err(OdiliaError::PrimitiveConversionError(reason))),
            Ok(id) => match self.get_by_id(&id) {
                Some(cache_item) => Request::Done(Ok(cache_item)),
                None => Request::Build,
            },
        }
    }

    /// The last step of a request for a snapshot that had to be built, under
    /// exclusive access: files a copy of what the builder made and hands the
    /// snapshot on. A builder's failure is handed on too, and the store stays
    /// as it was.
    pub fn insert_built(&mut self, built: Result<CacheItem, OdiliaError>) -> (outcome: Result<
        CacheItem,
        OdiliaError,
    >)
        ensures
            outcome == built,
            final(self)@ == with_built(old(self)@, built),
    {
        match built {
            Ok(cache_item) => {
                self.add(copy_into_cache_item(&cache_item));
                Ok(cache_item)
            },
            Err(err) => Err(err),
        }
    }

    /// A copy of the snapshot of `id`; where the store has none, `build` is
    /// called, once, and what it made is filed and handed on. This is for a
    /// builder that answers at once: the store is not to be had by anyone
    /// else while `build` runs.
    pub fn get_or_create<F>(&mut self, id: &AccessibleId, build: F) -> (outcome: Result<
        CacheItem,
        OdiliaError,
    >) where F: FnOnce() -> Result<CacheItem, OdiliaError>
        requires
            !old(self)@.contains_key(*id) ==> call_requires(build, ()),
        ensures
            old(self)@.contains_key(*id) ==> {
                &&& final(self)@ == old(self)@
                &&& outcome matches Ok(cache_item) && cache_item@ == old(self)@[*id]
            },
            !old(self)@.contains_key(*id) ==> {
                &&& call_ensures(build, (), outcome)
                &&& final(self)@ == with_built(old(self)@, outcome)
            },
    {
        match self.request(Ok(*id)) {
            Request::Done(outcome) => outcome,
            Request::Build => {
                let built = build();
                self.insert_built(built)
            },
        }
    }
}

impl Default for Cache {
    fn default() -> (cache: Self)
        ensures
            cache@ == Entries::empty(),
    {
        Cache::new()
    }
}

} // verus!
