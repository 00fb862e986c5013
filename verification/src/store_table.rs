use crate::entity::Entity;
use crate::hierarchy::Hierarchy;
use crate::lookup::closest_model;
use crate::registry::ModelRegistry;
use crate::store::{pass_marks, update_pass, Store};
use crate::uuid::StoreId;
use vstd::prelude::*;

verus! {

/// The stores of an application, each under its identity, in the order in
/// which an update pass visits them.
pub struct StoreTable<S: Store> {
    pub ids: Vec<StoreId>,
    pub stores: Vec<S>,
}

impl<S: Store> StoreTable<S> {
    /// Each identity stands for one store, no identity occurs twice, and
    /// every store is valid.
    pub open spec fn wf(&self) -> bool {
        &&& self.ids@.len() == self.stores@.len()
        &&& self.ids@.no_duplicates()
        &&& forall|i: int| 0 <= i < self.stores@.len() ==> (#[trigger] self.stores@[i]).wf()
    }

    /// Whether a store stands under `id`.
    pub open spec fn contains(&self, id: StoreId) -> bool {
        self.ids@.contains(id)
    }

    /// The store under `id`.
    pub open spec fn store_of(&self, id: StoreId) -> S
        recommends
            self.contains(id),
    {
        self.stores@[self.ids@.index_of(id)]
    }

    /// A table without stores.
    pub fn new() -> (table: Self)
        ensures
            table.wf(),
            table.ids@.len() == 0,
    {
        StoreTable { ids: Vec::new(), stores: Vec::new() }
    }

    /// The number of stores.
    pub fn len(&self) -> (count: usize)
        ensures
            count == self.ids@.len(),
    {
        self.ids.len()
    }

    /// The place of the store under `id`, if there is one.
    pub fn position(&self, id: StoreId) -> (place: Option<usize>)
        requires
            self.wf(),
        ensures
            place.is_some() == self.contains(id),
            place.is_some() ==> place.unwrap() == self.ids@.index_of(id),
            place.is_some() ==> place.unwrap() < self.ids@.len(),
    {
        let mut i: usize = 0;
        while i < self.ids.len()
            invariant
                self.wf(),
                i <= self.ids@.len(),
                forall|j: int| 0 <= j < i ==> self.ids@[j] != id,
            decreases self.ids@.len() - i,
        {
            if self.ids[i] == id {
                proof {
                    assert(self.ids@[i as int] == id);
                    assert(self.ids@.contains(id));
                    let at = self.ids@.index_of(id);
                    assert(0 <= at < self.ids@.len() && self.ids@[at] == id);
                }
                return Some(i);
            }
            i = i + 1;
        }
        None
    }

    /// The store under `id`, if there is one.
    pub fn get(&self, id: StoreId) -> (found: Option<&S>)
        requires
            self.wf(),
        ensures
            found.is_some() == self.contains(id),
            found.is_some() ==> *found.unwrap() == self.store_of(id),
    {
        match self.position(id) {
            Some(place) => Some(&self.stores[place]),
            None => None,
        }
    }

    /// Puts `store` under `id`: in the place of the store that stood there,
    /// or, where none did, behind all others.
    pub fn insert(&mut self, id: StoreId, store: S)
        requires
            old(self).wf(),
            store.wf(),
        ensures
            final(self).wf(),
            final(self).contains(id),
            final(self).store_of(id) == store,
            old(self).contains(id) ==> final(self).ids@ == old(self).ids@,
            old(self).contains(id) ==> final(self).stores@ == old(self).stores@.update(
                old(self).ids@.index_of(id),
                store,
            ),
            !old(self).contains(id) ==> final(self).ids@ == old(self).ids@.push(id),
            !old(self).contains(id) ==> final(self).stores@ == old(self).stores@.push(store),
    {
        match self.position(id) {
            Some(place) => {
                self.stores.set(place, store);
            },
            None => {
                self.ids.push(id);
                self.stores.push(store);
                proof {
                    let last = old(self).ids@.len() as int;
                    assert(self.ids@[last] == id);
                    assert(self.ids@.contains(id));
                    let at = self.ids@.index_of(id);
                    assert(0 <= at < self.ids@.len() && self.ids@[at] == id);
                    assert(at == last);
                }
            },
        }
    }

    /// Takes the store under `id` out of the table and returns it, if there
    /// is one. The others keep their order.
    pub fn remove(&mut self, id: StoreId) -> (removed: Option<S>)
        requires
            old(self).wf(),
        ensures
            final(self).wf(),
            removed.is_some() == old(self).contains(id),
            !final(self).contains(id),
            removed.is_some() ==> removed.unwrap() == old(self).store_of(id),
            removed.is_some() ==> final(self).ids@ == old(self).ids@.remove(
                old(self).ids@.index_of(id),
            ),
            removed.is_some() ==> final(self).stores@ == old(self).stores@.remove(
                old(self).ids@.index_of(id),
            ),
            removed.is_none() ==> final(self).ids@ == old(self).ids@,
            removed.is_none() ==> final(self).stores@ == old(self).stores@,
    {
        match self.position(id) {
            Some(place) => {
                proof {
                    let ids = self.ids@;
                    let rest = ids.remove(place as int);
                    assert forall|j: int| 0 <= j < rest.len() implies rest[j] == ids[if j
                        < place {
                        j
                    } else {
                        j + 1
                    }] by {}
                    assert(rest.no_duplicates());
                    assert(!rest.contains(id));
                }
                self.ids.remove(place);
                let store = self.stores.remove(place);
                Some(store)
            },
            None => None,
        }
    }

    /// One update pass over the table: every store is re-evaluated once,
    /// from the entity that declared it, and the observers of those that
    /// report a change are appended to `dirty`.
    pub fn update(
        &mut self,
        data: &ModelRegistry<S::Model>,
        tree: &Hierarchy,
        dirty: &mut Vec<Entity>,
    ) -> (changes: Vec<bool>)
        requires
            old(self).wf(),
            data.wf(),
        ensures
            final(self).wf(),
            final(self).ids@ == old(self).ids@,
            changes@.len() == old(self).stores@.len(),
            forall|i: int|
                0 <= i < old(self).stores@.len() ==> {
                    &&& old(self).stores@[i].update_outcome(
                        closest_model(
                            data,
                            tree,
                            old(self).stores@[i].source_key(),
                            old(self).stores@[i].declaring_entity(),
                        ),
                        &final(self).stores@[i],
                        #[trigger] changes@[i],
                    )
                    &&& final(self).stores@[i].observer_list()
                        == old(self).stores@[i].observer_list()
                },
            final(dirty)@ == old(dirty)@ + pass_marks(
                old(self).stores@,
                changes@,
                old(self).stores@.len(),
            ),
    {
        update_pass(&mut self.stores, data, tree, dirty)
    }
}

} // verus!
