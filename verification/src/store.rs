use crate::data::{clone_of, diff, diff_spec, owned, unchanged, Data};
use crate::entity::Entity;
use crate::hierarchy::Hierarchy;
use crate::lens::Lens;
use crate::lookup::{closest_model, find_model};
use crate::registry::{ModelData, ModelRegistry};
use vstd::prelude::*;

verus! {

/// The observers of a store that has none.
pub open spec fn no_observers() -> Seq<Entity> {
    Seq::empty()
}

/// The observers after `observer` has asked to be one: it is appended
/// unless it is there already.
pub open spec fn with_observer(observers: Seq<Entity>, observer: Entity) -> Seq<Entity> {
    if observers.contains(observer) {
        observers
    } else {
        observers.push(observer)
    }
}

/// The observers after `observer` has left: it is taken out where it is
/// there.
pub open spec fn without_observer(observers: Seq<Entity>, observer: Entity) -> Seq<Entity> {
    if observers.contains(observer) {
        observers.remove(observers.index_of(observer))
    } else {
        observers
    }
}

/// The observers after each of `entities` has asked in turn to be one.
pub open spec fn with_observers(observers: Seq<Entity>, entities: Seq<Entity>) -> Seq<Entity>
    decreases entities.len(),
{
    if entities.len() == 0 {
        observers
    } else {
        with_observer(with_observers(observers, entities.drop_last()), entities.last())
    }
}

/// A binding record behind one interface, whatever its lens and target.
pub trait Store {
    /// The stored form of the models that the binding reads.
    type Model: ModelData;

    /// The record's invariant: no observer is listed twice.
    spec fn wf(&self) -> bool;

    /// The observers, in the order in which they are notified.
    spec fn observer_list(&self) -> Seq<Entity>;

    /// The entity that declared the binding.
    spec fn declaring_entity(&self) -> Entity;

    /// The type key of the model that the binding reads.
    spec fn source_key(&self) -> u64;

    /// How one update pass takes the record from `self` to `after`, given
    /// the model that the hierarchy walk found, and whether it reports a
    /// change.
    spec fn update_outcome(&self, found: Option<Self::Model>, after: &Self, changed: bool) -> bool;

    /// In a valid record no observer is listed twice.
    proof fn lemma_observers_distinct(&self)
        requires
            self.wf(),
        ensures
            self.observer_list().no_duplicates(),
    ;

    /// Re-evaluates the binding against the model closest to `entity` and
    /// reports whether the bound value changed. The first value seen counts
    /// as a change from the empty cache.
    fn update(
        &mut self,
        data: &ModelRegistry<Self::Model>,
        tree: &Hierarchy,
        entity: Entity,
    ) -> (changed: bool)
        requires
            old(self).wf(),
            data.wf(),
        ensures
            final(self).wf(),
            old(self).update_outcome(
                closest_model(data, tree, old(self).source_key(), entity),
                final(self),
                changed,
            ),
            final(self).observer_list() == old(self).observer_list(),
            final(self).declaring_entity() == old(self).declaring_entity(),
            final(self).source_key() == old(self).source_key(),
    ;

    /// The observers.
    fn observers(&self) -> (observers: &Vec<Entity>)
        ensures
            observers@ == self.observer_list(),
    ;

    /// Makes `observer` an observer; nothing changes where it is one.
    fn add_observer(&mut self, observer: Entity)
        requires
            old(self).wf(),
        ensures
            final(self).wf(),
            final(self).observer_list() == with_observer(old(self).observer_list(), observer),
            final(self).declaring_entity() == old(self).declaring_entity(),
            final(self).source_key() == old(self).source_key(),
    ;

    /// Takes `observer` out of the observers; nothing changes where it is
    /// none.
    fn remove_observer(&mut self, observer: &Entity)
        requires
            old(self).wf(),
        ensures
            final(self).wf(),
            final(self).observer_list() == without_observer(old(self).observer_list(), *observer),
            final(self).declaring_entity() == old(self).declaring_entity(),
            final(self).source_key() == old(self).source_key(),
    ;

    /// The number of observers.
    fn num_observers(&self) -> (count: usize)
        ensures
            count == self.observer_list().len(),
    ;

    /// The entity that declared the binding.
    fn entity(&self) -> (entity: Entity)
        ensures
            entity == self.declaring_entity(),
    ;
}

/// A lens together with the value it last showed and the entities to notify
/// when that value changes.
pub struct BasicStore<L: Lens, T> {
    /// The entity which declared the binding.
    pub entity: Entity,
    /// The path from the model to the bound value.
    pub lens: L,
    /// The value seen at the last change; nothing before the first.
    pub cache: Option<T>,
    /// The entities to notify, each once.
    pub observers: Vec<Entity>,
}

impl<L, T> BasicStore<L, T> where L: Lens<Target = T>, T: Data {
    /// A record for `lens`, declared by `entity`, that has seen no value and
    /// has no observers.
    pub fn new(entity: Entity, lens: L) -> (store: Self)
        ensures
            store.wf(),
            store.entity == entity,
            store.lens == lens,
            store.cache.is_none(),
            store.observer_list() == no_observers(),
    {
        BasicStore { entity, lens, cache: None, observers: Vec::new() }
    }

    /// The value that the lens shows in the model found, if a model was
    /// found and the path can be followed in it.
    pub open spec fn viewed(&self, found: Option<L::Source>) -> Option<T> {
        match found {
            Some(model) => owned(self.lens.view_spec(&model)),
            None => None,
        }
    }
}

impl<L, T> Store for BasicStore<L, T> where L: Lens<Target = T>, T: Data {
    type Model = L::Source;

    open spec fn wf(&self) -> bool {
        self.observers@.no_duplicates()
    }

    open spec fn observer_list(&self) -> Seq<Entity> {
        self.observers@
    }

    open spec fn declaring_entity(&self) -> Entity {
        self.entity
    }

    open spec fn source_key(&self) -> u64 {
        self.lens.source_key_spec()
    }

    /// Without a model nothing changes. With one, a change is reported
    /// exactly when the cache and the value viewed do not count as
    /// unchanged; the cache then becomes a clone of the value viewed, and
    /// else stays.
    open spec fn update_outcome(&self, found: Option<L::Source>, after: &Self, changed: bool) -> bool {
        &&& after.entity == self.entity
        &&& after.lens == self.lens
        &&& after.observer_list() == self.observer_list()
        &&& changed == (found.is_some() && !unchanged(self.cache, self.viewed(found)))
        &&& changed ==> clone_of(self.viewed(found), after.cache)
        &&& !changed ==> after.cache == self.cache
    }

    proof fn lemma_observers_distinct(&self) {
    }

    fn update(&mut self, data: &ModelRegistry<L::Source>, tree: &Hierarchy, entity: Entity) -> (changed:
        bool) {
        let key: u64 = self.lens.source_key();
        match find_model(data, tree, key, entity) {
            None => false,
            Some(model) => {
                let cache = &self.cache;
                let compare = |current: Option<&T>| -> (r: Option<Option<T>>)
                    ensures
                        diff_spec(*cache, owned(current), r)
                    {
                        diff(cache, current)
                    };
                let replacement = self.lens.view(model, compare);
                match replacement {
                    Some(new_cache) => {
                        self.cache = new_cache;
                        true
                    },
                    None => false,
                }
            },
        }
    }

    fn observers(&self) -> (observers: &Vec<Entity>) {
        &self.observers
    }

    fn add_observer(&mut self, observer: Entity)
        ensures
            final(self).lens == old(self).lens,
            final(self).cache == old(self).cache,
    {
        let mut i: usize = 0;
        while i < self.observers.len()
            invariant
                i <= self.observers@.len(),
                *self == *old(self),
                self.observers@.no_duplicates(),
                forall|j: int| 0 <= j < i ==> self.observers@[j] != observer,
            decreases self.observers@.len() - i,
        {
            if self.observers[i].0 == observer.0 {
                return ;
            }
            i = i + 1;
        }
        self.observers.push(observer);
    }

    fn remove_observer(&mut self, observer: &Entity)
        ensures
            final(self).lens == old(self).lens,
            final(self).cache == old(self).cache,
    {
        let mut i: usize = 0;
        while i < self.observers.len()
            invariant
                i <= self.observers@.len(),
                *self == *old(self),
                self.observers@.no_duplicates(),
                forall|j: int| 0 <= j < i ==> self.observers@[j] != *observer,
            decreases self.observers@.len() - i,
        {
            if self.observers[i].0 == observer.0 {
                proof {
                    let list = self.observers@;
                    assert(list[i as int] == *observer);
                    assert(list.contains(*observer));
                    let at = list.index_of(*observer);
                    assert(0 <= at < list.len() && list[at] == *observer);
                    assert(at == i);
                    let rest = list.remove(i as int);
                    assert forall|j: int, k: int|
                        0 <= j < rest.len() && 0 <= k < rest.len() && j != k implies rest[j]
                        != rest[k] by {
                        let from_j = if j < i { j } else { j + 1 };
                        let from_k = if k < i { k } else { k + 1 };
                        assert(rest[j] == list[from_j]);
                        assert(rest[k] == list[from_k]);
                    }
                }
                self.observers.remove(i);
                return ;
            }
            i = i + 1;
        }
    }

    fn num_observers(&self) -> (count: usize) {
        self.observers.len()
    }

    fn entity(&self) -> (entity: Entity) {
        self.entity
    }
}

/// The entities that one update pass marks for rebuilding: every observer,
/// once, where a change was reported, and none else.
pub open spec fn dirty_marks(changed: bool, observers: Seq<Entity>) -> Seq<Entity> {
    if changed {
        observers
    } else {
        Seq::empty()
    }
}

/// Appends every observer of `store` to `dirty`, in the order of the list.
pub fn mark_observers<S: Store>(store: &S, dirty: &mut Vec<Entity>)
    ensures
        final(dirty)@ == old(dirty)@ + store.observer_list(),
{
    let observers = store.observers();
    let mut i: usize = 0;
    while i < observers.len()
        invariant
            i <= observers@.len(),
            observers@ == store.observer_list(),
            dirty@ == old(dirty)@ + observers@.take(i as int),
        decreases observers@.len() - i,
    {
        proof {
            assert(observers@.take(i as int + 1) =~= observers@.take(i as int).push(
                observers@[i as int],
            ));
            assert((old(dirty)@ + observers@.take(i as int)).push(observers@[i as int]) =~= old(
                dirty,
            )@ + observers@.take(i as int + 1));
        }
        dirty.push(observers[i]);
        i = i + 1;
    }
    proof {
        assert(observers@.take(i as int) =~= observers@);
    }
}

/// One store's share of an update pass: re-evaluates the binding and, where
/// it reports a change, appends each of its observers to `dirty`.
pub fn update_and_mark<S: Store>(
    store: &mut S,
    data: &ModelRegistry<S::Model>,
    tree: &Hierarchy,
    entity: Entity,
    dirty: &mut Vec<Entity>,
) -> (changed: bool)
    requires
        old(store).wf(),
        data.wf(),
    ensures
        final(store).wf(),
        old(store).update_outcome(
            closest_model(data, tree, old(store).source_key(), entity),
            final(store),
            changed,
        ),
        final(store).observer_list() == old(store).observer_list(),
        final(store).declaring_entity() == old(store).declaring_entity(),
        final(store).source_key() == old(store).source_key(),
        final(dirty)@ == old(dirty)@ + dirty_marks(changed, old(store).observer_list()),
{
    let changed = store.update(data, tree, entity);
    if changed {
        mark_observers(store, dirty);
    } else {
        proof {
            assert(dirty@ + Seq::<Entity>::empty() =~= dirty@);
        }
    }
    changed
}

/// The entities that a pass over the first `count` of `stores` marks, store
/// by store, where `changes` says which of them reported a change.
pub open spec fn pass_marks<S: Store>(stores: Seq<S>, changes: Seq<bool>, count: nat) -> Seq<Entity>
    decreases count,
{
    if count == 0 {
        Seq::empty()
    } else {
        pass_marks(stores, changes, (count - 1) as nat) + dirty_marks(
            changes[count - 1],
            stores[count - 1].observer_list(),
        )
    }
}

/// One update pass: re-evaluates every store once, each from the entity
/// that declared it, and appends to `dirty` the observers of those that
/// report a change. The result says, store by store, whether it did.
pub fn update_pass<S: Store>(
    stores: &mut Vec<S>,
    data: &ModelRegistry<S::Model>,
    tree: &Hierarchy,
    dirty: &mut Vec<Entity>,
) -> (changes: Vec<bool>)
    requires
        data.wf(),
        forall|i: int| 0 <= i < old(stores)@.len() ==> (#[trigger] old(stores)@[i]).wf(),
    ensures
        final(stores)@.len() == old(stores)@.len(),
        changes@.len() == old(stores)@.len(),
        forall|i: int|
            0 <= i < old(stores)@.len() ==> {
                &&& (#[trigger] final(stores)@[i]).wf()
                &&& old(stores)@[i].update_outcome(
                    closest_model(
                        data,
                        tree,
                        old(stores)@[i].source_key(),
                        old(stores)@[i].declaring_entity(),
                    ),
                    &final(stores)@[i],
                    changes@[i],
                )
                &&& final(stores)@[i].observer_list() == old(stores)@[i].observer_list()
                &&& final(stores)@[i].declaring_entity() == old(stores)@[i].declaring_entity()
                &&& final(stores)@[i].source_key() == old(stores)@[i].source_key()
            },
        final(dirty)@ == old(dirty)@ + pass_marks(old(stores)@, changes@, old(stores)@.len()),
{
    let mut changes: Vec<bool> = Vec::new();
    let mut i: usize = 0;
    while i < stores.len()
        invariant
            data.wf(),
            i <= stores@.len(),
            stores@.len() == old(stores)@.len(),
            changes@.len() == i,
            forall|j: int| i <= j < stores@.len() ==> stores@[j] == old(stores)@[j],
            forall|j: int| 0 <= j < old(stores)@.len() ==> (#[trigger] old(stores)@[j]).wf(),
            forall|j: int|
                0 <= j < i ==> {
                    &&& (#[trigger] stores@[j]).wf()
                    &&& old(stores)@[j].update_outcome(
                        closest_model(
                            data,
                            tree,
                            old(stores)@[j].source_key(),
                            old(stores)@[j].declaring_entity(),
                        ),
                        &stores@[j],
                        changes@[j],
                    )
                    &&& stores@[j].observer_list() == old(stores)@[j].observer_list()
                    &&& stores@[j].declaring_entity() == old(stores)@[j].declaring_entity()
                    &&& stores@[j].source_key() == old(stores)@[j].source_key()
                },
            dirty@ == old(dirty)@ + pass_marks(old(stores)@, changes@, i as nat),
        decreases stores@.len() - i,
    {
        let ghost before = stores@;
        let ghost earlier = changes@;
        let ghost marked = dirty@;
        let entity = stores[i].entity();
        let changed = update_and_mark(&mut stores[i], data, tree, entity, dirty);
        changes.push(changed);
        proof {
            assert(forall|j: int| 0 <= j < stores@.len() && j != i ==> stores@[j] == before[j]);
            lemma_pass_marks_prefix(old(stores)@, earlier, changes@, i as nat);
            assert(dirty@ =~= old(dirty)@ + pass_marks(old(stores)@, changes@, (i + 1) as nat));
        }
        i = i + 1;
    }
    changes
}

/// The marks of the first `count` stores depend on the first `count`
/// reports alone.
pub proof fn lemma_pass_marks_prefix<S: Store>(
    stores: Seq<S>,
    shorter: Seq<bool>,
    longer: Seq<bool>,
    count: nat,
)
    requires
        count <= shorter.len() <= longer.len(),
        forall|j: int| 0 <= j < count ==> shorter[j] == longer[j],
    ensures
        pass_marks(stores, shorter, count) == pass_marks(stores, longer, count),
    decreases count,
{
    if count > 0 {
        lemma_pass_marks_prefix(stores, shorter, longer, (count - 1) as nat);
    }
}

/// A second update against the same model reports no change and leaves the
/// cache as the first update left it, provided that the clone which the
/// first update cached counts as the same as the value it was taken from.
pub proof fn lemma_repeated_update_is_noop<L, T>(
    before: &BasicStore<L, T>,
    between: &BasicStore<L, T>,
    after: &BasicStore<L, T>,
    found: Option<L::Source>,
    changed_first: bool,
    changed_second: bool,
) where L: Lens<Target = T>, T: Data
    requires
        before.update_outcome(found, between, changed_first),
        between.update_outcome(found, after, changed_second),
        changed_first && before.viewed(found).is_some() ==> between.cache.unwrap().same_spec(
            &before.viewed(found).unwrap(),
        ),
    ensures
        !changed_second,
        after.cache == between.cache,
{
}

/// A change is reported exactly when a model was found and the value viewed
/// in it does not count as unchanged against the cache.
pub proof fn lemma_change_detection<L, T>(
    before: &BasicStore<L, T>,
    after: &BasicStore<L, T>,
    model: L::Source,
    changed: bool,
) where L: Lens<Target = T>, T: Data
    requires
        before.update_outcome(Some(model), after, changed),
    ensures
        changed == !unchanged(before.cache, owned(before.lens.view_spec(&model))),
{
}

/// Entities that are pairwise distinct, added in turn to a store without
/// observers, make up its observers: each is listed, and so marked, once.
pub proof fn lemma_fan_out(entities: Seq<Entity>)
    requires
        entities.no_duplicates(),
    ensures
        with_observers(Seq::empty(), entities) == entities,
    decreases entities.len(),
{
    if entities.len() == 0 {
        assert(entities =~= Seq::empty());
    } else {
        let front = entities.drop_last();
        lemma_fan_out(front);
        assert(!front.contains(entities.last()));
        assert(front.push(entities.last()) =~= entities);
    }
}

/// Adding an observer a second time changes nothing.
pub proof fn lemma_add_observer_idempotent(observers: Seq<Entity>, observer: Entity)
    ensures
        with_observer(with_observer(observers, observer), observer) == with_observer(
            observers,
            observer,
        ),
{
    if !observers.contains(observer) {
        let added = observers.push(observer);
        assert(added[observers.len() as int] == observer);
    }
}

/// Removing an entity that is no observer changes nothing.
pub proof fn lemma_remove_absent_observer(observers: Seq<Entity>, observer: Entity)
    requires
        !observers.contains(observer),
    ensures
        without_observer(observers, observer) == observers,
{
}

} // verus!
