use crate::entity::Entity;
use std::collections::HashMap;
use vizia_storage::SparseSet;
use vstd::prelude::*;

verus! {

broadcast use vstd::std_specs::hash::group_hash_axioms;

/// A value that can be stored type-erased: it reports the key of the
/// concrete type that it wraps.
pub trait ModelData: Sized {
    /// The key of the wrapped value's type.
    spec fn type_key_spec(&self) -> u64;

    /// The key of the wrapped value's type.
    fn type_key(&self) -> (key: u64)
        ensures
            key == self.type_key_spec(),
    ;
}

/// A model together with the key of its type.
pub struct Keyed<T> {
    pub key: u64,
    pub model: T,
}

impl<T> Keyed<T> {
    /// Wraps `model` as a value of the type with the key `key`.
    pub fn new(key: u64, model: T) -> (keyed: Self)
        ensures
            keyed.key == key,
            keyed.model == model,
    {
        Keyed { key, model }
    }
}

impl<T> ModelData for Keyed<T> {
    open spec fn type_key_spec(&self) -> u64 {
        self.key
    }

    fn type_key(&self) -> (key: u64) {
        self.key
    }
}

/// For each entity that has models, the place of its type map: a
/// `vizia_storage::SparseSet` from the entity's index to a position.
#[verifier::external_body]
pub struct EntitySlots {
    set: SparseSet<usize>,
}

/// What a slot table holds: from the index of an entity to the position
/// stored for it.
pub uninterp spec fn entity_slots(slots: EntitySlots) -> Map<nat, usize>;

/// The slot table that holds nothing.
pub open spec fn no_slots() -> Map<nat, usize> {
    Map::empty()
}

/// The position stored for `entity`, if any.
pub open spec fn slot_in(slots: Map<nat, usize>, entity: Entity) -> Option<usize> {
    if slots.contains_key(entity.index_spec()) {
        Some(slots[entity.index_spec()])
    } else {
        None
    }
}

/// `SparseSet::new`: an empty set.
#[verifier::external_body]
fn slots_new() -> (made: EntitySlots)
    ensures
        entity_slots(made) == no_slots(),
{
    EntitySlots { set: SparseSet::new() }
}

/// `SparseSet::get`: the value stored under the key's index, if any.
#[verifier::external_body]
fn slots_get(slots: &EntitySlots, entity: Entity) -> (position: Option<usize>)
    ensures
        position == slot_in(entity_slots(*slots), entity),
{
    slots.set.get(entity).copied()
}

/// `SparseSet::insert`: stores the value under the key's index, in place of
/// any value stored there before. It panics on the null key, which the
/// precondition leaves out.
#[verifier::external_body]
fn slots_insert(slots: &mut EntitySlots, entity: Entity, position: usize)
    requires
        !entity.is_null_spec(),
    ensures
        entity_slots(*final(slots)) == entity_slots(*old(slots)).insert(
            entity.index_spec(),
            position,
        ),
{
    slots.set.insert(entity, position)
}

/// The type map that holds no model.
pub open spec fn no_models<M>() -> Map<u64, M> {
    Map::empty()
}

/// The models of one entity: at most one per type key.
pub type TypeMap<M> = HashMap<u64, M>;

/// Per-entity, type-keyed storage of models.
pub struct ModelRegistry<M> {
    slots: EntitySlots,
    maps: Vec<TypeMap<M>>,
}

impl<M: ModelData> ModelRegistry<M> {
    /// Every stored position addresses a type map, no two entities share
    /// one, and every model sits under the key of its own type.
    pub closed spec fn wf(&self) -> bool {
        &&& forall|i: nat| #[trigger]
            entity_slots(self.slots).contains_key(i) ==> entity_slots(self.slots)[i]
                < self.maps@.len()
        &&& forall|i: nat, j: nat|
            #[trigger] entity_slots(self.slots).contains_key(i) && #[trigger] entity_slots(
                self.slots,
            ).contains_key(j) && i != j ==> entity_slots(self.slots)[i] != entity_slots(
                self.slots,
            )[j]
        &&& forall|p: int, key: u64|
            0 <= p < self.maps@.len() && #[trigger] self.maps@[p]@.contains_key(key)
                ==> self.maps@[p]@[key].type_key_spec() == key
    }

    /// Whether `entity` has a type map.
    pub closed spec fn has_entity(&self, entity: Entity) -> bool {
        entity_slots(self.slots).contains_key(entity.index_spec())
    }

    /// The type map of `entity`; empty where it has none.
    pub closed spec fn models_of(&self, entity: Entity) -> Map<u64, M> {
        if self.has_entity(entity) {
            self.maps@[entity_slots(self.slots)[entity.index_spec()] as int]@
        } else {
            no_models::<M>()
        }
    }

    /// The model of the type `key` that `entity` itself holds, if any.
    pub open spec fn model_at(&self, entity: Entity, key: u64) -> Option<M> {
        if self.models_of(entity).contains_key(key) {
            Some(self.models_of(entity)[key])
        } else {
            None
        }
    }

    /// In a well-formed registry a model's own key is the key it is stored
    /// under.
    pub proof fn lemma_key_matches_type(&self, entity: Entity, key: u64)
        requires
            self.wf(),
            self.models_of(entity).contains_key(key),
        ensures
            self.models_of(entity)[key].type_key_spec() == key,
    {
    }

    /// A registry without models.
    pub fn new() -> (registry: Self)
        ensures
            registry.wf(),
            forall|entity: Entity| !#[trigger] registry.has_entity(entity),
            forall|entity: Entity| #[trigger] registry.models_of(entity) == no_models::<M>(),
    {
        ModelRegistry { slots: slots_new(), maps: Vec::new() }
    }

    /// The type map of `entity`, if it has one.
    pub fn get(&self, entity: Entity) -> (found: Option<&TypeMap<M>>)
        requires
            self.wf(),
        ensures
            found.is_some() == self.has_entity(entity),
            found.is_some() ==> found.unwrap()@ == self.models_of(entity),
    {
        match slots_get(&self.slots, entity) {
            Some(position) => Some(&self.maps[position]),
            None => None,
        }
    }

    /// The model of the type `key` that `entity` itself holds, if any.
    pub fn get_model(&self, entity: Entity, key: u64) -> (found: Option<&M>)
        requires
            self.wf(),
        ensures
            found.is_some() == self.model_at(entity, key).is_some(),
            found.is_some() ==> *found.unwrap() == self.model_at(entity, key).unwrap(),
    {
        match slots_get(&self.slots, entity) {
            Some(position) => self.maps[position].get(&key),
            None => None,
        }
    }

    /// Takes the model of the type `key` away from `entity` and returns it,
    /// if the entity held one.
    pub fn remove_model(&mut self, entity: Entity, key: u64) -> (removed: Option<M>)
        requires
            old(self).wf(),
        ensures
            final(self).wf(),
            removed == old(self).model_at(entity, key),
            final(self).has_entity(entity) == old(self).has_entity(entity),
            final(self).models_of(entity) == old(self).models_of(entity).remove(key),
            forall|other: Entity|
                other.index_spec() != entity.index_spec() ==> {
                    &&& final(self).has_entity(other) == old(self).has_entity(other)
                    &&& #[trigger] final(self).models_of(other) == old(self).models_of(other)
                },
    {
        match slots_get(&self.slots, entity) {
            Some(position) => self.maps[position].remove(&key),
            None => {
                proof {
                    assert(old(self).models_of(entity).remove(key) =~= old(self).models_of(
                        entity,
                    ));
                }
                None
            },
        }
    }

    /// Stores `model` for `entity` under the key of its type, in place of
    /// any model of that type stored for the entity before. Nothing is
    /// stored for the null handle: the call then returns false.
    pub fn insert(&mut self, entity: Entity, model: M) -> (stored: bool)
        requires
            old(self).wf(),
        ensures
            final(self).wf(),
            stored == !entity.is_null_spec(),
            stored ==> final(self).has_entity(entity),
            stored ==> final(self).models_of(entity) == old(self).models_of(entity).insert(
                model.type_key_spec(),
                model,
            ),
            !stored ==> final(self).models_of(entity) == old(self).models_of(entity),
            forall|other: Entity|
                other.index_spec() != entity.index_spec() ==> {
                    &&& final(self).has_entity(other) == old(self).has_entity(other)
                    &&& #[trigger] final(self).models_of(other) == old(self).models_of(other)
                },
    {
        if entity.0 == u64::MAX {
            return false;
        }
        let key: u64 = model.type_key();
        match slots_get(&self.slots, entity) {
            Some(position) => {
                self.maps[position].insert(key, model);
            },
            None => {
                let position: usize = self.maps.len();
                let mut fresh: HashMap<u64, M> = HashMap::new();
                fresh.insert(key, model);
                self.maps.push(fresh);
                slots_insert(&mut self.slots, entity, position);
            },
        }
        true
    }
}

} // verus!
