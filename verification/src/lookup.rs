use crate::data::owned;
use crate::entity::Entity;
use crate::hierarchy::{parent_in, tree_parent, tree_size, Hierarchy};
use crate::registry::{ModelData, ModelRegistry};
use vstd::prelude::*;

verus! {

/// The model of the type `key` that is closest to `start`: that of `start`
/// itself if it holds one, else that of the closest ancestor that does,
/// looking at most `steps` links up.
pub open spec fn resolve<M: ModelData>(
    registry: &ModelRegistry<M>,
    parents: Map<nat, Entity>,
    key: u64,
    start: Entity,
    steps: nat,
) -> Option<M>
    decreases steps,
{
    match registry.model_at(start, key) {
        Some(model) => Some(model),
        None => {
            if steps == 0 {
                None
            } else {
                match parent_in(parents, start) {
                    Some(parent) => resolve(registry, parents, key, parent, (steps - 1) as nat),
                    None => None,
                }
            }
        },
    }
}

/// The model of the type `key` that a binding declared at `start` sees. The
/// walk follows at most as many links as the hierarchy has slots.
pub open spec fn closest_model<M: ModelData>(
    registry: &ModelRegistry<M>,
    hierarchy: &Hierarchy,
    key: u64,
    start: Entity,
) -> Option<M> {
    resolve(registry, hierarchy.parents(), key, start, hierarchy.size())
}

/// Walks from `start` up through its ancestors and returns the first model
/// of the type `key` that it meets.
pub fn find_model<'a, M: ModelData>(
    registry: &'a ModelRegistry<M>,
    hierarchy: &Hierarchy,
    key: u64,
    start: Entity,
) -> (found: Option<&'a M>)
    requires
        registry.wf(),
    ensures
        owned(found) == closest_model(registry, hierarchy, key, start),
{
    let limit: usize = tree_size(hierarchy);
    let mut current: Entity = start;
    let mut steps: usize = 0;
    loop
        invariant
            registry.wf(),
            steps <= limit,
            limit == hierarchy.size(),
            closest_model(registry, hierarchy, key, start) == resolve(
                registry,
                hierarchy.parents(),
                key,
                current,
                (limit - steps) as nat,
            ),
        decreases limit - steps,
    {
        let here: Option<&'a M> = registry.get_model(current, key);
        if here.is_some() {
            return here;
        }
        if steps == limit {
            return None;
        }
        match tree_parent(hierarchy, current) {
            Some(parent) => {
                current = parent;
                steps = steps + 1;
            },
            None => {
                return None;
            },
        }
    }
}

/// Closest ancestor wins: where `child` holds no model of the type and its
/// parent does, the binding sees the parent's model, whatever the entities
/// further up hold.
pub proof fn lemma_closest_ancestor_wins<M: ModelData>(
    registry: &ModelRegistry<M>,
    hierarchy: &Hierarchy,
    key: u64,
    child: Entity,
    parent: Entity,
)
    requires
        hierarchy.wf(),
        parent_in(hierarchy.parents(), child) == Some(parent),
        registry.model_at(child, key).is_none(),
        registry.model_at(parent, key).is_some(),
    ensures
        closest_model(registry, hierarchy, key, child) == registry.model_at(parent, key),
{
    assert(hierarchy.parents().contains_key(child.index_spec()));
    let steps = hierarchy.size();
    assert(steps > 0);
    assert(resolve(registry, hierarchy.parents(), key, parent, (steps - 1) as nat)
        == registry.model_at(parent, key));
}

/// An entity's own model wins over every ancestor's.
pub proof fn lemma_own_model_wins<M: ModelData>(
    registry: &ModelRegistry<M>,
    hierarchy: &Hierarchy,
    key: u64,
    start: Entity,
)
    requires
        registry.model_at(start, key).is_some(),
    ensures
        closest_model(registry, hierarchy, key, start) == registry.model_at(start, key),
{
}

} // verus!
