use crate::entity::Entity;
use vizia_storage::{Tree, TreeError};
use vstd::prelude::*;

verus! {

/// The parent links of the interface tree, kept in a `vizia_storage::Tree`.
#[verifier::external_body]
pub struct Hierarchy {
    tree: Tree<Entity>,
}

/// The parent links that a hierarchy holds: from the index of an entity to
/// the entity recorded as its parent.
pub uninterp spec fn hierarchy_parents(hierarchy: Hierarchy) -> Map<nat, Entity>;

/// The number of index slots that a hierarchy has allocated.
pub uninterp spec fn hierarchy_size(hierarchy: Hierarchy) -> nat;

/// Why an entity could not be added to a hierarchy.
#[derive(Clone, Copy, Debug, PartialEq, Eq, Structural)]
pub enum HierarchyError {
    /// The entity or the parent is the null handle.
    NullEntity,
    /// The parent's index lies outside the hierarchy.
    InvalidParent,
    /// The entity's index already has a parent.
    AlreadyPresent,
    /// The tree reported a fault that adding cannot cause.
    Unexpected,
}

/// The links of a hierarchy in which no entity has a parent.
pub open spec fn no_links() -> Map<nat, Entity> {
    Map::empty()
}

/// The parent recorded for `entity`, if any.
pub open spec fn parent_in(parents: Map<nat, Entity>, entity: Entity) -> Option<Entity> {
    if parents.contains_key(entity.index_spec()) {
        Some(parents[entity.index_spec()])
    } else {
        None
    }
}

/// The entities met on the way up from `start`: `start` itself, then its
/// parent, and so on, following at most `steps` links.
pub open spec fn parent_chain(parents: Map<nat, Entity>, start: Entity, steps: nat) -> Seq<Entity>
    decreases steps,
{
    if steps == 0 {
        seq![start]
    } else {
        match parent_in(parents, start) {
            Some(parent) => seq![start] + parent_chain(parents, parent, (steps - 1) as nat),
            None => seq![start],
        }
    }
}

/// `Tree::new`: a tree of one slot, the root's, with no parent link.
#[verifier::external_body]
fn tree_new() -> (made: Hierarchy)
    ensures
        hierarchy_parents(made) == no_links(),
        hierarchy_size(made) == 1,
{
    Hierarchy { tree: Tree::new() }
}

/// `Tree::get_parent`: the link stored in the slot of the entity's index, or
/// nothing where the index has no slot or the slot no link.
#[verifier::external_body]
pub(crate) fn tree_parent(hierarchy: &Hierarchy, entity: Entity) -> (parent: Option<Entity>)
    ensures
        parent == parent_in(hierarchy_parents(*hierarchy), entity),
{
    hierarchy.tree.get_parent(entity)
}

/// The length of the tree's `parent` vector, which has one slot per index.
#[verifier::external_body]
pub(crate) fn tree_size(hierarchy: &Hierarchy) -> (size: usize)
    ensures
        size == hierarchy_size(*hierarchy),
{
    hierarchy.tree.parent.len()
}

/// `Tree::add`: refuses a null handle, then a parent whose index has no slot;
/// otherwise grows the slots to hold the entity's index and records the link.
/// The sibling lists stay finite as long as no index is added twice, which
/// the precondition asks for; `add` walks them and would not return from a
/// cyclic one.
#[verifier::external_body]
fn tree_add(hierarchy: &mut Hierarchy, entity: Entity, parent: Entity) -> (result: Result<
    (),
    HierarchyError,
>)
    requires
        !hierarchy_parents(*old(hierarchy)).contains_key(entity.index_spec()),
    ensures
        result == add_outcome(*old(hierarchy), entity, parent),
        result.is_ok() ==> hierarchy_parents(*final(hierarchy)) == hierarchy_parents(
            *old(hierarchy),
        ).insert(entity.index_spec(), parent),
        result.is_ok() ==> hierarchy_size(*final(hierarchy)) == grown_size(
            hierarchy_size(*old(hierarchy)),
            entity,
        ),
        result.is_err() ==> hierarchy_parents(*final(hierarchy)) == hierarchy_parents(
            *old(hierarchy),
        ),
        result.is_err() ==> hierarchy_size(*final(hierarchy)) == hierarchy_size(*old(hierarchy)),
{
    match hierarchy.tree.add(entity, parent) {
        Ok(()) => Ok(()),
        Err(TreeError::NullEntity) => Err(HierarchyError::NullEntity),
        Err(TreeError::InvalidParent) => Err(HierarchyError::InvalidParent),
        Err(_) => Err(HierarchyError::Unexpected),
    }
}

/// The number of slots after an entity has been given one.
pub open spec fn grown_size(size: nat, entity: Entity) -> nat {
    if entity.index_spec() >= size {
        entity.index_spec() + 1
    } else {
        size
    }
}

/// What adding a fresh entity under `parent` reports.
pub open spec fn add_outcome(hierarchy: Hierarchy, entity: Entity, parent: Entity) -> Result<
    (),
    HierarchyError,
> {
    if entity.is_null_spec() || parent.is_null_spec() {
        Err(HierarchyError::NullEntity)
    } else if parent.index_spec() >= hierarchy_size(hierarchy) {
        Err(HierarchyError::InvalidParent)
    } else {
        Ok(())
    }
}

impl Hierarchy {
    /// The parent links, by the child's index.
    pub open spec fn parents(&self) -> Map<nat, Entity> {
        hierarchy_parents(*self)
    }

    /// The number of index slots.
    pub open spec fn size(&self) -> nat {
        hierarchy_size(*self)
    }

    /// Every entity that has a parent has a slot.
    pub open spec fn wf(&self) -> bool {
        forall|i: nat| #[trigger] self.parents().contains_key(i) ==> i < self.size()
    }

    /// The chain of entities from `start` upwards, closest first. It follows
    /// at most as many links as the hierarchy has slots, so it ends even
    /// where the links run in a circle.
    pub open spec fn ancestors_spec(&self, start: Entity) -> Seq<Entity> {
        parent_chain(self.parents(), start, self.size())
    }

    /// A hierarchy that holds the root alone.
    pub fn new() -> (hierarchy: Self)
        ensures
            hierarchy.wf(),
            hierarchy.parents() == no_links(),
            hierarchy.size() == 1,
    {
        tree_new()
    }

    /// The parent of `entity`, if one is recorded.
    pub fn parent(&self, entity: Entity) -> (parent: Option<Entity>)
        ensures
            parent == parent_in(self.parents(), entity),
    {
        tree_parent(self, entity)
    }

    /// Records `entity` as a child of `parent`. An index that already has a
    /// parent is refused, as are a null handle and a parent outside the
    /// hierarchy; the hierarchy is then left as it was.
    pub fn add(&mut self, entity: Entity, parent: Entity) -> (result: Result<(), HierarchyError>)
        ensures
            result == (if old(self).parents().contains_key(entity.index_spec()) {
                Err(HierarchyError::AlreadyPresent)
            } else {
                add_outcome(*old(self), entity, parent)
            }),
            result.is_ok() ==> final(self).parents() == old(self).parents().insert(
                entity.index_spec(),
                parent,
            ),
            result.is_ok() ==> final(self).size() == grown_size(old(self).size(), entity),
            result.is_err() ==> final(self).parents() == old(self).parents(),
            result.is_err() ==> final(self).size() == old(self).size(),
            old(self).wf() ==> final(self).wf(),
    {
        if tree_parent(self, entity).is_some() {
            return Err(HierarchyError::AlreadyPresent);
        }
        let result = tree_add(self, entity, parent);
        proof {
            if old(self).wf() && result.is_ok() {
                assert forall|i: nat| #[trigger] self.parents().contains_key(i) implies i
                    < self.size() by {
                    if i != entity.index_spec() {
                        assert(old(self).parents().contains_key(i));
                    }
                }
            }
        }
        result
    }

    /// The entities from `start` upwards, closest first.
    pub fn ancestors(&self, start: Entity) -> (chain: Vec<Entity>)
        ensures
            chain@ == self.ancestors_spec(start),
    {
        let limit: usize = tree_size(self);
        let mut chain: Vec<Entity> = Vec::new();
        chain.push(start);
        let mut current: Entity = start;
        let mut steps: usize = 0;
        while steps < limit
            invariant
                steps <= limit,
                limit == self.size(),
                chain@.len() > 0,
                chain@.last() == current,
                self.ancestors_spec(start) == chain@.drop_last() + parent_chain(
                    self.parents(),
                    current,
                    (limit - steps) as nat,
                ),
            decreases limit - steps,
        {
            match tree_parent(self, current) {
                Some(parent) => {
                    proof {
                        let rest = parent_chain(
                            self.parents(),
                            parent,
                            (limit - steps - 1) as nat,
                        );
                        assert(parent_chain(self.parents(), current, (limit - steps) as nat)
                            == seq![current] + rest);
                        assert(chain@.push(parent).drop_last() =~= chain@);
                        assert(chain@ =~= chain@.drop_last().push(current));
                        assert(chain@.drop_last() + (seq![current] + rest) =~= chain@ + rest);
                        assert(rest.len() > 0 && rest[0] == parent);
                    }
                    chain.push(parent);
                    current = parent;
                    steps = steps + 1;
                },
                None => {
                    proof {
                        assert(parent_chain(self.parents(), current, (limit - steps) as nat)
                            == seq![current]);
                        assert(chain@ =~= chain@.drop_last().push(current));
                        assert(chain@.drop_last() + seq![current] =~= chain@);
                    }
                    return chain;
                },
            }
        }
        proof {
            assert(parent_chain(self.parents(), current, 0) == seq![current]);
            assert(chain@ =~= chain@.drop_last().push(current));
            assert(chain@.drop_last() + seq![current] =~= chain@);
        }
        chain
    }
}

} // verus!
