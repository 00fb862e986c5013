use vstd::prelude::*;

verus! {

/// Source of binding identifiers: a counter that hands out each value once
/// per cycle of the 64-bit range.
pub struct UuidGenerator {
    pub next: u64,
}

impl UuidGenerator {
    /// A generator whose first identifier is zero.
    pub fn new() -> (r: Self)
        ensures
            r.next == 0,
    {
        UuidGenerator { next: 0 }
    }
}

/// The value that follows `n` in the cycle of 64-bit identifiers.
pub open spec fn successor(n: u64) -> u64 {
    if n == u64::MAX {
        0
    } else {
        (n + 1) as u64
    }
}

/// Hands out the generator's current identifier and steps the generator to
/// its successor.
pub fn next_uuid(generator: &mut UuidGenerator) -> (id: u64)
    ensures
        id == old(generator).next,
        final(generator).next == successor(id),
{
    let id: u64 = generator.next;
    generator.next = if id == u64::MAX { 0 } else { id + 1 };
    id
}

/// Identity of a store: the type key of the model it binds, for the one
/// canonical binding of that type, or a generated identifier.
#[derive(Clone, Copy, Debug, PartialEq, Eq, Structural, Hash)]
pub enum StoreId {
    /// The canonical binding of the model type with this key.
    Type(u64),
    /// An independent binding.
    UUID(u64),
}

impl StoreId {
    /// The identity of a new independent binding.
    pub fn unique(generator: &mut UuidGenerator) -> (id: StoreId)
        ensures
            id == StoreId::UUID(old(generator).next),
            final(generator).next == successor(old(generator).next),
    {
        StoreId::UUID(next_uuid(generator))
    }
}

/// An identifier differs from the one handed out just before it, and is the
/// next number as long as the range has not run out.
pub proof fn lemma_successive_ids(first: u64)
    ensures
        successor(first) != first,
        first < u64::MAX ==> successor(first) == first + 1,
{
}

/// The identifier handed out `count` calls after the generator stood at
/// `start`.
pub open spec fn nth_id(start: u64, count: nat) -> u64
    decreases count,
{
    if count == 0 {
        start
    } else {
        successor(nth_id(start, (count - 1) as nat))
    }
}

/// Until the 64-bit range runs out the identifiers count up one by one, so
/// that no two of them are equal.
pub proof fn lemma_ids_count_up(start: u64, count: nat)
    requires
        start + count <= u64::MAX,
    ensures
        nth_id(start, count) == start + count,
    decreases count,
{
    if count > 0 {
        lemma_ids_count_up(start, (count - 1) as nat);
    }
}

} // verus!
