use vstd::prelude::*;
use vizia_id::GenerationalId;

verus! {

/// Mask of the low 48 bits of a handle, which hold its index.
pub const INDEX_MASK: u64 = 0xffff_ffff_ffff;

/// Mask of a generation once shifted down: 16 bits.
pub const GENERATION_MASK: u64 = 0xffff;

/// Handle of one node of the interface tree: an index in the low 48 bits and
/// a generation in the high 16.
#[derive(Clone, Copy, Debug, PartialEq, Eq, Structural, Hash)]
pub struct Entity(pub u64);

impl Entity {
    /// The slot that the handle addresses in index-keyed storage: the index,
    /// cut to the machine's word.
    pub open spec fn index_spec(self) -> nat {
        ((self.0 & INDEX_MASK) as usize) as nat
    }

    /// Whether the handle is the placeholder that addresses no node.
    pub open spec fn is_null_spec(self) -> bool {
        self.0 == u64::MAX
    }

    /// The handle with the given index and generation, each cut to its width.
    pub fn from_parts(index: u64, generation: u64) -> (e: Entity)
        ensures
            e.0 == (index & INDEX_MASK) | ((generation & GENERATION_MASK) << 48),
    {
        Entity((index & INDEX_MASK) | ((generation & GENERATION_MASK) << 48))
    }

    /// The placeholder handle.
    pub fn null_entity() -> (e: Entity)
        ensures
            e.is_null_spec(),
    {
        Entity(u64::MAX)
    }

    /// The index as a machine word.
    pub fn slot(&self) -> (i: usize)
        ensures
            i == self.index_spec(),
    {
        #[verifier::truncate]
        ((self.0 & INDEX_MASK) as usize)
    }
}

impl GenerationalId for Entity {
    fn new(index: u64, generation: u64) -> (e: Self)
        ensures
            e.0 == (index & INDEX_MASK) | ((generation & GENERATION_MASK) << 48),
    {
        Entity::from_parts(index, generation)
    }

    fn index(&self) -> (i: usize)
        ensures
            i == self.index_spec(),
    {
        self.slot()
    }

    fn generation(&self) -> (g: u16)
        ensures
            g == (self.0 >> 48) & GENERATION_MASK,
    {
        let raw: u64 = self.0;
        let high: u64 = (raw >> 48) & GENERATION_MASK;
        assert(high <= 0xffff) by (bit_vector)
            requires
                high == (raw >> 48) & 0xffff,
        ;
        high as u16
    }

    fn null() -> (e: Self)
        ensures
            e.is_null_spec(),
    {
        Entity::null_entity()
    }

    fn is_null(&self) -> (r: bool)
        ensures
            r == self.is_null_spec(),
    {
        self.0 == u64::MAX
    }

    fn root() -> (e: Self)
        ensures
            e.0 == 0,
    {
        Entity(0)
    }
}

} // verus!
