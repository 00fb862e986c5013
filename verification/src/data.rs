use vstd::prelude::*;

verus! {

/// The cheap "unchanged" test that a bound value offers. It only decides
/// whether two values count as the same for re-rendering.
pub trait Data: Clone + Sized {
    /// Whether `self` and `other` count as unchanged.
    spec fn same_spec(&self, other: &Self) -> bool;

    /// Whether `self` and `other` count as unchanged.
    fn same(&self, other: &Self) -> (unchanged: bool)
        ensures
            unchanged == self.same_spec(other),
    ;
}

impl Data for bool {
    open spec fn same_spec(&self, other: &Self) -> bool {
        *self == *other
    }

    fn same(&self, other: &Self) -> (unchanged: bool) {
        *self == *other
    }
}

impl Data for i32 {
    open spec fn same_spec(&self, other: &Self) -> bool {
        *self == *other
    }

    fn same(&self, other: &Self) -> (unchanged: bool) {
        *self == *other
    }
}

impl Data for i64 {
    open spec fn same_spec(&self, other: &Self) -> bool {
        *self == *other
    }

    fn same(&self, other: &Self) -> (unchanged: bool) {
        *self == *other
    }
}

impl Data for u32 {
    open spec fn same_spec(&self, other: &Self) -> bool {
        *self == *other
    }

    fn same(&self, other: &Self) -> (unchanged: bool) {
        *self == *other
    }
}

impl Data for u64 {
    open spec fn same_spec(&self, other: &Self) -> bool {
        *self == *other
    }

    fn same(&self, other: &Self) -> (unchanged: bool) {
        *self == *other
    }
}

impl Data for usize {
    open spec fn same_spec(&self, other: &Self) -> bool {
        *self == *other
    }

    fn same(&self, other: &Self) -> (unchanged: bool) {
        *self == *other
    }
}

/// Whether a cached value and the value now viewed count as unchanged: both
/// absent, or both present and the same.
pub open spec fn unchanged<T: Data>(cached: Option<T>, current: Option<T>) -> bool {
    match (cached, current) {
        (Some(a), Some(b)) => a.same_spec(&b),
        (None, None) => true,
        _ => false,
    }
}

/// Whether `copy` is what cloning the viewed value gives: absent where the
/// value is absent, else a clone of it.
pub open spec fn clone_of<T: Clone>(current: Option<T>, copy: Option<T>) -> bool {
    match (current, copy) {
        (Some(value), Some(cloned_value)) => cloned(value, cloned_value),
        (None, None) => true,
        _ => false,
    }
}

/// What comparing the cache with the value now viewed gives: nothing
/// exactly where they count as unchanged, else a clone of the value viewed.
pub open spec fn diff_spec<T: Data>(
    cached: Option<T>,
    current: Option<T>,
    replacement: Option<Option<T>>,
) -> bool {
    &&& replacement.is_none() == unchanged(cached, current)
    &&& replacement.is_some() ==> clone_of(current, replacement.unwrap())
}

/// Compares the cached value with the value now viewed. Nothing is returned
/// where they count as unchanged; else the new cache, a clone of the value
/// viewed.
pub fn diff<T: Data>(cached: &Option<T>, current: Option<&T>) -> (replacement: Option<Option<T>>)
    ensures
        diff_spec(*cached, owned(current), replacement),
{
    match current {
        Some(value) => {
            match cached {
                Some(previous) => {
                    if previous.same(value) {
                        None
                    } else {
                        Some(Some(value.clone()))
                    }
                },
                None => Some(Some(value.clone())),
            }
        },
        None => {
            match cached {
                Some(_) => Some(None),
                None => None,
            }
        },
    }
}

/// The value behind an optional reference.
pub open spec fn owned<T>(value: Option<&T>) -> Option<T> {
    match value {
        Some(inner) => Some(*inner),
        None => None,
    }
}

} // verus!
