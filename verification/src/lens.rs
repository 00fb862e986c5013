use crate::registry::{Keyed, ModelData};
use std::marker::PhantomData;
use vstd::prelude::*;

verus! {

/// A path from a model down to a value inside it.
pub trait Lens: Sized {
    /// The stored form of the model that the path starts from.
    type Source: ModelData;

    /// The value that the path leads to.
    type Target;

    /// The type key of the model that the path starts from.
    spec fn source_key_spec(&self) -> u64;

    /// The value that the path leads to in `source`; nothing where the path
    /// cannot be followed there.
    spec fn view_spec<'a>(&self, source: &'a Self::Source) -> Option<&'a Self::Target>;

    /// The type key of the model that the path starts from.
    fn source_key(&self) -> (key: u64)
        ensures
            key == self.source_key_spec(),
    ;

    /// Hands `f` a reference to the value that the path leads to in
    /// `source`, or nothing where the path cannot be followed, and returns
    /// what `f` returns.
    fn view<R, F: FnOnce(Option<&Self::Target>) -> R>(&self, source: &Self::Source, f: F) -> (r: R)
        requires
            f.requires((self.view_spec(source),)),
        ensures
            f.ensures((self.view_spec(source),), r),
    ;
}

/// The lens from a keyed model to the model itself.
pub struct Whole<T> {
    pub key: u64,
    pub marker: PhantomData<T>,
}

impl<T> Whole<T> {
    /// The lens to the models of the type with the key `key`.
    pub fn new(key: u64) -> (lens: Self)
        ensures
            lens.key == key,
    {
        Whole { key, marker: PhantomData }
    }
}

impl<T> Lens for Whole<T> {
    type Source = Keyed<T>;

    type Target = T;

    open spec fn source_key_spec(&self) -> u64 {
        self.key
    }

    open spec fn view_spec<'a>(&self, source: &'a Keyed<T>) -> Option<&'a T> {
        Some(&source.model)
    }

    fn source_key(&self) -> (key: u64) {
        self.key
    }

    fn view<R, F: FnOnce(Option<&T>) -> R>(&self, source: &Keyed<T>, f: F) -> (r: R) {
        f(Some(&source.model))
    }
}

/// Two lenses in a row: `first` leads from the model to a value, `second`
/// from that value on.
pub struct Then<A, B> {
    pub first: A,
    pub second: B,
}

/// A step of a path: like a lens, but starting from any value.
pub trait Step: Sized {
    /// The value that the step starts from.
    type From;

    /// The value that the step leads to.
    type To;

    /// The value that the step leads to from `from`; nothing where it
    /// cannot be taken there.
    spec fn step_spec<'a>(&self, from: &'a Self::From) -> Option<&'a Self::To>;

    /// Hands `f` a reference to the value that the step leads to from
    /// `from`, or nothing, and returns what `f` returns.
    fn step<R, F: FnOnce(Option<&Self::To>) -> R>(&self, from: &Self::From, f: F) -> (r: R)
        requires
            f.requires((self.step_spec(from),)),
        ensures
            f.ensures((self.step_spec(from),), r),
    ;
}

/// Where the second part of a path leads from what the first part gave:
/// nowhere if the first part led nowhere.
pub open spec fn chained_from<'a, B: Step>(second: &B, middle: Option<&'a B::From>) -> Option<
    &'a B::To,
> {
    match middle {
        Some(value) => second.step_spec(value),
        None => None,
    }
}

impl<A: Lens, B: Step<From = A::Target>> Lens for Then<A, B> {
    type Source = A::Source;

    type Target = B::To;

    open spec fn source_key_spec(&self) -> u64 {
        self.first.source_key_spec()
    }

    open spec fn view_spec<'a>(&self, source: &'a A::Source) -> Option<&'a B::To> {
        chained_from(&self.second, self.first.view_spec(source))
    }

    fn source_key(&self) -> (key: u64) {
        self.first.source_key()
    }

    fn view<R, F: FnOnce(Option<&B::To>) -> R>(&self, source: &A::Source, f: F) -> (r: R) {
        let second = &self.second;
        let onwards = |middle: Option<&A::Target>| -> (r: R)
            requires
                f.requires((chained_from(second, middle),))
            ensures
                f.ensures((chained_from(second, middle),), r)
            {
                match middle {
                    Some(value) => second.step(value, f),
                    None => f(None),
                }
            };
        self.first.view(source, onwards)
    }
}

/// The step from a list to its item at a fixed position.
pub struct Index<T> {
    pub index: usize,
    pub marker: PhantomData<T>,
}

/// The item of `list` at `index`; nothing where the list is too short.
pub open spec fn item_at<'a, T>(list: &'a Vec<T>, index: usize) -> Option<&'a T> {
    if index < list@.len() {
        Some(&list@[index as int])
    } else {
        None
    }
}

impl<T> Index<T> {
    /// The step to the item at `index`.
    pub fn new(index: usize) -> (step: Self)
        ensures
            step.index == index,
    {
        Index { index, marker: PhantomData }
    }
}

impl<T> Step for Index<T> {
    type From = Vec<T>;

    type To = T;

    open spec fn step_spec<'a>(&self, from: &'a Vec<T>) -> Option<&'a T> {
        item_at(from, self.index)
    }

    fn step<R, F: FnOnce(Option<&T>) -> R>(&self, from: &Vec<T>, f: F) -> (r: R) {
        if self.index < from.len() {
            f(Some(&from[self.index]))
        } else {
            f(None)
        }
    }
}

} // verus!
