use vstd::prelude::*;

use crate::small_iter::SmallIter;

verus! {

/// Keeps `IntoSmallIterExt` implemented for the owned arrays of this crate
/// alone.
pub trait Sealed {}

impl<T> Sealed for Box<[T]> {}

impl<T> Sealed for Vec<T> {}

/// Turns an owned contiguous array into a [`SmallIter`] over its elements.
///
/// For a `Vec<T>` with spare capacity the storage is first shrunk to fit its
/// elements, which may reallocate; for a `Box<[T]>` the conversion is cheap.
pub trait IntoSmallIterExt: Sealed + Sized {
    /// The type of the elements.
    type Item;

    /// The elements held, in order.
    spec fn items(&self) -> Seq<Self::Item>;

    /// Consumes `self` and returns an iterator that moves its elements out,
    /// first to last.
    fn into_small_iter(self) -> (r: SmallIter<Self::Item>)
        ensures
            r@ == self.items(),
    ;
}

impl<T> IntoSmallIterExt for Box<[T]> {
    type Item = T;

    open spec fn items(&self) -> Seq<T> {
        self@
    }

    fn into_small_iter(self) -> (r: SmallIter<T>) {
        SmallIter::from_vec(self.into_vec())
    }
}

/// Relies on `Vec::into_boxed_slice`: the same elements, in a box whose
/// storage holds exactly that many.
#[verifier::external_body]
fn into_exact_box<T>(v: Vec<T>) -> (r: Box<[T]>)
    ensures
        r@ == v@,
{
    v.into_boxed_slice()
}

impl<T> IntoSmallIterExt for Vec<T> {
    type Item = T;

    open spec fn items(&self) -> Seq<T> {
        self@
    }

    fn into_small_iter(self) -> (r: SmallIter<T>) {
        into_exact_box(self).into_small_iter()
    }
}

} // verus!
