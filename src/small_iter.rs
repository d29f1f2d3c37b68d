use vstd::prelude::*;

verus! {

/// What one step of iteration does to a remaining sequence: the element
/// handed out (if any) and the sequence left afterwards.
pub open spec fn step<T>(rest: Seq<T>) -> (Option<T>, Seq<T>) {
    if rest.len() == 0 {
        (None, rest)
    } else {
        (Some(rest[0]), rest.drop_first())
    }
}

/// An iterator that moves the elements out of an owned contiguous array,
/// front to back.
///
/// The iterator owns the elements not yet handed out together with the
/// storage that holds them. Its state is a single `Vec<T>`, three machine
/// words. Dropping it drops each remaining element once, then frees the
/// storage once, even if an element's destructor panics; elements already
/// handed out are never touched again. For a zero-sized `T` nothing is
/// ever allocated or freed.
#[derive(Debug)]
pub struct SmallIter<T> {
    elements: Vec<T>,
}

impl<T> View for SmallIter<T> {
    type V = Seq<T>;

    /// The elements not yet handed out, in the order they will come.
    closed spec fn view(&self) -> Seq<T> {
        self.elements@
    }
}

impl<T> SmallIter<T> {
    /// Takes over `elements`, which become the remaining elements in order.
    pub(crate) fn from_vec(elements: Vec<T>) -> (r: Self)
        ensures
            r@ == elements@,
    {
        SmallIter { elements }
    }

    /// The number of elements not yet handed out.
    fn elements_len(&self) -> (r: usize)
        ensures
            r == self@.len(),
    {
        self.elements.len()
    }

    /// Hands out the next element, or `None` once every element has been
    /// handed out; after that it keeps returning `None`. The elements left
    /// behind move one place towards the front of the storage.
    pub fn next(&mut self) -> (r: Option<T>)
        ensures
            (r, final(self)@) == step(old(self)@),
    {
        if self.elements.len() == 0 {
            None
        } else {
            Some(self.elements.remove(0))
        }
    }

    /// The number of elements left, exact both as lower and as upper bound.
    pub fn size_hint(&self) -> (r: (usize, Option<usize>))
        ensures
            r.0 == self@.len(),
            r.1 == Some(self@.len() as usize),
    {
        let len = self.elements_len();
        (len, Some(len))
    }

    /// Consumes the iterator and returns the number of elements it had left.
    pub fn count(self) -> (r: usize)
        ensures
            r == self@.len(),
    {
        self.elements_len()
    }

    /// The remaining elements as a slice.
    pub fn as_slice(&self) -> (r: &[T])
        ensures
            r@ == self@,
    {
        self.elements.as_slice()
    }

    /// The remaining elements as a mutable slice; what is written through
    /// it is what the iterator hands out later.
    pub fn as_mut_slice(&mut self) -> (r: &mut [T])
        ensures
            r@ == old(self)@,
            final(self)@ == final(r)@,
    {
        self.elements.as_mut_slice()
    }
}

impl<T> Default for SmallIter<T> {
    /// An iterator with no elements and no storage.
    fn default() -> (r: Self)
        ensures
            r@ == Seq::<T>::empty(),
    {
        SmallIter::from_vec(Vec::new())
    }
}

impl<T: Clone> Clone for SmallIter<T> {
    /// A new iterator, with storage of its own, over clones of the remaining
    /// elements.
    fn clone(&self) -> (r: Self)
        ensures
            r@.len() == self@.len(),
            forall|i: int| 0 <= i < self@.len() ==> cloned::<T>(#[trigger] self@[i], r@[i]),
    {
        SmallIter::from_vec(self.elements.clone())
    }
}

impl<T> AsRef<[T]> for SmallIter<T> {
    /// The remaining elements as a slice, as `as_slice` gives them.
    fn as_ref(&self) -> (r: &[T])
        ensures
            r@ == self@,
    {
        self.as_slice()
    }
}

impl<T> AsMut<[T]> for SmallIter<T> {
    /// The remaining elements as a mutable slice, as `as_mut_slice` gives
    /// them.
    fn as_mut(&mut self) -> (r: &mut [T])
        ensures
            r@ == old(self)@,
            final(self)@ == final(r)@,
    {
        self.as_mut_slice()
    }
}

} // verus!
