//! A reusable container for intersection records: a growable array with a
//! logical size and a capacity hint.

use vstd::prelude::*;

verus! {

#[derive(Debug)]
pub struct IntersectionHolder<T: Clone> {
    size: usize,
    capacity: usize,
    arr: Vec<T>,
}

impl<T: Clone> IntersectionHolder<T> {
    /// The stored items.
    pub closed spec fn items(&self) -> Seq<T> {
        self.arr@
    }

    /// The logical size, moved by `clear`.
    pub closed spec fn spec_size(&self) -> int {
        self.size as int
    }

    /// The capacity the holder was created with.
    pub closed spec fn spec_capacity(&self) -> int {
        self.capacity as int
    }

    pub fn new(capacity: usize) -> (r: IntersectionHolder<T>)
        ensures
            r.items() == Seq::<T>::empty(),
            r.spec_size() == 0,
            r.spec_capacity() == capacity,
    {
        IntersectionHolder { size: 0, capacity, arr: Vec::new() }
    }

    /// The stored items as a slice.
    pub fn vec(&self) -> (r: &[T])
        ensures
            r@ == self.items(),
    {
        self.arr.as_slice()
    }

    pub fn push(&mut self, item: T)
        ensures
            final(self).items() == old(self).items().push(item),
            final(self).spec_size() == old(self).spec_size(),
            final(self).spec_capacity() == old(self).spec_capacity(),
    {
        self.arr.push(item);
    }

    /// Reset the logical size; the stored items stay as they are.
    pub fn clear(&mut self)
        ensures
            final(self).spec_size() == 0,
            final(self).items() == old(self).items(),
            final(self).spec_capacity() == old(self).spec_capacity(),
    {
        self.size = 0;
    }

    pub fn get(&self, i: usize) -> (r: Option<&T>)
        ensures
            match r {
                Some(v) => i < self.items().len() && *v == self.items()[i as int],
                None => i >= self.items().len(),
            },
    {
        self.arr.get(i)
    }

    /// The count of stored items.
    pub fn len(&self) -> (r: usize)
        ensures
            r == self.items().len(),
    {
        self.arr.len()
    }
}

} // verus!
