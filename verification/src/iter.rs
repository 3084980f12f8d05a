use vstd::prelude::*;
use crate::array::MyVec;

verus! {

/// Borrowing cursor over a container: yields references to the elements in
/// insertion order, front to back, without owning or changing the container.
pub struct Iter<'a, T> {
    vector: &'a MyVec<T>,
    index: usize,
}

impl<'a, T> Iter<'a, T> {
    /// The contents of the container under traversal.
    pub closed spec fn elements(&self) -> Seq<T> {
        self.vector@
    }

    /// How many elements were already yielded.
    pub closed spec fn cursor(&self) -> nat {
        self.index as nat
    }

    /// Yields a reference to the next element in insertion order, or nothing
    /// once every element was yielded; an exhausted cursor stays exhausted.
    pub fn next(&mut self) -> (r: Option<&'a T>)
        ensures
            final(self).elements() == old(self).elements(),
            old(self).cursor() < old(self).elements().len() ==> (r matches Some(v) && *v == old(
                self,
            ).elements()[old(self).cursor() as int] && final(self).cursor() == old(self).cursor()
                + 1),
            old(self).cursor() >= old(self).elements().len() ==> r is None && final(self).cursor()
                == old(self).cursor(),
    {
        if self.index >= self.vector.len() {
            return None;
        }
        let item = self.vector.get(self.index);
        self.index = self.index + 1;
        item
    }
}

/// Consuming cursor: owns the container it was built from and drains it from
/// the end, handing each element out by value. The yield order is therefore
/// the reverse of insertion order. Whatever it still holds when it is
/// discarded is torn down with the container it wraps.
pub struct OwnerIter<T> {
    vector: MyVec<T>,
}

impl<T> View for OwnerIter<T> {
    type V = Seq<T>;

    closed spec fn view(&self) -> Seq<T> {
        self.vector@
    }
}

impl<T> OwnerIter<T> {
    /// Removes and yields the last element still held, or nothing once the
    /// container is drained; an exhausted cursor stays exhausted.
    pub fn next(&mut self) -> (r: Option<T>)
        ensures
            old(self)@.len() == 0 ==> r is None && final(self)@ == old(self)@,
            old(self)@.len() > 0 ==> (r == Some(old(self)@.last()) && final(self)@ == old(
                self,
            )@.drop_last()),
    {
        self.vector.pop()
    }
}

impl<T> MyVec<T> {
    /// Begins a borrowing traversal at the first element.
    pub fn iter<'a>(&'a self) -> (it: Iter<'a, T>)
        ensures
            it.elements() == self@,
            it.cursor() == 0,
    {
        Iter { vector: self, index: 0 }
    }

    /// Transfers ownership of the container into a consuming cursor holding
    /// exactly the container's contents.
    pub fn into_iter(self) -> (it: OwnerIter<T>)
        ensures
            it@ == self@,
    {
        OwnerIter { vector: self }
    }
}

} // verus!
