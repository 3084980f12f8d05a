use vstd::prelude::*;
use crate::growth::growth_target;
use crate::growth::lemma_growth_law;

verus! {

/// A growable, contiguous container that owns its storage exclusively.
///
/// Elements live in `elems`; `capacity` is the number of slots the container
/// has committed to, always computed by the growth policy (`growth_target`)
/// and always at least the length. The backing buffer is reserved up to
/// `capacity`, so the committed slots are really allocated.
pub struct MyVec<T> {
    elems: Vec<T>,
    capacity: usize,
}

impl<T> View for MyVec<T> {
    type V = Seq<T>;

    closed spec fn view(&self) -> Seq<T> {
        self.elems@
    }
}

impl<T> MyVec<T> {
    /// Number of committed storage slots; zero when nothing was ever pushed.
    pub closed spec fn spec_capacity(&self) -> nat {
        self.capacity as nat
    }

    /// Structural invariant of every reachable container: the length never
    /// exceeds the capacity. Constructors establish it and every operation
    /// preserves it.
    pub open spec fn wf(&self) -> bool {
        self@.len() <= self.spec_capacity()
    }

    /// Creates an empty container: length zero, capacity zero, no storage.
    pub fn new() -> (v: Self)
        ensures
            v@ == Seq::<T>::empty(),
            v.spec_capacity() == 0,
            v.wf(),
    {
        MyVec { elems: Vec::new(), capacity: 0 }
    }

    /// Brings the committed capacity to the growth target of the current
    /// length, reserving storage when the target differs from what is held.
    /// Zero-sized element types would make the slot accounting degenerate and
    /// are excluded by contract.
    fn resize_capacity(&mut self)
        requires
            vstd::layout::size_of::<T>() != 0,
            old(self)@.len() + 4 <= usize::MAX,
        ensures
            final(self)@ == old(self)@,
            final(self).spec_capacity() == growth_target(old(self)@.len()),
    {
        let len: usize = self.elems.len();
        proof {
            lemma_growth_law(len as nat);
        }
        let target: usize = (len / 4 + 1) * 4;
        if self.capacity != target {
            self.elems.reserve(target - len);
            self.capacity = target;
        }
    }

    /// Appends `value` at the end, growing the committed capacity to the
    /// growth target of the pre-push length first. Zero-sized element types
    /// are not supported; the contract excludes them, and the grown capacity
    /// must still be representable.
    pub fn push(&mut self, value: T)
        requires
            vstd::layout::size_of::<T>() != 0,
            old(self)@.len() + 4 <= usize::MAX,
        ensures
            final(self)@ == old(self)@.push(value),
            final(self).spec_capacity() == growth_target(old(self)@.len()),
            final(self).wf(),
    {
        proof {
            lemma_growth_law(old(self)@.len());
        }
        self.resize_capacity();
        self.elems.push(value);
    }

    /// Reads the element at `index`; indices at or past the length yield no
    /// value rather than an out-of-bounds read.
    pub fn get(&self, index: usize) -> (r: Option<&T>)
        ensures
            index < self@.len() ==> (r matches Some(v) && *v == self@[index as int]),
            index >= self@.len() ==> r is None,
    {
        if index < self.elems.len() {
            Some(&self.elems[index])
        } else {
            None
        }
    }

    /// Removes and returns the last live element; yields no value on an empty
    /// container. Each removal shortens the contents by exactly one and never
    /// changes the capacity.
    pub fn pop(&mut self) -> (r: Option<T>)
        ensures
            final(self).spec_capacity() == old(self).spec_capacity(),
            old(self)@.len() == 0 ==> r is None && final(self)@ == old(self)@,
            old(self)@.len() > 0 ==> r == Some(old(self)@.last()) && final(self)@ == old(
                self,
            )@.drop_last(),
            old(self).wf() ==> final(self).wf(),
    {
        self.elems.pop()
    }

    /// Count of live elements.
    pub fn len(&self) -> (r: usize)
        ensures
            r == self@.len(),
    {
        self.elems.len()
    }

    /// Count of committed storage slots.
    pub fn capacity(&self) -> (r: usize)
        ensures
            r == self.spec_capacity(),
    {
        self.capacity
    }

    /// Destroys every live element, releases the storage, and resets the
    /// container to the empty state. Returns how many elements were
    /// destroyed: exactly the length at the time of the call, so a container
    /// that was never pushed to destroys nothing.
    pub fn teardown(&mut self) -> (destroyed: usize)
        ensures
            destroyed == old(self)@.len(),
            final(self)@ == Seq::<T>::empty(),
            final(self).spec_capacity() == 0,
            final(self).wf(),
    {
        let destroyed: usize = self.elems.len();
        self.elems.clear();
        self.capacity = 0;
        destroyed
    }
}

/// Indexed-read law: appending a value leaves every existing position
/// unchanged and places the new value just past them, so immediately after a
/// sequence of pushes position `i` still holds the `i`-th pushed value,
/// wherever the storage moved in the meantime.
pub proof fn lemma_push_preserves_reads<T>(s: Seq<T>, value: T, i: int)
    requires
        0 <= i <= s.len(),
    ensures
        s.push(value).len() == s.len() + 1,
        i < s.len() ==> s.push(value)[i] == s[i],
        s.push(value)[s.len() as int] == value,
{
}

/// Destruction accounting: of a container that held `s`, removing `k`
/// elements from the end moves out exactly the last `k` values, teardown then
/// destroys exactly the `s.len() - k` values that remain, and the two groups
/// partition `s` — every element is accounted for exactly once, moved out or
/// destroyed, never both.
pub proof fn lemma_destruction_partition<T>(s: Seq<T>, k: int)
    requires
        0 <= k <= s.len(),
    ensures
        s.take(s.len() - k).len() + k == s.len(),
        s.take(s.len() - k) + s.skip(s.len() - k) =~= s,
{
}

} // verus!
