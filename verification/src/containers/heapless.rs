//! A fixed-capacity vector stored entirely on the stack: `N` optional
//! slots and a length.  The occupied slots are exactly the first `length`
//! ones.

use vstd::prelude::*;

verus! {

broadcast use vstd::array::group_array_axioms;

/// A stack-resident vector of at most `N` elements.
#[derive(Debug, Clone, Copy)]
pub struct HeaplessVec<T, const N: usize> {
    pub data: [Option<T>; N],
    pub length: usize,
}

impl<T: Copy, const N: usize> HeaplessVec<T, N> {
    /// The first `length` slots hold values, the rest are empty.
    pub open spec fn wf(&self) -> bool {
        &&& self.length <= N
        &&& forall|i: int| 0 <= i < self.length ==> (#[trigger] self.data@[i]) is Some
        &&& forall|i: int| self.length <= i < N ==> (#[trigger] self.data@[i]) is None
    }

    /// The stored elements, in order.
    pub open spec fn elems(&self) -> Seq<T> {
        Seq::new(self.length as nat, |i: int| self.data@[i]->Some_0)
    }

    /// An empty vector.
    pub fn new() -> (r: Self)
        ensures
            r.wf(),
            r.elems() == Seq::<T>::empty(),
    {
        let r = Self { data: vstd::array::array_fill_for_copy_types(None), length: 0 };
        proof {
            assert(r.elems() =~= Seq::<T>::empty());
        }
        r
    }

    /// How many elements are stored.
    pub fn len(&self) -> (r: usize)
        ensures
            r == self.length,
    {
        self.length
    }

    /// Whether no element is stored.
    pub fn is_empty(&self) -> (r: bool)
        ensures
            r == (self.elems().len() == 0),
    {
        self.length == 0
    }

    /// Remove every element.
    pub fn clear(&mut self)
        ensures
            final(self).wf(),
            final(self).elems() == Seq::<T>::empty(),
    {
        self.data = vstd::array::array_fill_for_copy_types(None);
        self.length = 0;
        proof {
            assert(self.elems() =~= Seq::<T>::empty());
        }
    }

    /// Append one element; reports nothing when the vector is full, in
    /// which case it is unchanged.
    pub fn push(&mut self, value: T) -> (r: Option<()>)
        requires
            old(self).wf(),
        ensures
            final(self).wf(),
            (r is Some) <==> old(self).elems().len() < N,
            r is Some ==> final(self).elems() == old(self).elems().push(value),
            r is None ==> *final(self) == *old(self),
    {
        if !(self.length < N) {
            return None;
        }
        let len = self.length;
        self.data[len] = Some(value);
        self.length = len + 1;
        proof {
            assert(self.elems() =~= old(self).elems().push(value));
        }
        Some(())
    }

    /// Remove and return the last element, or nothing when the vector is
    /// empty.
    pub fn pop(&mut self) -> (r: Option<T>)
        requires
            old(self).wf(),
        ensures
            final(self).wf(),
            (r is Some) <==> old(self).elems().len() > 0,
            r is Some ==> r == Some(old(self).elems().last()) && final(self).elems() == old(
                self,
            ).elems().drop_last(),
            r is None ==> *final(self) == *old(self),
    {
        if self.length == 0 {
            return None;
        }
        let len = self.length - 1;
        self.length = len;
        let value = self.data[len];
        self.data[len] = None;
        proof {
            assert(self.elems() =~= old(self).elems().drop_last());
        }
        value
    }

    /// The element at `index`, which must be in bounds.
    pub fn get(&self, index: usize) -> (r: T)
        requires
            self.wf(),
            index < self.elems().len(),
        ensures
            r == self.elems()[index as int],
    {
        self.data[index].unwrap()
    }

    /// Replace the element at `index`, which must be in bounds.
    pub fn set(&mut self, index: usize, value: T)
        requires
            old(self).wf(),
            index < old(self).elems().len(),
        ensures
            final(self).wf(),
            final(self).elems() == old(self).elems().update(index as int, value),
    {
        self.data[index] = Some(value);
        proof {
            assert(self.elems() =~= old(self).elems().update(index as int, value));
        }
    }

    /// A value iterator over the stored elements.
    pub fn iter(&self) -> (r: Iter<T, N>)
        requires
            self.wf(),
        ensures
            r.vec == *self,
            r.index == 0,
    {
        Iter::new(self)
    }
}

impl<T: Copy, const N: usize> Default for HeaplessVec<T, N> {
    /// The same empty vector as `new`.
    fn default() -> (r: Self)
        ensures
            r.wf(),
            r.elems() == Seq::<T>::empty(),
    {
        Self::new()
    }
}

/// A value iterator over a `HeaplessVec`: it copies the vector and yields
/// its elements in order.
#[derive(Debug, Clone, Copy)]
pub struct Iter<T, const N: usize> {
    pub vec: HeaplessVec<T, N>,
    pub index: usize,
}

impl<T: Copy, const N: usize> Iter<T, N> {
    /// An iterator at the first element.
    pub fn new(vec: &HeaplessVec<T, N>) -> (r: Self)
        requires
            vec.wf(),
        ensures
            r.vec == *vec,
            r.index == 0,
    {
        Self { vec: *vec, index: 0 }
    }

    /// The next element, or nothing once all have been yielded.
    pub fn next(&mut self) -> (r: Option<T>)
        requires
            old(self).vec.wf(),
        ensures
            final(self).vec == old(self).vec,
            old(self).index < old(self).vec.elems().len() ==> r == Some(
                old(self).vec.elems()[old(self).index as int],
            ) && final(self).index == old(self).index + 1,
            old(self).index >= old(self).vec.elems().len() ==> r is None && final(self).index
                == old(self).index,
    {
        if self.index >= self.vec.length {
            return None;
        }
        let value = self.vec.data[self.index];
        self.index += 1;
        value
    }
}

} // verus!
