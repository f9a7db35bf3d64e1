//! The container itself: a bounded sequence with a capacity fixed at
//! construction and a live prefix of at most that many elements.

use vstd::prelude::*;

verus! {

/// A fixed-capacity stack.
///
/// The capacity is chosen when the value is built and never changes; the
/// elements currently held are the view `self@`, a sequence of length at
/// most [`Stack::capacity`]. Every operation keeps that bound: it is the
/// well-formedness predicate [`Stack::wf`], required and re-established by
/// each method.
pub struct Stack<T> {
    capacity: usize,
    data: Vec<T>,
}

impl<T> View for Stack<T> {
    type V = Seq<T>;

    closed spec fn view(&self) -> Seq<T> {
        self.data@
    }
}

impl<T> Stack<T> {
    /// The fixed capacity of this container.
    pub closed spec fn spec_capacity(&self) -> usize {
        self.capacity
    }

    /// The container invariant: the live elements never outnumber the
    /// capacity.
    pub open spec fn wf(&self) -> bool {
        self@.len() <= self.spec_capacity()
    }

    /// Creates an empty stack that can hold up to `capacity` elements.
    pub fn with_capacity(capacity: usize) -> (s: Stack<T>)
        ensures
            s.wf(),
            s@ == Seq::<T>::empty(),
            s.spec_capacity() == capacity,
    {
        Stack { capacity, data: Vec::new() }
    }

    /// Creates a stack filled with the given values; the capacity equals
    /// their number, so the stack starts out full.
    pub fn from_array(values: Vec<T>) -> (s: Stack<T>)
        ensures
            s.wf(),
            s@ == values@,
            s.spec_capacity() as int == values@.len(),
    {
        let capacity = values.len();
        Stack { capacity, data: values }
    }

    /// Creates a stack whose capacity is the number of values given, holding
    /// only the first `len` of them; the rest are dropped.
    pub fn using_array(values: Vec<T>, len: usize) -> (s: Stack<T>)
        requires
            len <= values@.len(),
        ensures
            s.wf(),
            s@ == values@.take(len as int),
            s.spec_capacity() as int == values@.len(),
    {
        let capacity = values.len();
        let mut data = values;
        data.truncate(len);
        Stack { capacity, data }
    }

    /// The number of elements currently held.
    pub fn len(&self) -> (n: usize)
        ensures
            n as int == self@.len(),
    {
        self.data.len()
    }

    /// The fixed total number of elements this stack can hold.
    pub fn capacity(&self) -> (n: usize)
        ensures
            n == self.spec_capacity(),
    {
        self.capacity
    }

    /// `true` when the stack holds no elements.
    pub fn is_empty(&self) -> (b: bool)
        ensures
            b <==> self@.len() == 0,
    {
        self.data.len() == 0
    }

    /// `true` when the stack holds as many elements as its capacity allows.
    pub fn is_full(&self) -> (b: bool)
        ensures
            b <==> self@.len() >= self.spec_capacity(),
    {
        self.data.len() >= self.capacity
    }

    /// Borrows the live elements as a slice.
    pub fn as_slice(&self) -> (r: &[T])
        ensures
            r@ == self@,
    {
        self.data.as_slice()
    }

    /// Replaces the element at `index` with `value`; the way to mutate a
    /// single live slot in place.
    pub fn set(&mut self, index: usize, value: T)
        requires
            old(self).wf(),
            index < old(self)@.len(),
        ensures
            final(self).wf(),
            final(self).spec_capacity() == old(self).spec_capacity(),
            final(self)@ == old(self)@.update(index as int, value),
    {
        self.data.set(index, value);
    }

    /// Borrows the element at `index`.
    pub fn get(&self, index: usize) -> (r: &T)
        requires
            index < self@.len(),
        ensures
            *r == self@[index as int],
    {
        &self.data[index]
    }

    /// Appends `value` at the end. On a full stack nothing changes and the
    /// value is handed back in `Err`, so no data is lost on overflow.
    pub fn push(&mut self, value: T) -> (r: Result<(), T>)
        requires
            old(self).wf(),
        ensures
            final(self).wf(),
            final(self).spec_capacity() == old(self).spec_capacity(),
            old(self)@.len() < old(self).spec_capacity() ==> r == Ok::<(), T>(())
                && final(self)@ == old(self)@.push(value),
            old(self)@.len() == old(self).spec_capacity() ==> r == Err::<(), T>(value)
                && final(self)@ == old(self)@,
    {
        if self.data.len() >= self.capacity {
            return Err(value);
        }
        self.data.push(value);
        Ok(())
    }

    /// Removes and returns the last element, or `None` on an empty stack.
    pub fn pop(&mut self) -> (r: Option<T>)
        requires
            old(self).wf(),
        ensures
            final(self).wf(),
            final(self).spec_capacity() == old(self).spec_capacity(),
            old(self)@.len() == 0 ==> r is None && final(self)@ == old(self)@,
            old(self)@.len() > 0 ==> r == Some(old(self)@.last())
                && final(self)@ == old(self)@.drop_last(),
    {
        self.data.pop()
    }

    /// Removes and returns the element at `index`, shifting all later
    /// elements one slot toward the front, preserving their order.
    pub fn remove(&mut self, index: usize) -> (r: T)
        requires
            old(self).wf(),
            index < old(self)@.len(),
        ensures
            final(self).wf(),
            final(self).spec_capacity() == old(self).spec_capacity(),
            r == old(self)@[index as int],
            final(self)@ == old(self)@.remove(index as int),
    {
        self.data.remove(index)
    }

    /// Removes and returns the element at `index` in constant time by
    /// moving the last element into its slot; the relative order of the
    /// elements after `index` is not preserved.
    pub fn swap_remove(&mut self, index: usize) -> (r: T)
        requires
            old(self).wf(),
            index < old(self)@.len(),
        ensures
            final(self).wf(),
            final(self).spec_capacity() == old(self).spec_capacity(),
            r == old(self)@[index as int],
            final(self)@ == old(self)@.update(index as int, old(self)@.last()).drop_last(),
    {
        self.data.swap_remove(index)
    }

    /// Inserts `value` at `index`, shifting every element at or after
    /// `index` one slot toward the end. On a full stack the shift pushes the
    /// previous last element out; that displaced element is returned in
    /// `Some` rather than dropped. Otherwise the length grows by one and
    /// `None` is returned.
    pub fn insert(&mut self, index: usize, value: T) -> (r: Option<T>)
        requires
            old(self).wf(),
            index <= old(self)@.len(),
        ensures
            final(self).wf(),
            final(self).spec_capacity() == old(self).spec_capacity(),
            old(self)@.len() < old(self).spec_capacity() ==> r is None
                && final(self)@ == old(self)@.insert(index as int, value),
            old(self)@.len() == old(self).spec_capacity() ==> {
                let extended = old(self)@.insert(index as int, value);
                r == Some(extended.last()) && final(self)@ == extended.drop_last()
            },
    {
        if self.data.len() < self.capacity {
            self.data.insert(index, value);
            None
        } else if index == self.data.len() {
            proof {
                assert(old(self)@.insert(index as int, value).drop_last() =~= old(self)@);
            }
            Some(value)
        } else {
            let displaced = self.data.pop().unwrap();
            self.data.insert(index, value);
            proof {
                assert(self@ =~= old(self)@.insert(index as int, value).drop_last());
            }
            Some(displaced)
        }
    }

    /// Keeps only the first `len` elements, dropping the rest; when `len`
    /// is not below the current length, nothing changes.
    pub fn truncate(&mut self, len: usize)
        requires
            old(self).wf(),
        ensures
            final(self).wf(),
            final(self).spec_capacity() == old(self).spec_capacity(),
            len as int >= old(self)@.len() ==> final(self)@ == old(self)@,
            (len as int) < old(self)@.len() ==> final(self)@ == old(self)@.take(len as int),
    {
        self.data.truncate(len);
    }

    /// Removes every element.
    pub fn clear(&mut self)
        ensures
            final(self).wf(),
            final(self).spec_capacity() == old(self).spec_capacity(),
            final(self)@ == Seq::<T>::empty(),
    {
        self.data.clear();
    }

    /// Resizes in place to `new_len` elements: truncates when shrinking,
    /// otherwise grows by filling with values produced by `f`. The new
    /// length must not exceed the capacity.
    pub fn resize_with<F: Fn() -> T>(&mut self, new_len: usize, f: F)
        requires
            old(self).wf(),
            new_len <= old(self).spec_capacity(),
            call_requires(f, ()),
        ensures
            final(self).wf(),
            final(self).spec_capacity() == old(self).spec_capacity(),
            new_len as int <= old(self)@.len() ==> final(self)@ == old(self)@.take(new_len as int),
            new_len as int > old(self)@.len() ==> {
                &&& final(self)@.len() == new_len
                &&& final(self)@.take(old(self)@.len() as int) == old(self)@
                &&& forall|i: int|
                    old(self)@.len() <= i < new_len ==> call_ensures(f, (), #[trigger] final(self)@[i])
            },
    {
        if new_len < self.data.len() {
            self.data.truncate(new_len);
        } else {
            let ghost orig = self.data@;
            let ghost cap = self.capacity;
            while self.data.len() < new_len
                invariant
                    orig.len() <= self.data@.len() <= new_len,
                    self.capacity == cap,
                    call_requires(f, ()),
                    self.data@.take(orig.len() as int) == orig,
                    forall|i: int|
                        orig.len() <= i < self.data@.len() ==> call_ensures(f, (), #[trigger] self.data@[i]),
                decreases new_len - self.data.len(),
            {
                let value = f();
                self.data.push(value);
                proof {
                    assert(self.data@.take(orig.len() as int) =~= orig);
                }
            }
            proof {
                if new_len as int == old(self)@.len() {
                    assert(old(self)@.take(new_len as int) =~= old(self)@);
                }
                assert(self@.take(old(self)@.len() as int) =~= old(self)@);
            }
        }
    }

    /// Resizes in place to `new_len` elements: truncates when shrinking,
    /// otherwise grows by filling with clones of `value`. The new length
    /// must not exceed the capacity.
    pub fn resize(&mut self, new_len: usize, value: T) where T: Clone
        requires
            old(self).wf(),
            new_len <= old(self).spec_capacity(),
        ensures
            final(self).wf(),
            final(self).spec_capacity() == old(self).spec_capacity(),
            new_len as int <= old(self)@.len() ==> final(self)@ == old(self)@.take(new_len as int),
            new_len as int > old(self)@.len() ==> {
                &&& final(self)@.len() == new_len
                &&& final(self)@.take(old(self)@.len() as int) == old(self)@
                &&& forall|i: int|
                    old(self)@.len() <= i < new_len ==> cloned::<T>(value, #[trigger] final(self)@[i])
            },
    {
        let value_ref = &value;
        let fill = || -> (r: T)
            ensures
                cloned::<T>(*value_ref, r),
            { T::clone(value_ref) };
        self.resize_with(new_len, fill);
    }

    /// Appends clones of the elements of `other` in order until the source
    /// is exhausted or the stack is full; in the latter case the unconsumed
    /// suffix of `other` is handed back in `Err`, and what was already
    /// appended stays appended.
    pub fn extend_from_slice<'a>(&mut self, other: &'a [T]) -> (r: Result<(), &'a [T]>) where
        T: Clone,

        requires
            old(self).wf(),
        ensures
            final(self).wf(),
            final(self).spec_capacity() == old(self).spec_capacity(),
            final(self)@.len() >= old(self)@.len(),
            final(self)@.take(old(self)@.len() as int) == old(self)@,
            forall|i: int|
                old(self)@.len() <= i < final(self)@.len() ==> cloned::<T>(
                    other@[i - old(self)@.len()],
                    #[trigger] final(self)@[i],
                ),
            ({
                let free = old(self).spec_capacity() - old(self)@.len();
                &&& other@.len() <= free ==> r is Ok && final(self)@.len() == old(self)@.len()
                    + other@.len()
                &&& other@.len() > free ==> (r matches Err(rest) && rest@ == other@.skip(free)
                    && final(self)@.len() == old(self).spec_capacity())
            }),
    {
        let ghost orig = self.data@;
        let ghost cap = self.capacity;
        let mut i: usize = 0;
        #[verifier::loop_isolation(false)]
        while i < other.len()
            invariant
                i <= other@.len(),
                self.capacity == cap,
                self.data@.len() <= cap,
                self.data@.len() == orig.len() + i,
                self.data@.take(orig.len() as int) == orig,
                forall|j: int|
                    orig.len() <= j < self.data@.len() ==> cloned::<T>(
                        other@[j - orig.len()],
                        #[trigger] self.data@[j],
                    ),
            decreases other@.len() - i,
        {
            if self.data.len() >= self.capacity {
                return Err(vstd::slice::slice_subrange(other, i, other.len()));
            }
            let x = other[i].clone();
            self.data.push(x);
            i = i + 1;
            proof {
                assert(self.data@.take(orig.len() as int) =~= orig);
            }
        }
        Ok(())
    }

    /// Moves the elements, in order, into a new stack of a different fixed
    /// capacity; when the new capacity is smaller, only as many elements as
    /// fit are kept and the excess is dropped.
    pub fn resize_capacity(self, new_capacity: usize) -> (r: Stack<T>)
        requires
            self.wf(),
        ensures
            r.wf(),
            r.spec_capacity() == new_capacity,
            new_capacity as int >= self@.len() ==> r@ == self@,
            (new_capacity as int) < self@.len() ==> r@ == self@.take(new_capacity as int),
    {
        let mut data = self.data;
        data.truncate(new_capacity);
        Stack { capacity: new_capacity, data }
    }
}

impl<T: Clone> Clone for Stack<T> {
    /// Clones the capacity and every live element; each cloned element is
    /// related to its original by `T::clone`'s own contract.
    fn clone(&self) -> (res: Self)
        ensures
            res.spec_capacity() == self.spec_capacity(),
            res@.len() == self@.len(),
            forall|i: int| 0 <= i < self@.len() ==> cloned::<T>(self@[i], #[trigger] res@[i]),
            self.wf() ==> res.wf(),
    {
        Stack { capacity: self.capacity, data: self.data.clone() }
    }
}

} // verus!
