//! The consuming iterator: a one-shot forward/backward sequence of owned
//! elements, draining a [`Stack`] it owns exclusively.

use vstd::prelude::*;

use crate::stack::Stack;

verus! {

/// An iterator over the values of a [`Stack`].
///
/// Its view `self@` is the sequence of elements not yet handed out;
/// [`IntoIter::next`] takes them from the front, [`IntoIter::next_back`]
/// from the back.
pub struct IntoIter<T> {
    stack: Stack<T>,
}

impl<T> View for IntoIter<T> {
    type V = Seq<T>;

    closed spec fn view(&self) -> Seq<T> {
        self.stack@
    }
}

impl<T> Stack<T> {
    /// Converts the stack into a consuming iterator over its elements,
    /// front to back.
    pub fn into_iter(self) -> (it: IntoIter<T>)
        requires
            self.wf(),
        ensures
            it.wf(),
            it@ == self@,
    {
        IntoIter { stack: self }
    }

    /// Appends the pending elements of `iter` in order until the source is
    /// exhausted or this stack is full; in the latter case the iterator,
    /// holding exactly the unconsumed elements, is handed back in `Err`, and
    /// what was already appended stays appended. Fullness is tested before
    /// each element is drawn, so a source whose length equals the free
    /// space comes back exhausted in `Err`.
    pub fn extend_from_iter(&mut self, iter: IntoIter<T>) -> (r: Result<(), IntoIter<T>>)
        requires
            old(self).wf(),
            iter.wf(),
        ensures
            final(self).wf(),
            final(self).spec_capacity() == old(self).spec_capacity(),
            ({
                let free = old(self).spec_capacity() - old(self)@.len();
                &&& iter@.len() < free ==> r is Ok && final(self)@ == old(self)@ + iter@
                &&& iter@.len() >= free ==> (r matches Err(rest) && rest@ == iter@.skip(free)
                    && final(self)@ == old(self)@ + iter@.take(free))
            }),
    {
        let ghost orig = self@;
        let ghost source = iter@;
        let mut iter = iter;
        proof {
            assert(orig + source.take(0) =~= orig);
            assert(source.skip(0) =~= source);
        }
        #[verifier::loop_isolation(false)]
        loop
            invariant
                self.wf(),
                iter.wf(),
                self.spec_capacity() == old(self).spec_capacity(),
                orig.len() <= self@.len(),
                self@.len() <= orig.len() + source.len(),
                self@ == orig + source.take(self@.len() - orig.len()),
                iter@ == source.skip(self@.len() - orig.len()),
            decreases iter@.len(),
        {
            if self.is_full() {
                return Err(iter);
            } else if let Some(x) = iter.next() {
                self.push(x).ok();
                proof {
                    assert(self@ =~= orig + source.take(self@.len() - orig.len()));
                    assert(iter@ =~= source.skip(self@.len() - orig.len()));
                }
            } else {
                proof {
                    assert(self@ =~= orig + source);
                }
                return Ok(());
            }
        }
    }
}

impl<T> IntoIter<T> {
    /// The iterator invariant, carried over from the wrapped stack.
    pub closed spec fn wf(&self) -> bool {
        self.stack.wf()
    }

    /// The exact number of elements not yet handed out.
    pub fn remaining(&self) -> (n: usize)
        ensures
            n as int == self@.len(),
    {
        self.stack.len()
    }

    /// Removes and returns the front pending element, or `None` once the
    /// iterator is exhausted.
    pub fn next(&mut self) -> (r: Option<T>)
        requires
            old(self).wf(),
        ensures
            final(self).wf(),
            old(self)@.len() == 0 ==> r is None && final(self)@ == old(self)@,
            old(self)@.len() > 0 ==> r == Some(old(self)@.first())
                && final(self)@ == old(self)@.drop_first(),
    {
        if self.stack.is_empty() {
            None
        } else {
            let x = self.stack.remove(0);
            proof {
                assert(self@ =~= old(self)@.drop_first());
            }
            Some(x)
        }
    }

    /// Removes and returns the back pending element, or `None` once the
    /// iterator is exhausted.
    pub fn next_back(&mut self) -> (r: Option<T>)
        requires
            old(self).wf(),
        ensures
            final(self).wf(),
            old(self)@.len() == 0 ==> r is None && final(self)@ == old(self)@,
            old(self)@.len() > 0 ==> r == Some(old(self)@.last())
                && final(self)@ == old(self)@.drop_last(),
    {
        self.stack.pop()
    }

    /// The exact number of pending elements, as a lower and upper bound.
    pub fn size_hint(&self) -> (r: (usize, Option<usize>))
        ensures
            r.0 as int == self@.len(),
            r.1 == Some(r.0),
    {
        let n = self.stack.len();
        (n, Some(n))
    }

    /// Consumes the iterator, returning how many elements were pending.
    pub fn count(self) -> (n: usize)
        ensures
            n as int == self@.len(),
    {
        self.remaining()
    }
}

} // verus!
