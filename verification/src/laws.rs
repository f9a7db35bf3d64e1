//! Laws relating the container's operations to one another, stated over the
//! same views that the operations' contracts use.

use vstd::prelude::*;

use crate::stack::Stack;

verus! {

/// Push/pop duality: on a non-full stack, popping immediately after
/// `push(v)` hands `v` back and restores the prior sequence, so in
/// particular the prior length.
pub proof fn lemma_push_pop_duality<T>(s: Stack<T>, v: T)
    requires
        s.wf(),
        s@.len() < s.spec_capacity(),
    ensures
        s@.push(v).len() == s@.len() + 1,
        s@.push(v).last() == v,
        s@.push(v).drop_last() == s@,
{
    assert(s@.push(v).drop_last() =~= s@);
}

/// Insert/remove inverse: on a non-full stack, removing at `index`
/// immediately after inserting `v` there hands `v` back and restores the
/// prior sequence exactly.
pub proof fn lemma_insert_remove_inverse<T>(s: Stack<T>, index: usize, v: T)
    requires
        s.wf(),
        s@.len() < s.spec_capacity(),
        index <= s@.len(),
    ensures
        s@.insert(index as int, v)[index as int] == v,
        s@.insert(index as int, v).remove(index as int) == s@,
{
    assert(s@.insert(index as int, v).remove(index as int) =~= s@);
}

} // verus!
