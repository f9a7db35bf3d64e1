//! A fixed-capacity, array-backed sequence container.
//!
//! A [`Stack`] stores up to a capacity fixed at construction time and keeps
//! a growable-sequence interface (push, pop, insert, remove, resize, ...).
//! Overflow is always reported to the caller: whenever an operation cannot
//! store a value, ownership of that value (or of the unconsumed remainder)
//! is handed back instead of being dropped silently.

mod iter;
mod laws;
mod stack;

pub use iter::IntoIter;
pub use laws::lemma_insert_remove_inverse;
pub use laws::lemma_push_pop_duality;
pub use stack::Stack;
