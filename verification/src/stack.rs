//! A last-in-first-out stack backed by a growable vector.

use vstd::prelude::*;

verus! {

/// A stack of values of type `T`. The view of a stack is the sequence of its
/// elements from bottom to top, so the top of the stack is the last element
/// of the view.
pub struct SimpleStack<T> {
    elems: Vec<T>,
}

impl<T> View for SimpleStack<T> {
    type V = Seq<T>;

    closed spec fn view(&self) -> Seq<T> {
        self.elems@
    }
}

impl<T> SimpleStack<T> {
    /// Returns an empty stack.
    pub fn new() -> (s: SimpleStack<T>)
        ensures
            s@ == Seq::<T>::empty(),
    {
        SimpleStack { elems: Vec::new() }
    }

    /// Pushes `value` on top of the stack.
    pub fn push(&mut self, value: T)
        ensures
            final(self)@ == old(self)@.push(value),
    {
        self.elems.push(value);
    }

    /// Removes and returns the top of the stack, or returns `None` and
    /// leaves the stack unchanged when the stack is empty.
    pub fn pop(&mut self) -> (r: Option<T>)
        ensures
            old(self)@.len() == 0 ==> r is None && final(self)@ == old(self)@,
            old(self)@.len() > 0 ==> r == Some(old(self)@.last()) && final(self)@
                == old(self)@.drop_last(),
    {
        self.elems.pop()
    }

    /// Returns the number of elements on the stack.
    pub fn len(&self) -> (n: usize)
        ensures
            n == self@.len(),
    {
        self.elems.len()
    }
}

} // verus!
