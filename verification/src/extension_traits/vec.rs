use vstd::prelude::*;

verus! {

/// Removing the head of a sequence-like collection.
///
/// `unshift` is the mirror image of `push`: it takes the first element out
/// of the collection and shifts the rest one place towards the front, so
/// repeated calls hand the elements back in the order they were appended.
pub trait UnshiftTrait<T> {
    /// The elements currently held, front first.
    spec fn elems(&self) -> Seq<T>;

    /// Returns the first element, or `None` if the collection is empty.
    /// The returned element is removed from the collection.
    fn unshift(&mut self) -> (r: Option<T>)
        ensures
            old(self).elems().len() == 0 ==> r is None && final(self).elems() == old(self).elems(),
            old(self).elems().len() > 0 ==> r == Some(old(self).elems()[0])
                && final(self).elems() == old(self).elems().drop_first(),
    ;
}

impl<T: Clone> UnshiftTrait<T> for Vec<T> {
    open spec fn elems(&self) -> Seq<T> {
        self@
    }

    fn unshift(&mut self) -> (r: Option<T>) {
        if self.len() == 0 {
            None
        } else {
            Some(self.remove(0))
        }
    }
}

} // verus!
