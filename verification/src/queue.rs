use vstd::prelude::*;
use crate::extension_traits::vec::UnshiftTrait;

verus! {

/// A first-in-first-out queue backed by a `Vec`.
///
/// The view of a queue is the sequence of elements still waiting, front
/// first: `enqueue` appends at the tail, `dequeue` removes at the head, so
/// dequeue order always equals enqueue order.
pub struct FIFOQueue<T: Clone> {
    list: Vec<T>,
}

impl<T: Clone> View for FIFOQueue<T> {
    type V = Seq<T>;

    closed spec fn view(&self) -> Seq<T> {
        self.list@
    }
}

impl<T: Clone> FIFOQueue<T> {
    /// Creates an empty queue.
    pub fn new() -> (q: Self)
        ensures
            q@ == Seq::<T>::empty(),
    {
        FIFOQueue { list: Vec::new() }
    }

    /// Creates a queue holding the elements of `v`, in the same order:
    /// `v`'s first element is the head of the queue.
    pub fn from_vec(v: Vec<T>) -> (q: Self)
        ensures
            q@ == v@,
    {
        FIFOQueue { list: v }
    }

    /// Removes and returns the head of the queue, or returns `None` and
    /// leaves the queue unchanged if it is empty.
    pub fn dequeue(&mut self) -> (r: Option<T>)
        ensures
            old(self)@.len() == 0 ==> r is None && final(self)@ == old(self)@,
            old(self)@.len() > 0 ==> r == Some(old(self)@[0])
                && final(self)@ == old(self)@.drop_first(),
    {
        self.list.unshift()
    }

    /// Appends `item` at the tail of the queue.
    pub fn enqueue(&mut self, item: T)
        ensures
            final(self)@ == old(self)@.push(item),
    {
        self.list.push(item);
    }

    /// Returns a reference to the head of the queue without removing it,
    /// or `None` if the queue is empty.
    pub fn next(&self) -> (r: Option<&T>)
        ensures
            self@.len() == 0 ==> r is None,
            self@.len() > 0 ==> (r matches Some(x) && *x == self@[0]),
    {
        if self.list.len() == 0 {
            None
        } else {
            Some(&self.list[0])
        }
    }

    /// Returns the number of elements waiting in the queue.
    pub fn size(&self) -> (n: usize)
        ensures
            n == self@.len(),
    {
        self.list.len()
    }
}

} // verus!
