//! The FIFO queue shared by the message path and the parked-producer path.
//!
//! The channel protocol only relies on the queue's push/pop contract: push
//! appends at the tail, pop takes the head or reports the queue empty. A
//! concurrent queue may additionally report a transient inconsistent state
//! while a producer is still linking its node; in this sequential model every
//! operation is a completed atomic step, so a pop always lands on `Data` or
//! `Empty`.

use vstd::prelude::*;

verus! {

/// Result of [`Queue::pop`].
#[derive(Debug, PartialEq, Eq)]
pub enum PopResult<T> {
    /// A value was dequeued.
    Data(T),
    /// The queue is observably empty.
    Empty,
}

/// A FIFO queue, viewed as the sequence of its elements, head first.
pub struct Queue<T> {
    items: Vec<T>,
}

impl<T> View for Queue<T> {
    type V = Seq<T>;

    closed spec fn view(&self) -> Seq<T> {
        self.items@
    }
}

impl<T> Queue<T> {
    /// Creates an empty queue.
    pub fn new() -> (q: Queue<T>)
        ensures
            q@ =~= Seq::<T>::empty(),
    {
        Queue { items: Vec::new() }
    }

    /// Appends `value` at the tail of the queue.
    pub fn push(&mut self, value: T)
        ensures
            final(self)@ == old(self)@.push(value),
    {
        self.items.push(value);
    }

    /// Takes the value at the head of the queue, or reports the queue empty.
    pub fn pop(&mut self) -> (r: PopResult<T>)
        ensures
            old(self)@.len() == 0 ==> r is Empty && final(self)@ == old(self)@,
            old(self)@.len() > 0 ==> r == PopResult::Data(old(self)@[0]) && final(self)@ == old(
                self,
            )@.drop_first(),
    {
        if self.items.len() == 0 {
            PopResult::Empty
        } else {
            let value = self.items.remove(0);
            proof {
                assert(self.items@ =~= old(self)@.drop_first());
            }
            PopResult::Data(value)
        }
    }

    /// The number of values currently in the queue.
    pub fn len(&self) -> (n: usize)
        ensures
            n == self@.len(),
    {
        self.items.len()
    }
}

} // verus!
