//! Bounded FIFO queues connecting the consumer and the driver.
//!
//! Both directions of the bridge use the same discipline: a fixed
//! capacity, a non-blocking submit that reports (instead of hiding)
//! a dropped message, and a non-blocking poll.

use vstd::prelude::*;

verus! {

/// The fixed capacity of both bridge queues.
pub const QUEUE_CAPACITY: usize = 10;

/// A bounded FIFO queue. `submit` never blocks: on a full queue it
/// drops the message and says so. `poll` never blocks: on an empty
/// queue it returns nothing.
pub struct BoundedQueue<T> {
    items: Vec<T>,
}

impl<T> View for BoundedQueue<T> {
    type V = Seq<T>;

    closed spec fn view(&self) -> Seq<T> {
        self.items@
    }
}

impl<T> BoundedQueue<T> {
    /// The queue never holds more than its capacity.
    pub open spec fn inv(&self) -> bool {
        self@.len() <= QUEUE_CAPACITY
    }

    /// Creates an empty queue.
    pub fn new() -> (q: Self)
        ensures
            q@ == Seq::<T>::empty(),
            q.inv(),
    {
        BoundedQueue { items: Vec::new() }
    }

    /// The number of messages pending in the queue.
    pub fn len(&self) -> (n: usize)
        ensures
            n == self@.len(),
    {
        self.items.len()
    }

    /// Non-blocking submit: appends the message if there is room and
    /// returns whether it was accepted. A `false` return is the
    /// queue-full failure, surfaced synchronously at the call site so
    /// a drop is never silent.
    pub fn submit(&mut self, item: T) -> (accepted: bool)
        ensures
            accepted == (old(self)@.len() < QUEUE_CAPACITY),
            accepted ==> final(self)@ == old(self)@.push(item),
            !accepted ==> final(self)@ == old(self)@,
            old(self).inv() ==> final(self).inv(),
    {
        if self.items.len() < QUEUE_CAPACITY {
            self.items.push(item);
            true
        } else {
            false
        }
    }

    /// Non-blocking poll: removes and returns the oldest pending
    /// message, or returns nothing if the queue is empty. Messages
    /// come out in exactly the order they were accepted.
    pub fn poll(&mut self) -> (r: Option<T>)
        ensures
            old(self)@.len() == 0 ==> r is None && final(self)@ == old(self)@,
            old(self)@.len() > 0 ==> r == Some(old(self)@[0]) && final(self)@ == old(self)@.subrange(
                1,
                old(self)@.len() as int,
            ),
            old(self).inv() ==> final(self).inv(),
    {
        if self.items.len() == 0 {
            None
        } else {
            let item = self.items.remove(0);
            Some(item)
        }
    }
}

} // verus!
