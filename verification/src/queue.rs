//! A first-in, first-out queue that its consumer empties in one step.
//!
//! The queue itself knows nothing of threads. Where producers on other threads
//! feed it, its owner keeps it behind a lock and holds the lock for one call at
//! a time: `take_all` leaves an empty queue behind at once, so that what is
//! pushed while the consumer works through a batch waits for the next batch
//! and is neither lost nor seen twice.

use std::collections::VecDeque;
use vstd::prelude::*;

verus! {

/// Items in the order of their arrival.
pub struct EventQueue<T> {
    items: VecDeque<T>,
}

impl<T> View for EventQueue<T> {
    type V = Seq<T>;

    /// The waiting items, the oldest first.
    closed spec fn view(&self) -> Seq<T> {
        self.items@
    }
}

impl<T> EventQueue<T> {
    /// An empty queue.
    pub fn new() -> (queue: Self)
        ensures
            queue@ == Seq::<T>::empty(),
    {
        EventQueue { items: VecDeque::new() }
    }

    /// How many items are waiting.
    pub fn len(&self) -> (n: usize)
        ensures
            n == self@.len(),
    {
        self.items.len()
    }

    /// Whether nothing is waiting.
    pub fn is_empty(&self) -> (empty: bool)
        ensures
            empty <==> self@.len() == 0,
    {
        self.items.len() == 0
    }

    /// Puts an item behind those that are waiting.
    pub fn push(&mut self, item: T)
        ensures
            final(self)@ == old(self)@.push(item),
    {
        self.items.push_back(item);
    }

    /// Takes the oldest item, if there is one.
    pub fn pop(&mut self) -> (item: Option<T>)
        ensures
            match item {
                Some(x) => old(self)@.len() > 0 && x == old(self)@[0] && final(self)@ == old(
                    self,
                )@.drop_first(),
                None => old(self)@.len() == 0 && final(self)@ == old(self)@,
            },
    {
        let item = self.items.pop_front();
        proof {
            if item is Some {
                assert(self@ =~= old(self)@.drop_first());
            }
        }
        item
    }

    /// Takes everything that is waiting, the oldest first, and leaves the
    /// queue empty.
    pub fn take_all(&mut self) -> (batch: Vec<T>)
        ensures
            batch@ == old(self)@,
            final(self)@ == Seq::<T>::empty(),
    {
        let mut taken: VecDeque<T> = VecDeque::new();
        std::mem::swap(&mut self.items, &mut taken);
        let mut batch: Vec<T> = Vec::new();
        loop
            invariant
                self.items@ == Seq::<T>::empty(),
                batch@ + taken@ == old(self)@,
            ensures
                taken@.len() == 0,
            decreases taken@.len(),
        {
            let ghost rest = taken@;
            let ghost done = batch@;
            match taken.pop_front() {
                Some(item) => {
                    batch.push(item);
                    proof {
                        assert(batch@ + taken@ =~= done + rest);
                    }
                },
                None => {
                    break ;
                },
            }
        }
        proof {
            assert(batch@ =~= batch@ + taken@);
        }
        batch
    }
}

} // verus!
