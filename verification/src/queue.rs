//! The bounded input queue.
//!
//! Encoded keystrokes travel from the event loop to the input writer through
//! a bounded first-in-first-out queue of [`INPUT_QUEUE_CAPACITY`] entries.
//! Backpressure is intentional: when the queue is full the producer is
//! refused — and so held back — rather than having keystrokes dropped or
//! reordered. This type states that discipline; a shell that hands the
//! entries between threads realizes it with a bounded channel of the same
//! capacity, whose blocking send is the refusal here.

use vstd::prelude::*;

verus! {

/// Capacity used for the session's input queue: a small number of pending
/// keystrokes.
pub const INPUT_QUEUE_CAPACITY: usize = 32;

/// A bounded first-in-first-out queue of encoded byte sequences.
pub struct BoundedQueue {
    items: Vec<Vec<u8>>,
    cap: usize,
}

impl View for BoundedQueue {
    type V = Seq<Seq<u8>>;

    closed spec fn view(&self) -> Seq<Seq<u8>> {
        self.items@.map(|i: int, v: Vec<u8>| v@)
    }
}

impl BoundedQueue {
    /// The fixed capacity the queue was created with.
    pub closed spec fn capacity(self) -> usize {
        self.cap
    }

    /// The queue never holds more than its capacity.
    pub open spec fn wf(self) -> bool {
        self@.len() <= self.capacity()
    }

    /// Creates an empty queue with the given capacity.
    pub fn new(cap: usize) -> (q: BoundedQueue)
        requires
            cap >= 1,
        ensures
            q.wf(),
            q@ == Seq::<Seq<u8>>::empty(),
            q.capacity() == cap,
    {
        let q = BoundedQueue { items: Vec::new(), cap };
        proof {
            assert(q@ =~= Seq::<Seq<u8>>::empty());
        }
        q
    }

    /// The number of pending entries.
    pub fn len(&self) -> (n: usize)
        ensures
            n == self@.len(),
    {
        self.items.len()
    }

    /// Appends `data` at the back if there is room. A full queue refuses the
    /// entry and is left exactly as it was: the producer must wait; nothing
    /// is dropped and nothing is reordered.
    pub fn try_enqueue(&mut self, data: Vec<u8>) -> (accepted: bool)
        requires
            old(self).wf(),
        ensures
            final(self).wf(),
            final(self).capacity() == old(self).capacity(),
            old(self)@.len() < old(self).capacity() ==> accepted && final(self)@ == old(
                self,
            )@.push(data@),
            old(self)@.len() >= old(self).capacity() ==> !accepted && final(self)@ == old(self)@,
    {
        if self.items.len() < self.cap {
            self.items.push(data);
            proof {
                assert(self@ =~= old(self)@.push(data@));
            }
            true
        } else {
            false
        }
    }

    /// Takes the oldest entry, in first-in-first-out order.
    pub fn dequeue(&mut self) -> (r: Option<Vec<u8>>)
        requires
            old(self).wf(),
        ensures
            final(self).wf(),
            final(self).capacity() == old(self).capacity(),
            old(self)@.len() == 0 ==> r is None && final(self)@ == old(self)@,
            old(self)@.len() > 0 ==> (r matches Some(v) && v@ == old(self)@[0] && final(self)@
                == old(self)@.drop_first()),
    {
        if self.items.len() == 0 {
            None
        } else {
            let v = self.items.remove(0);
            proof {
                assert(self@ =~= old(self)@.drop_first());
            }
            Some(v)
        }
    }
}

} // verus!
