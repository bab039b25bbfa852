//! A bounded first-in first-out queue over a fixed ring of slots. One slot
//! always stays free, which tells a full ring from an empty one: a ring of
//! `n` slots holds at most `n - 1` items.

use vstd::prelude::*;

verus! {

/// `x` taken back into `0..n`, for `x < 2 * n`.
pub open spec fn wrap(x: int, n: int) -> int {
    if x < n {
        x
    } else {
        x - n
    }
}

/// A queue in a ring of slots. Its view is the queued items, oldest first.
pub struct RingBuffer<T> {
    ring: Vec<T>,
    head: usize,
    tail: usize,
}

impl<T: Copy> View for RingBuffer<T> {
    type V = Seq<T>;

    closed spec fn view(&self) -> Seq<T> {
        Seq::new(
            wrap(self.tail + self.ring@.len() - self.head, self.ring@.len() as int) as nat,
            |i: int| self.ring@[wrap(self.head + i, self.ring@.len() as int)],
        )
    }
}

impl<T: Copy> RingBuffer<T> {
    /// The number of slots in the ring.
    pub closed spec fn slots(&self) -> nat {
        self.ring@.len()
    }

    /// The most items the queue can hold.
    pub open spec fn capacity(&self) -> nat {
        (self.slots() - 1) as nat
    }

    /// The ring has a slot, and both ends point into it.
    pub closed spec fn wf(&self) -> bool {
        &&& self.ring@.len() > 0
        &&& self.head < self.ring@.len()
        &&& self.tail < self.ring@.len()
    }

    /// A well-formed queue never holds more than its capacity.
    pub proof fn lemma_bounded(&self)
        requires
            self.wf(),
        ensures
            self@.len() <= self.capacity(),
    {
    }

    /// An empty queue in the given ring of slots; what the slots hold is of
    /// no account.
    pub fn new(ring: Vec<T>) -> (q: RingBuffer<T>)
        requires
            ring@.len() > 0,
        ensures
            q.wf(),
            q.slots() == ring@.len(),
            q@ == Seq::<T>::empty(),
    {
        RingBuffer { ring, head: 0, tail: 0 }
    }

    /// An empty queue in a ring of `slots` slots.
    pub fn with_slots(slots: usize, fill: T) -> (q: RingBuffer<T>)
        requires
            slots > 0,
        ensures
            q.wf(),
            q.slots() == slots,
            q@ == Seq::<T>::empty(),
    {
        let mut ring: Vec<T> = Vec::new();
        let mut i: usize = 0;
        while i < slots
            invariant
                i <= slots,
                ring@.len() == i,
            decreases slots - i,
        {
            ring.push(fill);
            i = i + 1;
        }
        RingBuffer { ring, head: 0, tail: 0 }
    }

    /// Whether anything is queued.
    pub fn has_elements(&self) -> (r: bool)
        requires
            self.wf(),
        ensures
            r == (self@.len() > 0),
    {
        self.head != self.tail
    }

    /// Whether the queue holds as much as it can.
    pub fn is_full(&self) -> (r: bool)
        requires
            self.wf(),
        ensures
            r == (self@.len() == self.capacity()),
    {
        let n = self.ring.len();
        let next = if self.tail + 1 == n {
            0
        } else {
            self.tail + 1
        };
        self.head == next
    }

    /// The number of queued items.
    pub fn len(&self) -> (n: usize)
        requires
            self.wf(),
        ensures
            n == self@.len(),
    {
        if self.tail > self.head {
            self.tail - self.head
        } else if self.tail < self.head {
            (self.ring.len() - self.head) + self.tail
        } else {
            0
        }
    }

    /// Appends `val` if there is room, and says whether there was.
    pub fn enqueue(&mut self, val: T) -> (r: bool)
        requires
            old(self).wf(),
        ensures
            final(self).wf(),
            final(self).slots() == old(self).slots(),
            r == (old(self)@.len() < old(self).capacity()),
            r ==> final(self)@ == old(self)@.push(val),
            !r ==> final(self)@ == old(self)@,
    {
        let n = self.ring.len();
        let next = if self.tail + 1 == n {
            0
        } else {
            self.tail + 1
        };
        if next == self.head {
            false
        } else {
            let tail = self.tail;
            self.ring[tail] = val;
            self.tail = next;
            proof {
                assert(self@.len() == old(self)@.len() + 1);
                assert forall|i: int| 0 <= i < self@.len() implies self@[i] == old(self)@.push(
                    val,
                )[i] by {
                    if i < old(self)@.len() {
                        assert(wrap(self.head + i, n as int) != tail);
                    }
                }
                assert(self@ =~= old(self)@.push(val));
            }
            true
        }
    }

    /// The oldest item, if there is one; it stays in the queue.
    pub fn peek(&self) -> (r: Option<T>)
        requires
            self.wf(),
        ensures
            r == if self@.len() > 0 {
                Some(self@[0])
            } else {
                None
            },
    {
        if self.head != self.tail {
            Some(self.ring[self.head])
        } else {
            None
        }
    }

    /// Takes the oldest item out, if there is one.
    pub fn dequeue(&mut self) -> (r: Option<T>)
        requires
            old(self).wf(),
        ensures
            final(self).wf(),
            final(self).slots() == old(self).slots(),
            old(self)@.len() == 0 ==> r is None && final(self)@ == old(self)@,
            old(self)@.len() > 0 ==> r == Some(old(self)@[0]) && final(self)@ == old(
                self,
            )@.subrange(1, old(self)@.len() as int),
    {
        if self.head != self.tail {
            let n = self.ring.len();
            let val = self.ring[self.head];
            let next = if self.head + 1 == n {
                0
            } else {
                self.head + 1
            };
            self.head = next;
            proof {
                assert(self@.len() == old(self)@.len() - 1);
                assert forall|i: int| 0 <= i < self@.len() implies self@[i] == old(self)@[i
                    + 1] by {
                    assert(wrap(self.head + i, n as int) == wrap(
                        old(self).head + (i + 1),
                        n as int,
                    ));
                }
                assert(self@ =~= old(self)@.subrange(1, old(self)@.len() as int));
            }
            Some(val)
        } else {
            None
        }
    }

    /// Drops everything that is queued.
    pub fn empty(&mut self)
        requires
            old(self).wf(),
        ensures
            final(self).wf(),
            final(self).slots() == old(self).slots(),
            final(self)@ == Seq::<T>::empty(),
    {
        self.head = 0;
        self.tail = 0;
    }
}

} // verus!
