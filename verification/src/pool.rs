//! A model of the connection pool's lease discipline: a bounded set of
//! connections, each leased to at most one request at a time.
//!
//! The pool is a fixed array of slots, one per connection; a slot is
//! either free or leased.  Acquisition hands out a free slot exclusively
//! and fails — never corrupting or double-assigning a lease — when every
//! slot is taken; release returns a slot to the free list.

use vstd::prelude::*;
use crate::response::HandlerError;

verus! {

/// A bounded pool of connection slots; `true` marks a slot as leased.
pub struct ConnPool {
    pub slots: Vec<bool>,
}

/// What one acquisition does to the pool: when a free slot exists, some
/// free slot becomes leased and its index is handed out exclusively;
/// when every slot is leased the pool reports exhaustion and nothing
/// changes.
pub open spec fn acquire_step(pre: ConnPool, post: ConnPool, r: Result<usize, HandlerError>) -> bool {
    &&& post.slots@.len() == pre.slots@.len()
    &&& r is Ok <==> (exists|i: int| 0 <= i < pre.slots@.len() && !pre.slots@[i])
    &&& (r matches Ok(c) ==> c < pre.slots@.len() && !pre.slots@[c as int]
        && post.slots@ == pre.slots@.update(c as int, true))
    &&& (r matches Err(e) ==> e == HandlerError::Pool && post.slots@ == pre.slots@)
}

impl ConnPool {
    /// How many connections the pool was built with.
    pub open spec fn capacity(self) -> nat {
        self.slots@.len()
    }

    /// Whether the connection at `c` is currently leased out.
    pub open spec fn is_leased(self, c: int) -> bool {
        0 <= c < self.slots@.len() && self.slots@[c]
    }

    /// A pool of `capacity` connections, all free.
    pub fn new(capacity: usize) -> (p: ConnPool)
        ensures
            p.capacity() == capacity,
            forall|c: int| !p.is_leased(c),
    {
        let mut slots: Vec<bool> = Vec::new();
        let mut i: usize = 0;
        while i < capacity
            invariant
                0 <= i <= capacity,
                slots@.len() == i,
                forall|c: int| 0 <= c < i ==> !slots@[c],
            decreases capacity - i,
        {
            slots.push(false);
            i += 1;
        }
        ConnPool { slots }
    }

    /// Checks out a connection: the index of a slot that was free and is
    /// now leased to the caller alone, or a pool error — leaving every
    /// lease as it was — when all slots are taken.
    pub fn acquire(&mut self) -> (r: Result<usize, HandlerError>)
        ensures
            acquire_step(*old(self), *final(self), r),
    {
        let n = self.slots.len();
        let mut i: usize = 0;
        while i < n
            invariant
                n == self.slots@.len(),
                0 <= i <= n,
                self.slots@ == old(self).slots@,
                forall|c: int| 0 <= c < i ==> self.slots@[c],
            decreases n - i,
        {
            if !self.slots[i] {
                proof {
                    assert(0 <= i < old(self).slots@.len() && !old(self).slots@[i as int]);
                }
                self.slots.set(i, true);
                return Ok(i);
            }
            i += 1;
        }
        proof {
            assert forall|j: int| !(0 <= j < old(self).slots@.len() && !old(self).slots@[j]) by {
                if 0 <= j < old(self).slots@.len() {
                    assert(self.slots@[j]);
                }
            }
        }
        Err(HandlerError::Pool)
    }

    /// Returns a leased connection to the pool; only that slot changes.
    pub fn release(&mut self, c: usize)
        requires
            old(self).is_leased(c as int),
        ensures
            final(self).slots@ == old(self).slots@.update(c as int, false),
    {
        self.slots.set(c, false);
    }
}

/// Exhaustion is reported, never mis-assigned: a pool whose every slot is
/// leased answers the next acquisition with the pool error and no lease
/// changes hands.
pub proof fn lemma_pool_exhaustion(pre: ConnPool, post: ConnPool, r: Result<usize, HandlerError>)
    requires
        acquire_step(pre, post, r),
        forall|c: int| 0 <= c < pre.slots@.len() ==> pre.is_leased(c),
    ensures
        r == Err::<usize, HandlerError>(HandlerError::Pool),
        post.slots@ == pre.slots@,
{
    if r is Ok {
        let i = choose|i: int| 0 <= i < pre.slots@.len() && !pre.slots@[i];
        assert(pre.is_leased(i));
    }
}

/// No cross-assignment: two acquisitions that both succeed, the second
/// from the state the first left behind, hand out distinct connections —
/// a lease is exclusive for its duration.
pub proof fn lemma_no_cross_assignment(
    p0: ConnPool,
    p1: ConnPool,
    p2: ConnPool,
    c1: usize,
    c2: usize,
)
    requires
        acquire_step(p0, p1, Ok(c1)),
        acquire_step(p1, p2, Ok(c2)),
    ensures
        c1 != c2,
        p1.is_leased(c1 as int),
        p2.is_leased(c1 as int),
        p2.is_leased(c2 as int),
{
    assert(p1.slots@[c1 as int]);
    assert(!p1.slots@[c2 as int]);
}

} // verus!
