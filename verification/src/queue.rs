use vstd::prelude::*;
use std::collections::VecDeque;
use crate::interface::NvmeCommand;

verus! {

/// A submission/completion queue pair together with its doorbell bookkeeping.
pub struct NvmeQueue {
    pub sq: VecDeque<NvmeCommand>,
    pub cq: VecDeque<NvmeCommand>,
    /// Queue doorbell register.
    pub q_db: usize,
    pub q_depth: usize,
    pub cq_vector: usize,
    pub sq_head: usize,
    pub sq_tail: usize,
    pub qid: usize,
}

impl NvmeQueue {
    /// An empty queue: both rings empty and every register field zero.
    pub open spec fn is_fresh(&self) -> bool {
        &&& self.sq@ == Seq::<NvmeCommand>::empty()
        &&& self.cq@ == Seq::<NvmeCommand>::empty()
        &&& self.q_db == 0
        &&& self.q_depth == 0
        &&& self.cq_vector == 0
        &&& self.sq_head == 0
        &&& self.sq_tail == 0
        &&& self.qid == 0
    }

    pub fn new() -> (q: Self)
        ensures
            q.is_fresh(),
    {
        NvmeQueue {
            sq: VecDeque::new(),
            cq: VecDeque::new(),
            q_db: 0,
            q_depth: 0,
            cq_vector: 0,
            sq_head: 0,
            sq_tail: 0,
            qid: 0,
        }
    }

    /// Tail of the submission queue after one more command is stored: one further
    /// along the ring of `q_depth` slots, back to 0 past the last slot. A queue
    /// without slots (`q_depth == 0`) keeps its tail.
    pub open spec fn next_tail(tail: usize, depth: usize) -> usize {
        if depth == 0 {
            tail
        } else {
            ((tail + 1) % (depth as int)) as usize
        }
    }

    /// Around a ring of `depth` slots the tail moves to the next slot, and from the
    /// last slot back to slot 0; it always stays in the ring.
    pub proof fn lemma_next_tail(tail: usize, depth: usize)
        requires
            0 < depth,
            tail < depth,
        ensures
            tail + 1 < depth ==> Self::next_tail(tail, depth) == tail + 1,
            tail + 1 == depth ==> Self::next_tail(tail, depth) == 0,
            Self::next_tail(tail, depth) < depth,
    {
        if tail + 1 < depth {
            vstd::arithmetic::div_mod::lemma_small_mod((tail + 1) as nat, depth as nat);
        } else {
            vstd::arithmetic::div_mod::lemma_mod_self_0(depth as int);
        }
    }

    /// Every field but the submission queue and its tail is the same in `self` and `other`.
    pub open spec fn same_except_sq(&self, other: &NvmeQueue) -> bool {
        &&& self.cq@ == other.cq@
        &&& self.q_db == other.q_db
        &&& self.q_depth == other.q_depth
        &&& self.cq_vector == other.cq_vector
        &&& self.sq_head == other.sq_head
        &&& self.qid == other.qid
    }

    /// Stores `cmd` at the front of the submission queue and advances the tail.
    pub fn sq_push(&mut self, cmd: NvmeCommand)
        ensures
            final(self).sq@ == seq![cmd] + old(self).sq@,
            final(self).sq_tail == Self::next_tail(old(self).sq_tail, old(self).q_depth),
            old(self).q_depth > 0 ==> final(self).sq_tail == (old(self).sq_tail + 1) % (old(self).q_depth as int),
            old(self).q_depth > 0 && old(self).sq_tail + 1 < old(self).q_depth ==> final(self).sq_tail == old(self).sq_tail + 1,
            old(self).q_depth > 0 && old(self).sq_tail + 1 == old(self).q_depth ==> final(self).sq_tail == 0,
            old(self).q_depth > 0 ==> final(self).sq_tail < old(self).q_depth,
            old(self).q_depth == 0 ==> final(self).sq_tail == old(self).sq_tail,
            final(self).same_except_sq(old(self)),
    {
        self.sq.push_front(cmd);
        if self.q_depth > 0 {
            let t = self.sq_tail % self.q_depth;
            let ghost d = self.q_depth as int;
            let ghost old_tail = self.sq_tail as int;
            proof {
                vstd::arithmetic::div_mod::lemma_add_mod_noop(old_tail, 1, d);
                vstd::arithmetic::div_mod::lemma_mod_twice(old_tail, d);
                vstd::arithmetic::div_mod::lemma_mod_bound(old_tail, d);
                if old_tail < d {
                    vstd::arithmetic::div_mod::lemma_small_mod(old_tail as nat, d as nat);
                }
                if d > 1 {
                    vstd::arithmetic::div_mod::lemma_small_mod(1, d as nat);
                }
            }
            if t + 1 == self.q_depth {
                proof {
                    vstd::arithmetic::div_mod::lemma_mod_self_0(d);
                }
                self.sq_tail = 0;
            } else {
                proof {
                    vstd::arithmetic::div_mod::lemma_small_mod((t + 1) as nat, d as nat);
                }
                self.sq_tail = t + 1;
            }
        }
    }
}

} // verus!
