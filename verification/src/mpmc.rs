//! Multi-producer/multi-consumer bounded FIFO core.
//!
//! Per the classical bounded multi-writer ring-buffer design, a single
//! shared enqueue cursor and a single shared dequeue cursor are paired with
//! one sequence counter per slot, initialized to that slot's index.  A
//! producer at position `pos` may claim slot `pos mod capacity` exactly when
//! the slot's sequence equals `pos`; after writing the value it marks the
//! slot readable by setting the sequence to `pos + 1`.  A consumer at
//! position `pos` expects the sequence `pos + 1`, and after reading the
//! value frees the slot for the *next* cycle by setting the sequence to
//! `pos + capacity`.  A sequence below the expected mark means the queue is
//! full (respectively empty); one above it means another thread got there
//! first and the stale cursor read must be retried — with a single caller at
//! a time, as verified here, that case cannot arise.
//!
//! The readable mark `pos + 1` must differ from the free mark of the next
//! cycle through the slot, `pos + capacity`; with one slot the two coincide
//! and producers could no longer tell a full queue from a free slot.  The
//! constructor therefore rejects capacities below 2 as a configuration
//! error, a documented sizing constraint of this core (the
//! single-producer/single-consumer core takes any positive capacity).
//!
//! The abstract state of a queue is the sequence of published-but-unconsumed
//! values in enqueue-cursor order (`self@`); every operation's contract is
//! stated over that sequence.

use core::marker::PhantomData;
use vstd::prelude::*;

use crate::buffer::Buffer;
use crate::ring::{lemma_mod_idempotent, lemma_window_distinct, lemma_wrap_same_slot};
use crate::Empty;

verus! {

/// Bounded multi-producer/multi-consumer FIFO queue over a storage
/// backend `B`.
pub struct MpmcQueue<T, B: Buffer<T>> {
    buf: B,
    /// One sequence counter per slot, signalling whose turn the slot is.
    seqs: Vec<u64>,
    /// Dequeue cursor: the logical position of the next value to consume.
    head: u64,
    /// Enqueue cursor: the logical position of the next value to produce.
    tail: u64,
    _values: PhantomData<T>,
}

impl<T, B: Buffer<T>> View for MpmcQueue<T, B> {
    type V = Seq<T>;

    /// The published-but-unconsumed values in enqueue-cursor order.
    closed spec fn view(&self) -> Seq<T> {
        Seq::new(
            (self.tail - self.head) as nat,
            |i: int| self.buf.slots()[(self.head + i) % self.capacity()].unwrap(),
        )
    }
}

impl<T, B: Buffer<T>> MpmcQueue<T, B> {
    /// The fixed number of slots.
    pub closed spec fn capacity(&self) -> int {
        self.buf.slots().len() as int
    }

    /// The enqueue cursor: how many values have ever been pushed.
    pub closed spec fn enqueue_pos(&self) -> u64 {
        self.tail
    }

    /// The dequeue cursor: how many values have ever been popped.
    pub closed spec fn dequeue_pos(&self) -> u64 {
        self.head
    }

    /// The sequencing protocol's per-position state.  Each logical position
    /// `p` of the current window addresses slot `p mod capacity`; a
    /// published position holds its value and the readable mark `p + 1`,
    /// while a position not yet produced has an empty slot bearing the free
    /// mark `p`.
    closed spec fn turn_ok(&self, p: int) -> bool {
        let k = p % self.capacity();
        if p < self.tail {
            self.seqs@[k] == p + 1 && self.buf.slots()[k] is Some
        } else {
            self.seqs@[k] == p && self.buf.slots()[k] is None
        }
    }

    /// Queue invariant: the dequeue cursor never exceeds the enqueue cursor,
    /// at most `capacity` values are in flight, and every position of the
    /// window starting at the dequeue cursor is in its protocol state.
    pub closed spec fn wf(&self) -> bool {
        &&& self.buf.wf()
        &&& self.capacity() >= 2
        &&& self.seqs@.len() == self.capacity()
        &&& self.head <= self.tail
        &&& self.tail - self.head <= self.capacity()
        &&& forall|p: int| self.head <= p < self.head + self.capacity() ==> #[trigger] self.turn_ok(p)
    }

    /// Single-attempt push.  Reads the slot's sequence counter at the
    /// enqueue cursor: when it matches the cursor, the slot is claimed, the
    /// value written and the slot marked readable; a lower counter means the
    /// consumer side has not yet freed the slot — the queue is full and the
    /// un-enqueued value is returned to the caller.
    pub fn try_push(&mut self, v: T) -> (r: Result<(), T>)
        requires
            old(self).wf(),
            old(self).enqueue_pos() < u64::MAX,
        ensures
            final(self).wf(),
            final(self).capacity() == old(self).capacity(),
            final(self).dequeue_pos() == old(self).dequeue_pos(),
            r is Ok <==> old(self)@.len() < old(self).capacity(),
            r is Ok ==> final(self)@ == old(self)@.push(v) && final(self).enqueue_pos()
                == old(self).enqueue_pos() + 1,
            r is Err ==> r->Err_0 == v && *final(self) == *old(self) && old(self)@.len()
                == old(self).capacity(),
    {
        let cap = self.buf.size();
        let ghost c = self.capacity();
        let pos = self.tail;
        let k = (pos % (cap as u64)) as usize;
        proof {
            lemma_mod_idempotent(pos as int, c);
            if self.tail - self.head < c {
                assert(self.turn_ok(pos as int));
            } else {
                lemma_wrap_same_slot(self.head as int, c);
                assert(self.turn_ok(self.head as int));
                assert(self.seqs@[pos as int % c] == self.head + 1);
            }
        }
        let s = self.seqs[k];
        if s == pos {
            let ghost claimed = pos as int;
            self.buf.put_at(k, v);
            self.seqs.set(k, pos + 1);
            self.tail = pos + 1;
            proof {
                assert forall|p: int| self.head <= p < self.head + c implies #[trigger] self
                    .turn_ok(p) by {
                    assert(old(self).turn_ok(p));
                    if p != claimed {
                        if p < claimed {
                            lemma_window_distinct(p, claimed, c);
                        } else {
                            lemma_window_distinct(claimed, p, c);
                        }
                    }
                }
                assert forall|i: int| 0 <= i < self@.len() implies self@[i] == old(
                    self,
                )@.push(v)[i] by {
                    if self.head + i != claimed {
                        lemma_window_distinct(self.head + i, claimed, c);
                    }
                }
                assert(self@ =~= old(self)@.push(v));
            }
            Ok(())
        } else {
            // The sequence is below the cursor: the slot still holds the
            // value from the previous cycle, so the queue is full.  (A
            // sequence above the cursor would mean a concurrent producer won
            // the claim; the invariant rules that out for a lone caller.)
            Err(v)
        }
    }

    /// Single-attempt pop.  Reads the slot's sequence counter at the dequeue
    /// cursor: when it carries the readable mark (cursor plus one), the
    /// value is taken and the slot freed for the next cycle by marking it
    /// with the cursor plus the capacity; otherwise no value is currently
    /// published.
    pub fn try_pop(&mut self) -> (r: Result<T, Empty>)
        requires
            old(self).wf(),
            old(self)@.len() > 0 ==> old(self).dequeue_pos() + old(self).capacity() <= u64::MAX,
        ensures
            final(self).wf(),
            final(self).capacity() == old(self).capacity(),
            final(self).enqueue_pos() == old(self).enqueue_pos(),
            r is Ok <==> old(self)@.len() > 0,
            r is Ok ==> r->Ok_0 == old(self)@[0] && final(self)@ == old(self)@.drop_first()
                && final(self).dequeue_pos() == old(self).dequeue_pos() + 1,
            r is Err ==> *final(self) == *old(self),
    {
        let cap = self.buf.size();
        let ghost c = self.capacity();
        let pos = self.head;
        let k = (pos % (cap as u64)) as usize;
        proof {
            lemma_mod_idempotent(pos as int, c);
            assert(self.turn_ok(pos as int));
        }
        let s = self.seqs[k];
        if s == pos {
            // This turn's slot has not been published yet: the queue is
            // empty.  (With a value in flight the slot would carry the
            // readable mark `pos + 1`.)
            Err(Empty)
        } else {
            let ghost claimed = pos as int;
            let taken = self.buf.take_at(k);
            self.seqs.set(k, pos + cap as u64);
            self.head = pos + 1;
            proof {
                assert forall|p: int| self.head <= p < self.head + c implies #[trigger] self
                    .turn_ok(p) by {
                    if p == claimed + c {
                        lemma_wrap_same_slot(claimed, c);
                    } else {
                        lemma_window_distinct(claimed, p, c);
                        assert(old(self).turn_ok(p));
                    }
                }
                assert forall|i: int| 0 <= i < self@.len() implies self@[i] == old(
                    self,
                )@.drop_first()[i] by {
                    lemma_window_distinct(claimed, self.head + i, c);
                }
                assert(self@ =~= old(self)@.drop_first());
            }
            match taken {
                Some(x) => Ok(x),
                None => Err(Empty),
            }
        }
    }

    /// Push, waiting for space.  With a single caller the wait never
    /// engages: the contract demands that a slot is free, and the push
    /// completes at once; concurrent consumers would instead free a slot
    /// eventually.
    pub fn push(&mut self, v: T)
        requires
            old(self).wf(),
            old(self)@.len() < old(self).capacity(),
            old(self).enqueue_pos() < u64::MAX,
        ensures
            final(self).wf(),
            final(self).capacity() == old(self).capacity(),
            final(self).dequeue_pos() == old(self).dequeue_pos(),
            final(self).enqueue_pos() == old(self).enqueue_pos() + 1,
            final(self)@ == old(self)@.push(v),
    {
        match self.try_push(v) {
            Ok(()) => (),
            Err(_rejected) => (),
        }
    }

    /// Pop, waiting for a value.  With a single caller the wait never
    /// engages: the contract demands that a value is published, and the pop
    /// completes at once; concurrent producers would instead publish one
    /// eventually.
    pub fn pop(&mut self) -> (r: T)
        requires
            old(self).wf(),
            old(self)@.len() > 0,
            old(self).dequeue_pos() + old(self).capacity() <= u64::MAX,
        ensures
            final(self).wf(),
            final(self).capacity() == old(self).capacity(),
            final(self).enqueue_pos() == old(self).enqueue_pos(),
            final(self).dequeue_pos() == old(self).dequeue_pos() + 1,
            r == old(self)@[0],
            final(self)@ == old(self)@.drop_first(),
    {
        match self.try_pop() {
            Ok(x) => x,
            Err(_empty) => vstd::pervasive::unreached(),
        }
    }

    /// The number of published-but-unconsumed values is the distance between
    /// the cursors: it never exceeds the configured capacity, and the dequeue
    /// cursor never exceeds the enqueue cursor.
    pub proof fn lemma_capacity_bound(&self)
        requires
            self.wf(),
        ensures
            self@.len() == self.enqueue_pos() - self.dequeue_pos(),
            self@.len() <= self.capacity(),
            self.dequeue_pos() <= self.enqueue_pos(),
    {
    }
}

/// Build a multi-producer/multi-consumer queue over `buf`; the queue starts
/// empty, with both cursors at zero and each slot's sequence counter at the
/// slot's own index.  Fails with a configuration error when the buffer has
/// fewer than two slots (see the module documentation).
pub fn mpmc_queue<T, B: Buffer<T>>(buf: B) -> (r: Result<MpmcQueue<T, B>, &'static str>)
    requires
        buf.wf(),
        forall|i: int| 0 <= i < buf.slots().len() ==> (#[trigger] buf.slots()[i]) is None,
    ensures
        r is Ok <==> buf.slots().len() >= 2,
        r is Ok ==> {
            let q = r->Ok_0;
            &&& q.wf()
            &&& q@ == Seq::<T>::empty()
            &&& q.capacity() == buf.slots().len()
            &&& q.enqueue_pos() == 0
            &&& q.dequeue_pos() == 0
        },
{
    let n = buf.size();
    if n < 2 {
        return Err("MPMC queue capacity must be at least 2");
    }
    let mut seqs: Vec<u64> = Vec::new();
    let mut i: usize = 0;
    while i < n
        invariant
            i <= n,
            seqs@.len() == i,
            forall|j: int| 0 <= j < i ==> #[trigger] seqs@[j] == j,
        decreases n - i,
    {
        seqs.push(i as u64);
        i = i + 1;
    }
    let q = MpmcQueue { buf, seqs, head: 0u64, tail: 0u64, _values: PhantomData };
    proof {
        let c = q.capacity();
        assert forall|p: int| 0 <= p < c implies #[trigger] q.turn_ok(p) by {
            vstd::arithmetic::div_mod::lemma_small_mod(p as nat, c as nat);
        }
        assert(q@ =~= Seq::<T>::empty());
    }
    Ok(q)
}

} // verus!
