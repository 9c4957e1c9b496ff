//! Single-producer/single-consumer bounded FIFO core.
//!
//! Two monotonically increasing 64-bit cursors drive the queue: the enqueue
//! cursor is advanced only by the producing side, the dequeue cursor only by
//! the consuming side, and a value lives in slot `position mod capacity`.
//! The queue is full when the enqueue cursor has run a whole capacity ahead
//! of the dequeue cursor, and empty when the two cursors agree.  No per-slot
//! metadata is needed: with a single writer and a single reader the cursors
//! alone decide which slot may be touched.
//!
//! The abstract state of a queue is the sequence of published-but-unconsumed
//! values, oldest first (`self@`); every operation's contract is stated over
//! that sequence.  The blocking `push`/`pop` variants complete at once when
//! the space (respectively the value) their contract demands is present;
//! under contention with a concurrent peer they would simply retry the same
//! single-attempt step.

use core::marker::PhantomData;
use vstd::prelude::*;

use crate::buffer::Buffer;
use crate::ring::{lemma_mod_idempotent, lemma_window_distinct};
use crate::Empty;

verus! {

/// Bounded single-producer/single-consumer FIFO queue over a storage
/// backend `B`.
pub struct SpscQueue<T, B: Buffer<T>> {
    buf: B,
    /// Dequeue cursor: the logical position of the next value to consume.
    head: u64,
    /// Enqueue cursor: the logical position of the next value to produce.
    tail: u64,
    _values: PhantomData<T>,
}

impl<T, B: Buffer<T>> View for SpscQueue<T, B> {
    type V = Seq<T>;

    /// The published-but-unconsumed values, oldest first.
    closed spec fn view(&self) -> Seq<T> {
        Seq::new(
            (self.tail - self.head) as nat,
            |i: int| self.buf.slots()[(self.head + i) % self.capacity()].unwrap(),
        )
    }
}

impl<T, B: Buffer<T>> SpscQueue<T, B> {
    /// The fixed number of slots.
    pub closed spec fn capacity(&self) -> int {
        self.buf.slots().len() as int
    }

    /// The enqueue cursor: how many values have ever been pushed.
    pub closed spec fn enqueue_pos(&self) -> u64 {
        self.tail
    }

    /// The dequeue cursor: how many values have ever been popped.
    pub closed spec fn dequeue_pos(&self) -> u64 {
        self.head
    }

    /// Queue invariant: the dequeue cursor never exceeds the enqueue cursor,
    /// at most `capacity` values are in flight, and every in-flight position
    /// holds a value in its slot.
    pub closed spec fn wf(&self) -> bool {
        &&& self.buf.wf()
        &&& self.capacity() >= 1
        &&& self.head <= self.tail
        &&& self.tail - self.head <= self.capacity()
        &&& forall|p: int|
            self.head <= p < self.tail ==> (#[trigger] self.buf.slots()[p % self.capacity()]) is Some
    }

    /// Single-attempt push.  Fails exactly when the queue is full, returning
    /// the un-enqueued value to the caller.
    pub fn try_push(&mut self, v: T) -> (r: Result<(), T>)
        requires
            old(self).wf(),
            old(self).enqueue_pos() < u64::MAX,
        ensures
            final(self).wf(),
            final(self).capacity() == old(self).capacity(),
            final(self).dequeue_pos() == old(self).dequeue_pos(),
            r is Ok <==> old(self)@.len() < old(self).capacity(),
            r is Ok ==> final(self)@ == old(self)@.push(v) && final(self).enqueue_pos()
                == old(self).enqueue_pos() + 1,
            r is Err ==> r->Err_0 == v && *final(self) == *old(self) && old(self)@.len()
                == old(self).capacity(),
    {
        let cap = self.buf.size();
        if self.tail - self.head == cap as u64 {
            Err(v)
        } else {
            let ghost c = self.capacity();
            let ghost pos = self.tail as int;
            let k = (self.tail % (cap as u64)) as usize;
            self.buf.put_at(k, v);
            self.tail = self.tail + 1;
            proof {
                lemma_mod_idempotent(pos, c);
                assert forall|p: int| self.head <= p < self.tail implies (
                #[trigger] self.buf.slots()[p % c]) is Some by {
                    if p != pos {
                        lemma_window_distinct(p, pos, c);
                    }
                }
                assert forall|i: int| 0 <= i < self@.len() implies self@[i] == old(
                    self,
                )@.push(v)[i] by {
                    let p = self.head + i;
                    if p != pos {
                        lemma_window_distinct(p, pos, c);
                    }
                }
                assert(self@ =~= old(self)@.push(v));
            }
            Ok(())
        }
    }

    /// Single-attempt pop.  Fails exactly when no value is currently
    /// published.
    pub fn try_pop(&mut self) -> (r: Result<T, Empty>)
        requires
            old(self).wf(),
        ensures
            final(self).wf(),
            final(self).capacity() == old(self).capacity(),
            final(self).enqueue_pos() == old(self).enqueue_pos(),
            r is Ok <==> old(self)@.len() > 0,
            r is Ok ==> r->Ok_0 == old(self)@[0] && final(self)@ == old(self)@.drop_first()
                && final(self).dequeue_pos() == old(self).dequeue_pos() + 1,
            r is Err ==> *final(self) == *old(self),
    {
        if self.tail == self.head {
            Err(Empty)
        } else {
            let cap = self.buf.size();
            let ghost c = self.capacity();
            let ghost pos = self.head as int;
            let k = (self.head % (cap as u64)) as usize;
            let taken = self.buf.take_at(k);
            self.head = self.head + 1;
            proof {
                lemma_mod_idempotent(pos, c);
                assert(old(self).buf.slots()[pos % c] is Some);
                assert forall|p: int| self.head <= p < self.tail implies (
                #[trigger] self.buf.slots()[p % c]) is Some by {
                    lemma_window_distinct(pos, p, c);
                }
                assert forall|i: int| 0 <= i < self@.len() implies self@[i] == old(
                    self,
                )@.drop_first()[i] by {
                    let p = self.head + i;
                    lemma_window_distinct(pos, p, c);
                }
                assert(self@ =~= old(self)@.drop_first());
            }
            match taken {
                Some(x) => Ok(x),
                None => Err(Empty),
            }
        }
    }

    /// Push, waiting for space.  With a single owner the wait never engages:
    /// the contract demands that a slot is free, and the push completes at
    /// once; a concurrent consumer would instead free a slot eventually.
    pub fn push(&mut self, v: T)
        requires
            old(self).wf(),
            old(self)@.len() < old(self).capacity(),
            old(self).enqueue_pos() < u64::MAX,
        ensures
            final(self).wf(),
            final(self).capacity() == old(self).capacity(),
            final(self).dequeue_pos() == old(self).dequeue_pos(),
            final(self).enqueue_pos() == old(self).enqueue_pos() + 1,
            final(self)@ == old(self)@.push(v),
    {
        match self.try_push(v) {
            Ok(()) => (),
            Err(_rejected) => (),
        }
    }

    /// Pop, waiting for a value.  With a single owner the wait never
    /// engages: the contract demands that a value is published, and the pop
    /// completes at once; a concurrent producer would instead publish one
    /// eventually.
    pub fn pop(&mut self) -> (r: T)
        requires
            old(self).wf(),
            old(self)@.len() > 0,
        ensures
            final(self).wf(),
            final(self).capacity() == old(self).capacity(),
            final(self).enqueue_pos() == old(self).enqueue_pos(),
            final(self).dequeue_pos() == old(self).dequeue_pos() + 1,
            r == old(self)@[0],
            final(self)@ == old(self)@.drop_first(),
    {
        match self.try_pop() {
            Ok(x) => x,
            Err(_empty) => vstd::pervasive::unreached(),
        }
    }

    /// The number of published-but-unconsumed values is the distance between
    /// the cursors: it never exceeds the configured capacity, and the dequeue
    /// cursor never exceeds the enqueue cursor.
    pub proof fn lemma_capacity_bound(&self)
        requires
            self.wf(),
        ensures
            self@.len() == self.enqueue_pos() - self.dequeue_pos(),
            self@.len() <= self.capacity(),
            self.dequeue_pos() <= self.enqueue_pos(),
    {
    }
}

/// Build a single-producer/single-consumer queue over `buf`; the queue
/// starts empty, with both cursors at zero.
pub fn spsc_queue<T, B: Buffer<T>>(buf: B) -> (q: SpscQueue<T, B>)
    requires
        buf.wf(),
    ensures
        q.wf(),
        q@ == Seq::<T>::empty(),
        q.capacity() == buf.slots().len(),
        q.enqueue_pos() == 0,
        q.dequeue_pos() == 0,
{
    // size() witnesses that a well-formed buffer has at least one slot
    let _slots = buf.size();
    let q = SpscQueue { buf, head: 0u64, tail: 0u64, _values: PhantomData };
    proof {
        assert(q@ =~= Seq::<T>::empty());
    }
    q
}

} // verus!
