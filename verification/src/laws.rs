//! Laws of the queues' abstract state.
//!
//! Both queue cores expose their state as the sequence of
//! published-but-unconsumed values in enqueue order: a successful push
//! appends its value to that sequence, and a successful pop removes and
//! returns its front (see the `ensures` of `try_push`/`try_pop` in the
//! [`crate::spsc`] and [`crate::mpmc`] modules).  The lemmas below state
//! the global orderings that follow, for any number of operations.

use vstd::prelude::*;
use vstd::multiset::Multiset;
use vstd::seq_lib::group_seq_properties;

verus! {

/// The abstract state that results from pushing every value of `xs`, in
/// order, onto a queue whose state is `q`.
pub open spec fn push_all<T>(q: Seq<T>, xs: Seq<T>) -> Seq<T>
    decreases xs.len(),
{
    if xs.len() == 0 {
        q
    } else {
        push_all(q.push(xs.first()), xs.drop_first())
    }
}

/// First-in-first-out, push side: pushing the values of `xs` in order onto a
/// queue holding `q` leaves the queue holding `q` followed by `xs` — values
/// stand in the queue in the order their pushes claimed enqueue positions,
/// behind everything enqueued earlier.  In particular, pushing `xs` onto an
/// empty queue leaves exactly `xs`.
pub proof fn lemma_fifo_push_order<T>(q: Seq<T>, xs: Seq<T>)
    ensures
        push_all(q, xs) == q + xs,
        push_all(Seq::<T>::empty(), xs) == xs,
    decreases xs.len(),
{
    if xs.len() == 0 {
        assert(push_all(q, xs) =~= q + xs);
        assert(push_all(Seq::<T>::empty(), xs) =~= xs);
    } else {
        lemma_fifo_push_order(q.push(xs.first()), xs.drop_first());
        lemma_fifo_push_order(Seq::<T>::empty().push(xs.first()), xs.drop_first());
        assert(q.push(xs.first()) + xs.drop_first() =~= q + xs);
        assert(Seq::<T>::empty().push(xs.first()) + xs.drop_first() =~= xs);
    }
}

/// First-in-first-out, pop side: after `i` pops from a queue holding `s`,
/// the queue holds `s.skip(i)`, so the next pop returns `s[i]` and leaves
/// `s.skip(i + 1)`.  By induction from `s.skip(0) == s`, the `i`-th pop
/// returns exactly the `i`-th value pushed: a consumer never observes a
/// later value before an earlier one.
pub proof fn lemma_fifo_pop_order<T>(s: Seq<T>, i: int)
    requires
        0 <= i < s.len(),
    ensures
        s.skip(0) == s,
        s.skip(i).first() == s[i],
        s.skip(i).drop_first() == s.skip(i + 1),
{
    assert(s.skip(0) =~= s);
    assert(s.skip(i).drop_first() =~= s.skip(i + 1));
}

/// No loss, no duplication, push side: a successful push adds exactly its
/// value, once, to the multiset of values in flight.
pub proof fn lemma_push_adds_to_multiset<T>(s: Seq<T>, v: T)
    ensures
        s.push(v).to_multiset() == s.to_multiset().insert(v),
{
    broadcast use group_seq_properties;

    assert(s.push(v).to_multiset() =~= s.to_multiset().insert(v));
}

/// No loss, no duplication, pop side: a successful pop removes exactly the
/// value it returns, once, from the multiset of values in flight.  Together
/// with the push side: when as many pops as pushes have succeeded, the
/// multiset of popped values equals the multiset of pushed values.
pub proof fn lemma_pop_removes_from_multiset<T>(s: Seq<T>)
    requires
        s.len() > 0,
    ensures
        s.to_multiset() == s.drop_first().to_multiset().insert(s.first()),
{
    broadcast use group_seq_properties;

    assert(s =~= seq![s.first()] + s.drop_first());
    assert(seq![s.first()].to_multiset() =~= Multiset::<T>::empty().insert(s.first()));
    vstd::seq_lib::lemma_multiset_commutative(seq![s.first()], s.drop_first());
    assert(s.to_multiset() =~= s.drop_first().to_multiset().insert(s.first()));
}

/// No loss, no duplication, whole executions: after the values of `s` were
/// pushed and the first `j` of them popped, the popped values (`s.take(j)`)
/// and the values still in flight (`s.skip(j)`) together form exactly the
/// multiset of the pushed values.  With `j == s.len()` — as many successful
/// pops as successful pushes — the multiset of popped values equals the
/// multiset of pushed values.
pub proof fn lemma_no_loss_no_duplication<T>(s: Seq<T>, j: int)
    requires
        0 <= j <= s.len(),
    ensures
        s.take(j).to_multiset().add(s.skip(j).to_multiset()) == s.to_multiset(),
        s.take(s.len() as int) == s,
{
    assert(s =~= s.take(j) + s.skip(j));
    vstd::seq_lib::lemma_multiset_commutative(s.take(j), s.skip(j));
    assert(s.take(s.len() as int) =~= s);
}

/// Round trip: pushing `x` onto an empty queue and popping once returns `x`
/// and leaves the queue empty again.
pub proof fn lemma_round_trip<T>(x: T)
    ensures
        Seq::<T>::empty().push(x).first() == x,
        Seq::<T>::empty().push(x).drop_first() == Seq::<T>::empty(),
{
    assert(Seq::<T>::empty().push(x).drop_first() =~= Seq::<T>::empty());
}

} // verus!
