//! Modular index arithmetic shared by the queue cores.
//!
//! A cursor is a monotonically increasing logical position; the slot it
//! addresses is the position taken modulo the capacity.  The facts below are
//! what makes that addressing scheme work: positions that lie within one
//! window of `capacity` consecutive values occupy pairwise distinct slots,
//! and moving a position forward by exactly one capacity lands on the same
//! slot again.

use vstd::arithmetic::div_mod::{
    lemma_add_mod_noop, lemma_mod_add_multiples_vanish, lemma_mod_bound, lemma_small_mod,
};
use vstd::prelude::*;

verus! {

/// Two distinct logical positions that lie within one window of `c`
/// consecutive positions resolve to distinct physical slots.
pub proof fn lemma_window_distinct(a: int, b: int, c: int)
    requires
        c >= 1,
        0 <= a < b,
        b - a < c,
    ensures
        a % c != b % c,
{
    let j = b - a;
    let r = a % c;
    lemma_mod_bound(a, c);
    lemma_add_mod_noop(a, j, c);
    lemma_small_mod(j as nat, c as nat);
    assert(b % c == (r + j) % c);
    if r + j < c {
        lemma_small_mod((r + j) as nat, c as nat);
    } else {
        lemma_mod_add_multiples_vanish(r + j - c, c);
        lemma_small_mod((r + j - c) as nat, c as nat);
    }
}

/// Reducing a position modulo the capacity is idempotent: a physical slot
/// index stands for itself.
pub proof fn lemma_mod_idempotent(a: int, c: int)
    requires
        c >= 1,
        0 <= a,
    ensures
        0 <= a % c < c,
        (a % c) % c == a % c,
{
    lemma_mod_bound(a, c);
    lemma_small_mod((a % c) as nat, c as nat);
}

/// Advancing a logical position by exactly one capacity lands on the same
/// physical slot.
pub proof fn lemma_wrap_same_slot(a: int, c: int)
    requires
        c >= 1,
        0 <= a,
    ensures
        (a + c) % c == a % c,
{
    lemma_mod_add_multiples_vanish(a, c);
}

} // verus!
