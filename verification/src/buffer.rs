//! Storage backends: fixed-capacity slot arrays addressed modulo capacity.
//!
//! A backend owns the slots and nothing else: it keeps no record of which
//! slots hold live values.  Which slot may be read or written at a given
//! moment is entirely the queue core's business; the backend only promises
//! that logical index `i` always resolves to physical slot `i mod capacity`.

use vstd::prelude::*;

verus! {

/// Fixed-capacity slot storage.  Slot access at logical index `i` resolves
/// to physical slot `i mod capacity`; the capacity never changes over the
/// life of the buffer.
pub trait Buffer<T>: Sized {
    /// The slots, each a possibly-empty cell.
    spec fn slots(&self) -> Seq<Option<T>>;

    /// Structural well-formedness of the buffer.
    spec fn wf(&self) -> bool;

    /// The number of slots.
    fn size(&self) -> (n: usize)
        requires
            self.wf(),
        ensures
            n == self.slots().len(),
            n >= 1,
    ;

    /// Read access to the slot at `idx mod capacity`.
    fn at(&self, idx: usize) -> (r: &Option<T>)
        requires
            self.wf(),
        ensures
            *r == self.slots()[idx as int % self.slots().len() as int],
    ;

    /// Store `v` into the slot at `idx mod capacity`, replacing whatever the
    /// cell held.
    fn put_at(&mut self, idx: usize, v: T)
        requires
            old(self).wf(),
        ensures
            final(self).wf(),
            final(self).slots() == old(self).slots().update(
                idx as int % old(self).slots().len() as int,
                Some(v),
            ),
    ;

    /// Take the value out of the slot at `idx mod capacity`, leaving the
    /// cell empty.
    fn take_at(&mut self, idx: usize) -> (r: Option<T>)
        requires
            old(self).wf(),
        ensures
            final(self).wf(),
            r == old(self).slots()[idx as int % old(self).slots().len() as int],
            final(self).slots() == old(self).slots().update(
                idx as int % old(self).slots().len() as int,
                None::<T>,
            ),
    ;
}

/// Holds data locally in a capacity fixed at compile time.
pub struct StaticBuffer<T, const CAP: usize> {
    cells: Vec<Option<T>>,
}

impl<T, const CAP: usize> StaticBuffer<T, CAP> {
    /// Create a new `StaticBuffer` with every cell empty.  This method will
    /// return an error if the capacity is not valid (zero).
    pub fn new() -> (r: Result<Self, &'static str>)
        ensures
            r is Ok <==> CAP > 0,
            r is Ok ==> {
                let b = r->Ok_0;
                &&& b.wf()
                &&& b.slots().len() == CAP
                &&& forall|i: int| 0 <= i < CAP ==> (#[trigger] b.slots()[i]) is None
            },
    {
        if CAP > 0 {
            let mut cells: Vec<Option<T>> = Vec::new();
            while cells.len() < CAP
                invariant
                    cells@.len() <= CAP,
                    forall|i: int| 0 <= i < cells@.len() ==> (#[trigger] cells@[i]) is None,
                decreases CAP - cells@.len(),
            {
                cells.push(None);
            }
            Ok(StaticBuffer { cells })
        } else {
            Err("Buffer size must be greater than 0")
        }
    }
}

impl<T, const CAP: usize> Buffer<T> for StaticBuffer<T, CAP> {
    closed spec fn slots(&self) -> Seq<Option<T>> {
        self.cells@
    }

    closed spec fn wf(&self) -> bool {
        self.cells@.len() == CAP && CAP >= 1
    }

    fn size(&self) -> (n: usize) {
        CAP
    }

    fn at(&self, idx: usize) -> (r: &Option<T>) {
        let k: usize = idx % CAP;
        &self.cells[k]
    }

    fn put_at(&mut self, idx: usize, v: T) {
        let k: usize = idx % CAP;
        self.cells.set(k, Some(v));
    }

    fn take_at(&mut self, idx: usize) -> (r: Option<T>) {
        let k: usize = idx % CAP;
        let mut taken: Option<T> = None;
        self.cells.set_and_swap(k, &mut taken);
        taken
    }
}

/// Holds data in storage sized at construction time.
pub struct DynamicBuffer<T> {
    cells: Vec<Option<T>>,
}

impl<T> DynamicBuffer<T> {
    /// Create a new `DynamicBuffer` with every cell empty.  This method will
    /// return an error if the capacity is not valid (zero); any positive
    /// capacity is accepted (power-of-two sizing is not required).
    pub fn new(capacity: usize) -> (r: Result<Self, &'static str>)
        ensures
            r is Ok <==> capacity > 0,
            r is Ok ==> {
                let b = r->Ok_0;
                &&& b.wf()
                &&& b.slots().len() == capacity
                &&& forall|i: int| 0 <= i < capacity ==> (#[trigger] b.slots()[i]) is None
            },
    {
        if capacity > 0 {
            let mut cells: Vec<Option<T>> = Vec::new();
            while cells.len() < capacity
                invariant
                    cells@.len() <= capacity,
                    forall|i: int| 0 <= i < cells@.len() ==> (#[trigger] cells@[i]) is None,
                decreases capacity - cells@.len(),
            {
                cells.push(None);
            }
            Ok(DynamicBuffer { cells })
        } else {
            Err("Buffer size must be greater than 0")
        }
    }
}

impl<T> Buffer<T> for DynamicBuffer<T> {
    closed spec fn slots(&self) -> Seq<Option<T>> {
        self.cells@
    }

    closed spec fn wf(&self) -> bool {
        self.cells@.len() >= 1
    }

    fn size(&self) -> (n: usize) {
        self.cells.len()
    }

    fn at(&self, idx: usize) -> (r: &Option<T>) {
        let k: usize = idx % self.cells.len();
        &self.cells[k]
    }

    fn put_at(&mut self, idx: usize, v: T) {
        let k: usize = idx % self.cells.len();
        self.cells.set(k, Some(v));
    }

    fn take_at(&mut self, idx: usize) -> (r: Option<T>) {
        let k: usize = idx % self.cells.len();
        let mut taken: Option<T> = None;
        self.cells.set_and_swap(k, &mut taken);
        taken
    }
}

} // verus!
