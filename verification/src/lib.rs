//! Bounded FIFO queues over pluggable fixed-capacity storage.
//!
//! A queue core owns a storage backend (a fixed number of slots addressed
//! modulo the capacity) together with the cursor bookkeeping that defines
//! what "full" and "empty" mean.  Two cores are offered: a
//! single-producer/single-consumer core driven by two monotonic cursors
//! ([`spsc::SpscQueue`]) and a multi-producer/multi-consumer core that adds
//! one sequence counter per slot ([`mpmc::MpmcQueue`]).  Every operation
//! either fully succeeds (ownership of the value is exchanged) or fully
//! fails (the caller keeps the value; nothing is observable).
//!
//! Push and pop are methods on the core itself, so a caller drives both ends
//! through one exclusive reference.  Handing separately owned producer and
//! consumer front-ends to different threads takes shared ownership of the
//! core and atomic cursor updates, which lie outside this crate; the cores
//! verify the sequencing protocol those front-ends would run, one claimed
//! step at a time.

use vstd::prelude::*;

pub mod buffer;
pub mod laws;
pub mod mpmc;
pub mod ring;
pub mod spsc;

verus! {

/// Error returned by a non-blocking pop when no value is currently published.
#[derive(Clone, Copy, Debug, PartialEq, Eq, Structural)]
pub struct Empty;

} // verus!
