//! Sequence counters shared between producers and consumers.
//!
//! Every counter occupies a full cache line (an eight-byte atomic followed by
//! padding), so that counters written by different threads do not share a
//! line. The value itself lives in a `std::sync::atomic::AtomicI64`; what a
//! load returns depends on the stores of every thread that shares the
//! counter, so no contract here speaks of a loaded value. What a constructor
//! stored is kept as `initial_value`.
use std::sync::atomic::AtomicI64;
use std::sync::atomic::Ordering;
use vstd::prelude::*;

verus! {

/// A position in the ring: the number of the event it holds.
pub type Sequence = i64;

/// Bytes of padding after the counter, so that a sequence fills a 64-byte line.
pub const CACHE_LINE_PADDING: usize = 56;

/// An atomic sequence counter padded to occupy a full cache line.
pub struct AtomicSequence {
    value: AtomicI64,
    _padding: [u8; CACHE_LINE_PADDING],
    initial: Ghost<Sequence>,
}

impl AtomicSequence {
    /// The value the sequence was created with.
    pub closed spec fn initial_value(&self) -> Sequence {
        self.initial@
    }

    /// Creates a sequence holding `initial_value`.
    pub fn new(initial_value: Sequence) -> (s: Self)
        ensures
            s.initial_value() == initial_value,
    {
        AtomicSequence {
            value: AtomicI64::new(initial_value),
            _padding: [0u8; CACHE_LINE_PADDING],
            initial: Ghost(initial_value),
        }
    }

    /// Reads the current value (acquire).
    pub fn get(&self) -> Sequence {
        self.value.load(Ordering::Acquire)
    }

    /// Stores `new_value` (release).
    pub fn set(&self, new_value: Sequence) {
        self.value.store(new_value, Ordering::Release);
    }

    /// Adds one and returns the value held before the addition.
    pub fn get_and_increment(&self) -> Sequence {
        self.value.fetch_add(1, Ordering::SeqCst)
    }

    /// Adds one and returns the value held after the addition.
    ///
    /// The counter wraps as `fetch_add` does, so the result is the stored
    /// value in every case.
    pub fn increment_and_get(&self) -> Sequence {
        self.value.fetch_add(1, Ordering::SeqCst).wrapping_add(1)
    }

    /// Adds `delta` and returns the value held before the addition.
    pub fn get_and_add(&self, delta: Sequence) -> Sequence {
        self.value.fetch_add(delta, Ordering::SeqCst)
    }
}

impl Default for AtomicSequence {
    /// A sequence that has not yet reached the first slot (`-1`).
    fn default() -> (s: Self)
        ensures
            s.initial_value() == -1,
    {
        Self::new(-1)
    }
}

impl From<i64> for AtomicSequence {
    fn from(value: i64) -> (s: Self) {
        Self::new(value)
    }
}

impl vstd::std_specs::convert::FromSpecImpl<i64> for AtomicSequence {
    open spec fn obeys_from_spec() -> bool {
        false
    }

    open spec fn from_spec(v: i64) -> Self {
        arbitrary()
    }
}

impl PartialEq for AtomicSequence {
    /// Two sequences are equal when the values read from them are equal.
    fn eq(&self, other: &Self) -> (r: bool) {
        self.get() == other.get()
    }
}

/// Equality reads two counters that other threads may be writing, so its
/// outcome is not a function of the two values as Verus sees them: no
/// specification of `==` is claimed for sequences.
impl vstd::std_specs::cmp::PartialEqSpecImpl for AtomicSequence {
    open spec fn obeys_eq_spec() -> bool {
        false
    }

    open spec fn eq_spec(&self, other: &Self) -> bool {
        true
    }
}

} // verus!
