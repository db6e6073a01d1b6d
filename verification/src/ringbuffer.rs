//! Index arithmetic of the ring that stores the events.
//!
//! The ring has a power-of-two number of slots, so the slot of a sequence is
//! its low bits: `sequence & (capacity - 1)`.
use vstd::prelude::*;

use crate::sequence::Sequence;

verus! {

/// `true` for the positive powers of two.
pub open spec fn is_power_of_two_spec(x: usize) -> bool {
    x != 0 && x & ((x - 1) as usize) == 0
}

/// Whether `x` is a power of two (1, 2, 4, ...).
pub fn is_power_of_two(x: usize) -> (r: bool)
    ensures
        r == is_power_of_two_spec(x),
{
    x != 0 && (x & (x - 1)) == 0
}

/// The slot of `sequence` in a ring whose capacity is `mask + 1`: the low
/// bits of the sequence, read as an unsigned number.
pub fn slot_index(sequence: Sequence, mask: usize) -> (r: usize)
    ensures
        r == (sequence as usize) & mask,
        r <= mask,
{
    let bits = sequence as usize;
    proof {
        assert(bits & mask <= mask) by (bit_vector);
    }
    bits & mask
}

/// For a power-of-two capacity, every slot index is below the capacity.
pub proof fn lemma_slot_index_in_range(sequence: Sequence, capacity: usize)
    requires
        is_power_of_two_spec(capacity),
    ensures
        ((sequence as usize) & ((capacity - 1) as usize)) < capacity,
{
    let bits = sequence as usize;
    assert(capacity != 0 ==> bits & ((capacity - 1) as usize) <= ((capacity - 1) as usize))
        by (bit_vector);
}

/// One lap of the ring later, a sequence lands in the same slot.
proof fn lemma_slot_index_next_lap(sequence: i64, capacity: usize)
    requires
        is_power_of_two_spec(capacity),
        capacity <= i64::MAX,
        sequence + capacity <= i64::MAX,
    ensures
        (((sequence + capacity) as i64) as usize) & ((capacity - 1) as usize) == (sequence as usize)
            & ((capacity - 1) as usize),
{
    let c = capacity as i64;
    let m = (capacity - 1) as usize;
    assert(c as usize == capacity && c > 0);
    assert(((sequence + c) as i64 as usize) & m == (sequence as usize) & m) by (bit_vector)
        requires
            c as usize == capacity,
            c > 0,
            capacity & m == 0,
            m == (capacity - 1) as usize,
            capacity != 0,
            sequence + c <= 0x7fff_ffff_ffff_ffffi64,
    ;
}

/// The slot of a sequence repeats every `capacity` sequences: `k` laps later
/// a sequence lands in the same slot, so a ring of a power-of-two capacity
/// reuses each slot once per lap.
pub proof fn lemma_slot_index_periodic(sequence: i64, k: nat, capacity: usize)
    requires
        is_power_of_two_spec(capacity),
        capacity <= i64::MAX,
        sequence + k * capacity <= i64::MAX,
    ensures
        (((sequence + k * capacity) as i64) as usize) & ((capacity - 1) as usize) == (sequence
            as usize) & ((capacity - 1) as usize),
    decreases k,
{
    if k > 0 {
        let j = (k - 1) as nat;
        assert(k * capacity == j * capacity + capacity) by (nonlinear_arith)
            requires
                k == j + 1,
        ;
        assert(j * capacity >= 0) by (nonlinear_arith);
        lemma_slot_index_periodic(sequence, j, capacity);
        lemma_slot_index_next_lap((sequence + j * capacity) as i64, capacity);
    }
}

} // verus!
