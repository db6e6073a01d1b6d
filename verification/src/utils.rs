//! Helpers over sets of sequences, and the buffer that records which
//! sequences a multi-producer sequencer has published.
use std::sync::atomic::AtomicI64;
use std::sync::atomic::Ordering;
use std::sync::Arc;
use vstd::prelude::*;

use crate::observation::read_run;
use crate::sequence::{AtomicSequence, Sequence, CACHE_LINE_PADDING};

verus! {

/// The least element of `values`, and `i64::MAX` for no values.
pub open spec fn min_of(values: Seq<i64>) -> i64
    decreases values.len(),
{
    if values.len() == 0 {
        i64::MAX
    } else {
        let rest = min_of(values.drop_last());
        if values.last() < rest { values.last() } else { rest }
    }
}

/// The greatest element of `values`, and `i64::MIN` for no values.
pub open spec fn max_of(values: Seq<i64>) -> i64
    decreases values.len(),
{
    if values.len() == 0 {
        i64::MIN
    } else {
        let rest = max_of(values.drop_last());
        if values.last() > rest { values.last() } else { rest }
    }
}

/// `min_of` is a lower bound of every value and, for a non-empty sequence,
/// one of them.
pub proof fn lemma_min_of_is_least(values: Seq<i64>)
    ensures
        forall|i: int| 0 <= i < values.len() ==> min_of(values) <= #[trigger] values[i],
        values.len() > 0 ==> exists|i: int| 0 <= i < values.len() && values[i] == min_of(values),
    decreases values.len(),
{
    if values.len() > 0 {
        let rest = values.drop_last();
        lemma_min_of_is_least(rest);
        assert forall|i: int| 0 <= i < values.len() implies min_of(values) <= #[trigger] values[i] by {
            if i < values.len() - 1 {
                assert(values[i] == rest[i]);
            }
        }
        if rest.len() > 0 && values.last() >= min_of(rest) {
            let j = choose|j: int| 0 <= j < rest.len() && rest[j] == min_of(rest);
            assert(values[j] == min_of(values));
        } else {
            assert(values[values.len() - 1] == min_of(values));
        }
    }
}

/// `max_of` is an upper bound of every value and, for a non-empty sequence,
/// one of them.
pub proof fn lemma_max_of_is_greatest(values: Seq<i64>)
    ensures
        forall|i: int| 0 <= i < values.len() ==> #[trigger] values[i] <= max_of(values),
        values.len() > 0 ==> exists|i: int| 0 <= i < values.len() && values[i] == max_of(values),
    decreases values.len(),
{
    if values.len() > 0 {
        let rest = values.drop_last();
        lemma_max_of_is_greatest(rest);
        assert forall|i: int| 0 <= i < values.len() implies #[trigger] values[i] <= max_of(values) by {
            if i < values.len() - 1 {
                assert(values[i] == rest[i]);
            }
        }
        if rest.len() > 0 && values.last() <= max_of(rest) {
            let j = choose|j: int| 0 <= j < rest.len() && rest[j] == max_of(rest);
            assert(values[j] == max_of(values));
        } else {
            assert(values[values.len() - 1] == max_of(values));
        }
    }
}

/// The least of `values`, and `i64::MAX` when there are none.
pub fn minimum_of(values: &Vec<i64>) -> (r: i64)
    ensures
        r == min_of(values@),
{
    let mut minimum = i64::MAX;
    let mut i: usize = 0;
    while i < values.len()
        invariant
            i <= values@.len(),
            minimum == min_of(values@.subrange(0, i as int)),
        decreases values@.len() - i,
    {
        proof {
            assert(values@.subrange(0, i + 1).drop_last() =~= values@.subrange(0, i as int));
        }
        if values[i] < minimum {
            minimum = values[i];
        }
        i += 1;
    }
    proof {
        assert(values@.subrange(0, values@.len() as int) =~= values@);
    }
    minimum
}

/// The greatest of `values`, and `i64::MIN` when there are none.
pub fn maximum_of(values: &Vec<i64>) -> (r: i64)
    ensures
        r == max_of(values@),
{
    let mut maximum = i64::MIN;
    let mut i: usize = 0;
    while i < values.len()
        invariant
            i <= values@.len(),
            maximum == max_of(values@.subrange(0, i as int)),
        decreases values@.len() - i,
    {
        proof {
            assert(values@.subrange(0, i + 1).drop_last() =~= values@.subrange(0, i as int));
        }
        if values[i] > maximum {
            maximum = values[i];
        }
        i += 1;
    }
    proof {
        assert(values@.subrange(0, values@.len() as int) =~= values@);
    }
    maximum
}

/// Reads each of `sequences` once, in order.
fn read_all(sequences: &[Arc<AtomicSequence>]) -> (r: Vec<i64>)
    ensures
        r@.len() == sequences@.len(),
{
    let mut values: Vec<i64> = Vec::new();
    let mut i: usize = 0;
    while i < sequences.len()
        invariant
            i <= sequences@.len(),
            values@.len() == i,
        decreases sequences@.len() - i,
    {
        values.push(sequences[i].get());
        i += 1;
    }
    values
}

/// Reductions over sets of sequences.
pub struct Utils;

impl Utils {
    /// The least of the values read from `sequences`, one read each
    /// (`minimum_of` of what was read), and `i64::MAX` when there are none.
    pub fn get_minimum_sequence(sequences: &[Arc<AtomicSequence>]) -> (r: i64)
        ensures
            exists|observed: Seq<i64>| observed.len() == sequences@.len() && r == min_of(observed),
            sequences@.len() == 0 ==> r == i64::MAX,
    {
        let values = read_all(sequences);
        minimum_of(&values)
    }

    /// The greatest of the values read from `sequences`, one read each
    /// (`maximum_of` of what was read), and `i64::MIN` when there are none.
    pub fn get_maximum_sequence(sequences: &[Arc<AtomicSequence>]) -> (r: i64)
        ensures
            exists|observed: Seq<i64>| observed.len() == sequences@.len() && r == max_of(observed),
            sequences@.len() == 0 ==> r == i64::MIN,
    {
        let values = read_all(sequences);
        maximum_of(&values)
    }
}


/// Number of slots of a ring whose index is the low `shift` bits of a sequence.
pub open spec fn ring_size(shift: u32) -> i64 {
    1i64 << shift
}

/// Mask that keeps the low `shift` bits of a sequence.
pub open spec fn ring_mask(shift: u32) -> i64 {
    ((1i64 << shift) - 1) as i64
}

/// The slot that holds `sequence` in a ring of `ring_size(shift)` slots.
pub open spec fn slot_of(sequence: i64, shift: u32) -> i64 {
    sequence & ring_mask(shift)
}

/// How many times the ring has wrapped when it reaches `sequence`: the mark
/// that publishing `sequence` leaves in its slot.
pub open spec fn generation_of(sequence: i64, shift: u32) -> i64 {
    sequence >> shift
}

/// `true` for the positive powers of two (1, 2, 4, ...).
pub open spec fn is_power_of_two_i64(n: i64) -> bool {
    n > 0 && n & ((n - 1) as i64) == 0
}

/// The marks that publishing each sequence of `start..=end` leaves, in
/// order: the slot and the generation of each. Empty when `start > end`.
pub open spec fn batch_marks_of(start: i64, end: i64, shift: u32) -> Seq<(usize, i64)> {
    if start > end {
        Seq::empty()
    } else {
        Seq::new(
            (end - start + 1) as nat,
            |k: int|
                (
                    slot_of((start + k) as i64, shift) as usize,
                    generation_of((start + k) as i64, shift),
                ),
        )
    }
}

/// `flags` starts with exactly `n` values `true`: the first `n` are `true`
/// and the next one, if there is one, is `false`.
pub open spec fn leading_trues(flags: Seq<bool>, n: int) -> bool {
    &&& 0 <= n <= flags.len()
    &&& forall|j: int| 0 <= j < n ==> #[trigger] flags[j]
    &&& n < flags.len() ==> !flags[n]
}

/// The end of the run of ready sequences that starts at `from`, where
/// `ready[k]` tells whether `from + k` is ready: `from - 1` plus the number
/// of leading `true` values.
pub fn run_end(from: i64, ready: &Vec<bool>) -> (r: i64)
    requires
        from > i64::MIN,
        from - 1 + ready@.len() <= i64::MAX,
    ensures
        leading_trues(ready@, r - from + 1),
{
    let mut n: usize = 0;
    let mut end = from - 1;
    while n < ready.len() && ready[n]
        invariant
            n <= ready@.len(),
            end == from - 1 + n,
            from - 1 + ready@.len() <= i64::MAX,
            forall|j: int| 0 <= j < n ==> #[trigger] ready@[j],
        decreases ready@.len() - n,
    {
        n += 1;
        end += 1;
    }
    end
}

/// Every sequence, negative ones included, lands in a slot of the ring.
pub proof fn lemma_slot_in_range(sequence: i64, shift: u32)
    requires
        shift < 63,
    ensures
        0 <= slot_of(sequence, shift) < ring_size(shift),
        ring_size(shift) > 0,
        ring_mask(shift) == ring_size(shift) - 1,
{
    assert(shift < 63 ==> 0 <= (sequence & ring_mask(shift)) < ring_size(shift) && ring_size(shift)
        > 0 && ring_mask(shift) == ring_size(shift) - 1) by (bit_vector);
}

/// A sequence and the one a full ring later share a slot, and the later one
/// carries the next generation: publishing it replaces the earlier mark.
pub proof fn lemma_wrap_replaces_generation(sequence: i64, shift: u32)
    requires
        shift < 63,
        sequence + ring_size(shift) <= i64::MAX,
    ensures
        slot_of((sequence + ring_size(shift)) as i64, shift) == slot_of(sequence, shift),
        generation_of((sequence + ring_size(shift)) as i64, shift) == generation_of(sequence, shift)
            + 1,
{
    assert(shift < 63 && sequence + ring_size(shift) <= i64::MAX ==> ((sequence + ring_size(
        shift,
    )) as i64 & ring_mask(shift)) == (sequence & ring_mask(shift))) by (bit_vector);
    assert(shift < 63 && sequence + ring_size(shift) <= i64::MAX ==> ((sequence + ring_size(
        shift,
    )) as i64 >> shift) == (sequence >> shift) + 1) by (bit_vector);
}

/// Fewer than a ring's worth of consecutive sequences never share a slot:
/// sequences that are in flight at the same time have slots of their own.
pub proof fn lemma_window_slots_distinct(a: i64, b: i64, shift: u32)
    requires
        shift < 63,
        a < b,
        b - a < ring_size(shift),
    ensures
        slot_of(a, shift) != slot_of(b, shift),
{
    assert(shift < 63 && a < b && b - a < ring_size(shift) ==> (a & ring_mask(shift)) != (b
        & ring_mask(shift))) by (bit_vector);
}

/// Within a run of slots that does not pass the end of the ring, the slot of
/// `start + d` is `d` past the slot of `start`, and the generation is that of
/// `start` (the quantity `d >> shift` being 0). This is what lets a batch
/// that does not wrap be marked by walking the slots in order.
pub proof fn lemma_run_without_wrap(start: i64, d: i64, shift: u32)
    requires
        shift < 63,
        0 <= d,
        slot_of(start, shift) + d <= ring_mask(shift),
        start + d <= i64::MAX,
    ensures
        slot_of((start + d) as i64, shift) == slot_of(start, shift) + d,
        generation_of((start + d) as i64, shift) == generation_of(start, shift) + (d >> shift),
        d >> shift == 0,
{
    assert(shift < 63 && 0 <= d && (start & ring_mask(shift)) + d <= ring_mask(shift) && start + d
        <= i64::MAX ==> ((start + d) as i64 & ring_mask(shift)) == (start & ring_mask(shift)) + d)
        by (bit_vector);
    assert(shift < 63 && 0 <= d && (start & ring_mask(shift)) + d <= ring_mask(shift) && start + d
        <= i64::MAX ==> ((start + d) as i64 >> shift) == (start >> shift) && (d >> shift) == 0)
        by (bit_vector);
}

/// A run of at most a ring's worth of sequences that passes the end of the
/// ring ends in a slot before the one it starts in; so a run whose last slot
/// is not before its first stays within the ring.
pub proof fn lemma_run_stays_before_end(start: i64, end: i64, shift: u32)
    requires
        shift < 63,
        start <= end,
        end - start < ring_size(shift),
        slot_of(start, shift) <= slot_of(end, shift),
    ensures
        slot_of(start, shift) + (end - start) <= ring_mask(shift),
{
    assert(shift < 63 && start <= end && end - start < ring_size(shift) && (start & ring_mask(
        shift,
    )) <= (end & ring_mask(shift)) ==> (start & ring_mask(shift)) + (end - start) <= ring_mask(
        shift,
    )) by (bit_vector);
}

/// The marks of a batch of at most a ring's worth of sequences land in
/// distinct slots: storing them one by one (as `set_batch` does) leaves the
/// same marks whatever the order, the marks `set` would leave for each.
pub proof fn lemma_batch_marks_distinct_slots(start: i64, end: i64, shift: u32)
    requires
        shift < 63,
        start <= end,
        end - start < ring_size(shift),
        ring_size(shift) <= usize::MAX,
    ensures
        forall|i: int, j: int|
            0 <= i < j < batch_marks_of(start, end, shift).len() ==> (#[trigger] batch_marks_of(
                start,
                end,
                shift,
            )[i]).0 != (#[trigger] batch_marks_of(start, end, shift)[j]).0,
{
    let marks = batch_marks_of(start, end, shift);
    assert forall|i: int, j: int| 0 <= i < j < marks.len() implies (#[trigger] marks[i]).0 != (
    #[trigger] marks[j]).0 by {
        let a = (start + i) as i64;
        let b = (start + j) as i64;
        lemma_window_slots_distinct(a, b, shift);
        lemma_slot_in_range(a, shift);
        lemma_slot_in_range(b, shift);
        assert(marks[i].0 == slot_of(a, shift) as usize);
        assert(marks[j].0 == slot_of(b, shift) as usize);
    }
}

/// A power of two is one shifted left by its number of trailing zeros.
proof fn lemma_power_of_two_is_shift(n: u64, tz: u32)
    requires
        n != 0,
        n & ((n - 1) as u64) == 0,
        tz < 64,
        (n >> tz) & 1 == 1,
    ensures
        n == 1u64 << tz,
{
    assert(n != 0 && n & ((n - 1) as u64) == 0 && tz < 64 && (n >> tz) & 1 == 1 ==> n == 1u64
        << tz) by (bit_vector);
}

/// One slot's generation mark, padded to a cache line.
struct CacheAlignedAtomicI64 {
    value: AtomicI64,
    _padding: [u8; CACHE_LINE_PADDING],
}

/// Records, slot by slot, the generation of the last sequence published in
/// that slot; a sequence is available when its slot holds its generation.
///
/// The slots are atomics written by every producer, so what a read returns
/// is not something the contracts below can name; they state the slot and
/// the generation that each operation uses, and the laws above state how
/// those relate.
pub struct AvailableSequenceBuffer {
    available_buffer: Vec<CacheAlignedAtomicI64>,
    index_mask: i64,
    index_shift: u32,
}

impl AvailableSequenceBuffer {
    #[verifier::type_invariant]
    spec fn well_formed(&self) -> bool {
        &&& self.index_shift < 63
        &&& self.index_mask == ring_mask(self.index_shift)
        &&& self.available_buffer@.len() == ring_size(self.index_shift)
    }

    /// The number of slots is `ring_size(shift())`.
    pub closed spec fn shift(&self) -> u32 {
        self.index_shift
    }

    /// The number of slots.
    pub closed spec fn size(&self) -> int {
        self.available_buffer@.len() as int
    }

    /// Creates a buffer of `buffer_size` slots, each marked with generation
    /// `-1`: no sequence from 0 on is available.
    pub fn new(buffer_size: i64) -> (r: Self)
        requires
            is_power_of_two_i64(buffer_size),
        ensures
            r.size() == buffer_size,
            ring_size(r.shift()) == buffer_size,
            r.shift() < 63,
    {
        let size_bits = buffer_size as u64;
        let index_shift = size_bits.trailing_zeros();
        proof {
            vstd::std_specs::bits::axiom_u64_trailing_zeros(size_bits);
            assert(buffer_size > 0 && buffer_size & ((buffer_size - 1) as i64) == 0 ==> (
            buffer_size as u64) & (((buffer_size as u64) - 1) as u64) == 0) by (bit_vector);
            lemma_power_of_two_is_shift(size_bits, index_shift);
            assert(size_bits == 1u64 << index_shift && buffer_size > 0 && size_bits
                == buffer_size as u64 && index_shift < 64 ==> index_shift < 63 && buffer_size
                == 1i64 << index_shift) by (bit_vector);
        }
        let mut available_buffer: Vec<CacheAlignedAtomicI64> = Vec::new();
        let mut i: i64 = 0;
        while i < buffer_size
            invariant
                0 <= i <= buffer_size,
                available_buffer@.len() == i,
            decreases buffer_size - i,
        {
            available_buffer.push(
                CacheAlignedAtomicI64 { value: AtomicI64::new(-1), _padding: [0u8; CACHE_LINE_PADDING] },
            );
            i += 1;
        }
        AvailableSequenceBuffer { available_buffer, index_mask: buffer_size - 1, index_shift }
    }

    /// The slot that holds `sequence`.
    pub fn slot_index(&self, sequence: i64) -> (r: usize)
        ensures
            r == slot_of(sequence, self.shift()),
            r < self.size(),
    {
        proof {
            use_type_invariant(self);
            lemma_slot_in_range(sequence, self.index_shift);
            assert(self.available_buffer@.len() == self.available_buffer.len());
        }
        (sequence & self.index_mask) as usize
    }

    /// The generation that publishing `sequence` records.
    pub fn generation(&self, sequence: i64) -> (r: i64)
        ensures
            r == generation_of(sequence, self.shift()),
    {
        proof {
            use_type_invariant(self);
        }
        sequence >> self.index_shift
    }

    fn store_generation(&self, index: usize, generation: i64)
        requires
            index < self.size(),
    {
        self.available_buffer[index].value.store(generation, Ordering::Release);
    }

    fn load_generation(&self, index: usize) -> i64
        requires
            index < self.size(),
    {
        self.available_buffer[index].value.load(Ordering::Acquire)
    }

    /// Marks `sequence` as published: its slot, `slot_of(sequence, shift())`,
    /// receives `generation_of(sequence, shift())`. Returns a ghost record,
    /// kept by this function beside its store, of the mark it passes to the
    /// store; nothing proves the record against the atomic itself.
    pub fn set(&self, sequence: i64) -> (stored: Ghost<(usize, i64)>)
        ensures
            stored@ == (slot_of(sequence, self.shift()) as usize, generation_of(sequence, self.shift())),
    {
        let index = self.slot_index(sequence);
        let generation = self.generation(sequence);
        self.store_generation(index, generation);
        Ghost((index, generation))
    }

    /// Whether a slot that holds `observed` shows `sequence` as published.
    pub fn generation_matches(&self, observed: i64, sequence: i64) -> (r: bool)
        ensures
            r == (observed == generation_of(sequence, self.shift())),
    {
        observed == self.generation(sequence)
    }

    /// Whether the slot of `sequence` holds the generation of `sequence`:
    /// `generation_matches` applied to what the slot holds when it is read.
    pub fn is_available(&self, sequence: i64) -> bool {
        let index = self.slot_index(sequence);
        let observed = self.load_generation(index);
        self.generation_matches(observed, sequence)
    }

    /// The slot and generation of `sequence`.
    fn mark_of(&self, sequence: i64) -> (r: (usize, i64))
        ensures
            r == (slot_of(sequence, self.shift()) as usize, generation_of(sequence, self.shift())),
            r.0 < self.size(),
    {
        (self.slot_index(sequence), self.generation(sequence))
    }

    /// The marks that publishing `start..=end` leaves, in order:
    /// `batch_marks_of(start, end, shift())`.
    ///
    /// A batch of more than eight sequences that fits in the ring without
    /// passing its end is computed by walking consecutive slots from the
    /// slot of `start` (`lemma_run_without_wrap` shows that this gives the
    /// slot and generation of each sequence); any other batch, one sequence
    /// at a time.
    pub fn batch_marks(&self, start: i64, end: i64) -> (r: Vec<(usize, i64)>)
        requires
            start > end || end - start < usize::MAX,
        ensures
            r@ == batch_marks_of(start, end, self.shift()),
    {
        let mut marks: Vec<(usize, i64)> = Vec::new();
        if start > end {
            return marks;
        }
        let batch_size: i128 = end as i128 - start as i128 + 1;
        if batch_size > 8 {
            let start_index = self.slot_index(start);
            let end_index = self.slot_index(end);
            let ring = self.available_buffer.len();
            if start_index <= end_index && batch_size <= ring as i128 {
                proof {
                    use_type_invariant(self);
                    lemma_run_stays_before_end(start, end, self.index_shift);
                }
                self.push_run(start, end, start_index, &mut marks);
                return marks;
            }
        }
        self.push_each(start, end, &mut marks);
        marks
    }

    /// Appends the marks of `start..=end` to the empty `marks`, one
    /// sequence at a time.
    fn push_each(&self, start: i64, end: i64, marks: &mut Vec<(usize, i64)>)
        requires
            start <= end,
            end - start < usize::MAX,
            old(marks)@.len() == 0,
        ensures
            final(marks)@ == batch_marks_of(start, end, self.shift()),
    {
        let mut seq = start;
        loop
            invariant_except_break
                marks@.len() == seq - start,
            invariant
                start <= seq <= end,
                forall|k: int|
                    0 <= k < marks@.len() ==> #[trigger] marks@[k] == (
                        slot_of((start + k) as i64, self.shift()) as usize,
                        generation_of((start + k) as i64, self.shift()),
                    ),
            ensures
                marks@.len() == end - start + 1,
                forall|k: int|
                    0 <= k < marks@.len() ==> #[trigger] marks@[k] == (
                        slot_of((start + k) as i64, self.shift()) as usize,
                        generation_of((start + k) as i64, self.shift()),
                    ),
            decreases end - seq,
        {
            let mark = self.mark_of(seq);
            marks.push(mark);
            if seq == end {
                break;
            }
            seq += 1;
        }
        assert(marks@ =~= batch_marks_of(start, end, self.shift()));
    }

    /// Appends the marks of `start..=end` to the empty `marks` by walking the
    /// slots from `start_index` on.
    fn push_run(&self, start: i64, end: i64, start_index: usize, marks: &mut Vec<(usize, i64)>)
        requires
            start <= end,
            start_index == slot_of(start, self.shift()),
            slot_of(start, self.shift()) + (end - start) <= ring_mask(self.shift()),
            self.shift() < 63,
            old(marks)@.len() == 0,
        ensures
            final(marks)@ == batch_marks_of(start, end, self.shift()),
    {
        let start_gen = self.generation(start);
        let mut i: usize = 0;
        let mut seq = start;
        loop
            invariant_except_break
                marks@.len() == seq - start,
            invariant
                start <= seq <= end,
                i == seq - start,
                start_index == slot_of(start, self.shift()),
                slot_of(start, self.shift()) + (end - start) <= ring_mask(self.shift()),
                start_gen == generation_of(start, self.shift()),
                self.shift() < 63,
                forall|k: int|
                    0 <= k < marks@.len() ==> #[trigger] marks@[k] == (
                        slot_of((start + k) as i64, self.shift()) as usize,
                        generation_of((start + k) as i64, self.shift()),
                    ),
            ensures
                marks@.len() == end - start + 1,
                forall|k: int|
                    0 <= k < marks@.len() ==> #[trigger] marks@[k] == (
                        slot_of((start + k) as i64, self.shift()) as usize,
                        generation_of((start + k) as i64, self.shift()),
                    ),
            decreases end - seq,
        {
            proof {
                use_type_invariant(self);
                lemma_run_without_wrap(start, (seq - start) as i64, self.index_shift);
                lemma_slot_in_range(start, self.index_shift);
                assert(self.size() == ring_mask(self.shift()) + 1);
                assert(self.available_buffer@.len() == self.available_buffer.len());
            }
            let index = start_index + i;
            let generation = start_gen + ((seq - start) >> self.index_shift);
            marks.push((index, generation));
            if seq == end {
                break;
            }
            seq += 1;
            i += 1;
        }
        assert(marks@ =~= batch_marks_of(start, end, self.shift()));
    }

    /// Marks every sequence of `start..=end` as published, nothing when
    /// `start > end`: each mark of `batch_marks(start, end)` is stored in its
    /// slot, in order. (A batch of more than `usize::MAX` sequences, which
    /// only the widest `i64` range makes, is marked one sequence at a time.)
    /// Returns a ghost record, kept by this function beside its stores, of
    /// the marks it passes to the stores, in order; nothing proves the record
    /// against the atomics themselves.
    pub fn set_batch(&self, start: i64, end: i64) -> (stored: Ghost<Seq<(usize, i64)>>)
        ensures
            stored@ == batch_marks_of(start, end, self.shift()),
    {
        if start > end {
            return Ghost(Seq::empty());
        }
        if (end as i128 - start as i128) < usize::MAX as i128 {
            let marks = self.batch_marks(start, end);
            proof {
                use_type_invariant(self);
                assert forall|k: int| 0 <= k < marks@.len() implies #[trigger] marks@[k].0
                    < self.size() by {
                    lemma_slot_in_range((start + k) as i64, self.index_shift);
                }
            }
            let ghost mut log: Seq<(usize, i64)> = Seq::empty();
            let mut k: usize = 0;
            while k < marks.len()
                invariant
                    k <= marks@.len(),
                    log == marks@.subrange(0, k as int),
                    forall|j: int| 0 <= j < marks@.len() ==> #[trigger] marks@[j].0 < self.size(),
                decreases marks@.len() - k,
            {
                let (index, generation) = marks[k];
                self.store_generation(index, generation);
                proof {
                    log = log.push((index, generation));
                    assert(log =~= marks@.subrange(0, k + 1));
                }
                k += 1;
            }
            proof {
                assert(log =~= marks@);
            }
            Ghost(log)
        } else {
            self.set_each(start, end)
        }
    }

    /// Marks `start..=end` one sequence at a time, and returns a ghost record
    /// of the marks it passes to the stores, in order.
    fn set_each(&self, start: i64, end: i64) -> (stored: Ghost<Seq<(usize, i64)>>)
        requires
            start <= end,
        ensures
            stored@ == batch_marks_of(start, end, self.shift()),
    {
        let ghost mut log: Seq<(usize, i64)> = Seq::empty();
        let mut seq = start;
        loop
            invariant_except_break
                log.len() == seq - start,
            invariant
                start <= seq <= end,
                forall|k: int|
                    0 <= k < log.len() ==> #[trigger] log[k] == (
                        slot_of((start + k) as i64, self.shift()) as usize,
                        generation_of((start + k) as i64, self.shift()),
                    ),
            ensures
                log.len() == end - start + 1,
                forall|k: int|
                    0 <= k < log.len() ==> #[trigger] log[k] == (
                        slot_of((start + k) as i64, self.shift()) as usize,
                        generation_of((start + k) as i64, self.shift()),
                    ),
            decreases end - seq,
        {
            let (index, generation) = self.mark_of(seq);
            self.store_generation(index, generation);
            proof {
                log = log.push((index, generation));
            }
            if seq == end {
                break;
            }
            seq += 1;
        }
        proof {
            assert(log =~= batch_marks_of(start, end, self.shift()));
        }
        Ghost(log)
    }

    /// The end of the run of available sequences that starts at `from` and
    /// stops at `to`: `from - 1` when `from > to`; otherwise each sequence
    /// from `from` on is checked with `is_available` until one is not or `to`
    /// has been checked, and the result is `run_end(from, checked)`.
    pub fn highest_published_sequence(&self, from: i64, to: i64) -> (r: i64)
        requires
            from > i64::MIN,
        ensures
            from > to ==> r == from - 1,
            from <= to ==> from - 1 <= r <= to,
    {
        if from > to {
            return from - 1;
        }
        let (end, _reads) = read_run(self, from, to);
        end
    }
}

} // verus!
