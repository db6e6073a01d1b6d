//! Sequencers: they hand out sequences to producers, keep producers from
//! overwriting events that consumers have not processed, and publish what
//! producers wrote.
//!
//! A producer claims a range with `next`, writes the events, and publishes the
//! range with `publish`. Before it hands out a range ending at `end`, a
//! sequencer makes sure that every consumer has passed `end - buffer_size`,
//! the sequence that last used the slot of `end` (`has_capacity`).
use std::sync::atomic::AtomicBool;
use std::sync::atomic::Ordering;
use std::sync::Arc;
use vstd::prelude::*;

use crate::barrier::{MpmcSequenceBarrier, ProcessingSequenceBarrier};
use crate::observation::{drain_target, read_claimed};
use crate::sequence::{AtomicSequence, Sequence};
use crate::traits::{Sequencer, WaitingStrategy};
use crate::utils::{AvailableSequenceBuffer, Utils, is_power_of_two_i64, min_of, ring_size};
use crate::waiting::spin_loop_hint;

verus! {

/// A range that ends at `end` may be handed out when the slowest consumer,
/// at `minimum`, has passed `end - buffer_size`: the sequence that used the
/// slot of `end` one ring earlier.
pub open spec fn has_capacity(end: int, minimum: int, buffer_size: int) -> bool {
    end - buffer_size <= minimum
}

/// Backpressure: when a range ending at `end` has capacity, every sequence
/// of the range reuses a slot whose previous occupant (one ring earlier) all
/// consumers have processed.
pub proof fn lemma_capacity_protects_unconsumed(
    end: int,
    minimum: int,
    buffer_size: int,
    sequence: int,
)
    requires
        has_capacity(end, minimum, buffer_size),
        sequence <= end,
    ensures
        sequence - buffer_size <= minimum,
{
}

/// Whether a range that ends at `end` may be handed out while the slowest
/// consumer is at `minimum`, in a ring of `buffer_size` slots.
pub fn has_room(end: Sequence, minimum: Sequence, buffer_size: i64) -> (r: bool)
    ensures
        r == has_capacity(end as int, minimum as int, buffer_size as int),
{
    (end as i128) - (buffer_size as i128) <= (minimum as i128)
}

/// Claims are contiguous: `n` sequences claimed from `next` end at
/// `next + n - 1`, and the following claim starts right after them, so no
/// sequence is handed out twice.
pub proof fn lemma_claims_are_contiguous(next: i64, n: i64, m: i64)
    requires
        1 <= n,
        1 <= m,
        next + n + m <= i64::MAX,
    ensures
        next.wrapping_add(n.wrapping_sub(1)) == next + n - 1,
        next.wrapping_add(n) == next + n,
        (next + n) as i64 > next.wrapping_add(n.wrapping_sub(1)),
        ((next + n) as i64).wrapping_add(m.wrapping_sub(1)) == next + n + m - 1,
{
}

/// Whether two handles point to the same sequence.
///
/// Calls `Arc::ptr_eq`, which compares addresses; Verus does not model
/// addresses, so only this is claimed: handles to the same allocation hold
/// the same value.
#[verifier::external_body]
fn same_sequence(a: &Arc<AtomicSequence>, b: &Arc<AtomicSequence>) -> (r: bool)
    ensures
        r ==> *a == *b,
{
    Arc::ptr_eq(a, b)
}

/// Removes the first handle in `gating` that points to `sequence`, and
/// returns where it stood.
fn remove_sequence(gating: &mut Vec<Arc<AtomicSequence>>, sequence: &Arc<AtomicSequence>) -> (r:
    Option<usize>)
    ensures
        r matches Some(i) ==> i < old(gating)@.len() && old(gating)@[i as int] == *sequence
            && final(gating)@ == old(gating)@.remove(i as int),
        r is None ==> final(gating)@ == old(gating)@,
{
    let mut i: usize = 0;
    while i < gating.len()
        invariant
            i <= gating@.len(),
            gating@ == old(gating)@,
        decreases gating@.len() - i,
    {
        if same_sequence(&gating[i], sequence) {
            gating.remove(i);
            return Some(i);
        }
        i += 1;
    }
    None
}

/// Copies the handles of `sequences`.
fn share_all(sequences: &[Arc<AtomicSequence>]) -> (r: Vec<Arc<AtomicSequence>>)
    ensures
        r@ == sequences@,
{
    let mut shared: Vec<Arc<AtomicSequence>> = Vec::new();
    let mut i: usize = 0;
    while i < sequences.len()
        invariant
            i <= sequences@.len(),
            shared@ == sequences@.subrange(0, i as int),
        decreases sequences@.len() - i,
    {
        shared.push(sequences[i].clone());
        i += 1;
        assert(shared@ =~= sequences@.subrange(0, i as int));
    }
    assert(shared@ =~= sequences@);
    shared
}

/// The handles of `sequences` that do not point to `skip`, in order: every
/// one that differs from `skip` is kept, and nothing else is added.
fn all_but(sequences: &[Arc<AtomicSequence>], skip: &Arc<AtomicSequence>) -> (r: Vec<
    Arc<AtomicSequence>,
>)
    ensures
        forall|i: int| 0 <= i < r@.len() ==> sequences@.contains(#[trigger] r@[i]),
        forall|j: int|
            0 <= j < sequences@.len() && #[trigger] sequences@[j] != *skip ==> r@.contains(
                sequences@[j],
            ),
{
    let mut kept: Vec<Arc<AtomicSequence>> = Vec::new();
    let mut i: usize = 0;
    while i < sequences.len()
        invariant
            i <= sequences@.len(),
            forall|j: int| 0 <= j < kept@.len() ==> sequences@.contains(#[trigger] kept@[j]),
            forall|j: int|
                0 <= j < i && #[trigger] sequences@[j] != *skip ==> kept@.contains(sequences@[j]),
        decreases sequences@.len() - i,
    {
        let ghost before = kept@;
        if !same_sequence(&sequences[i], skip) {
            assert(sequences@[i as int] == sequences[i as int]);
            kept.push(sequences[i].clone());
            assert(kept@[before.len() as int] == sequences@[i as int]);
        }
        assert forall|j: int| 0 <= j < before.len() implies kept@[j] == before[j] by {}
        assert forall|j: int| 0 <= j <= i && #[trigger] sequences@[j] != *skip implies kept@.contains(
            sequences@[j],
        ) by {
            if j < i {
                let k = choose|k: int| 0 <= k < before.len() && before[k] == sequences@[j];
                assert(kept@[k] == sequences@[j]);
            }
        }
        i += 1;
    }
    kept
}

/// A sequencer for a single producer: claims need no atomic read-modify-write.
pub struct SingleProducerSequencer<W: WaitingStrategy> {
    buffer_size: i64,
    cursor: Arc<AtomicSequence>,
    next_value: AtomicSequence,
    cached_value: AtomicSequence,
    gating_sequences: Vec<Arc<AtomicSequence>>,
    waiting_strategy: Arc<W>,
    is_done: Arc<AtomicBool>,
}

impl<W: WaitingStrategy> SingleProducerSequencer<W> {
    /// The number of slots of the ring this sequencer guards.
    pub closed spec fn buffer_size_spec(&self) -> i64 {
        self.buffer_size
    }

    /// The sequence the next claim starts from, as it was created.
    pub closed spec fn first_claim(&self) -> Sequence {
        self.next_value.initial_value()
    }

    /// The flag that tells consumers to shut down.
    pub closed spec fn shutdown_flag(&self) -> Arc<AtomicBool> {
        self.is_done
    }

    /// The waiting strategy shared with the barriers.
    pub closed spec fn strategy(&self) -> Arc<W> {
        self.waiting_strategy
    }

    /// Creates a sequencer for a ring of `buffer_size` slots: nothing
    /// published (cursor at `-1`), the first claim at `0`, no gating sequence.
    pub fn new(buffer_size: usize, waiting_strategy: W) -> (r: Self)
        ensures
            r.buffer_size_spec() == buffer_size as i64,
            r.gating().len() == 0,
            r.cursor().initial_value() == -1,
            r.first_claim() == 0,
    {
        Self {
            buffer_size: buffer_size as i64,
            cursor: Arc::new(AtomicSequence::new(-1)),
            next_value: AtomicSequence::new(0),
            cached_value: AtomicSequence::new(-1),
            gating_sequences: Vec::new(),
            waiting_strategy: Arc::new(waiting_strategy),
            is_done: Arc::new(AtomicBool::new(false)),
        }
    }

    /// The gating sequences, in the order they were added.
    pub fn gating_sequences(&self) -> (r: &Vec<Arc<AtomicSequence>>)
        ensures
            r@ == self.gating(),
    {
        &self.gating_sequences
    }

    fn mark_done(&self) {
        self.is_done.store(true, Ordering::Relaxed);
    }

    /// Backpressure for a claim that ends at `end`: with gating sequences,
    /// waits (from the cached position) until the slowest consumer leaves
    /// room for `end`, and caches the last position seen. Returns the end it
    /// checked (`end` itself), that position, and whether it leaves room for
    /// `end` (with no gating sequence nothing is checked: `i64::MAX`, `true`).
    fn hold_until_room(&self, end: Sequence) -> (r: (Sequence, Sequence, bool))
        ensures
            r.0 == end,
            self.gating().len() > 0 ==> r.2 == has_capacity(
                end as int,
                r.1 as int,
                self.buffer_size_spec() as int,
            ),
    {
        if self.gating_sequences.len() > 0 {
            let cached = self.cached_value.get();
            let (min_sequence, room) = self.wait_for_room(end, cached);
            self.cached_value.set(min_sequence);
            (end, min_sequence, room)
        } else {
            (end, i64::MAX, true)
        }
    }

    /// Backpressure: starting from the cached position `cached` of the
    /// slowest consumer, waits with the strategy until that position leaves
    /// room for a range ending at `end`. Returns the last position seen and
    /// whether it leaves room; `false` means the strategy gave up (or the
    /// `u64::MAX` polls ran out) first.
    fn wait_for_room(&self, end: Sequence, cached: Sequence) -> (r: (Sequence, bool))
        ensures
            r.1 == has_capacity(end as int, r.0 as int, self.buffer_size_spec() as int),
            r.1 || !has_capacity(end as int, cached as int, self.buffer_size_spec() as int),
    {
        let mut min_sequence = cached;
        let mut polls_left: u64 = u64::MAX;
        loop
            invariant
                has_capacity(end as int, cached as int, self.buffer_size_spec() as int) ==> min_sequence
                    == cached,
            decreases polls_left,
        {
            if has_room(end, min_sequence, self.buffer_size) {
                return (min_sequence, true);
            }
            match self.waiting_strategy.wait_for(
                min_sequence,
                self.gating_sequences.as_slice(),
                || false,
            ) {
                Some(new_min_sequence) => {
                    min_sequence = new_min_sequence;
                },
                None => {
                    return (min_sequence, false);
                },
            }
            if polls_left == 0 {
                let room = has_room(end, min_sequence, self.buffer_size);
                return (min_sequence, room);
            }
            polls_left -= 1;
        }
    }
}

impl<W: WaitingStrategy> Sequencer for SingleProducerSequencer<W> {
    type Barrier = ProcessingSequenceBarrier<W>;

    closed spec fn gating(&self) -> Seq<Arc<AtomicSequence>> {
        self.gating_sequences@
    }

    /// The published cursor.
    closed spec fn cursor(&self) -> Arc<AtomicSequence> {
        self.cursor
    }

    closed spec fn barrier_gating(barrier: &Self::Barrier) -> Seq<Arc<AtomicSequence>> {
        barrier.gating()
    }

    fn add_gating_sequence(&mut self, gating_sequence: &Arc<AtomicSequence>)
        ensures
            final(self).gating() == old(self).gating().push(*gating_sequence),
            final(self).buffer_size_spec() == old(self).buffer_size_spec(),
            final(self).cursor() == old(self).cursor(),
    {
        self.gating_sequences.push(gating_sequence.clone());
    }

    fn remove_gating_sequence(&mut self, sequence: &Arc<AtomicSequence>) -> (r: bool)
        ensures
            r ==> exists|i: int|
                0 <= i < old(self).gating().len() && old(self).gating()[i] == *sequence
                    && final(self).gating() == old(self).gating().remove(i),
            !r ==> final(self).gating() == old(self).gating(),
            final(self).buffer_size_spec() == old(self).buffer_size_spec(),
            final(self).cursor() == old(self).cursor(),
    {
        let removed = remove_sequence(&mut self.gating_sequences, sequence);
        match removed {
            Some(i) => {
                assert(old(self).gating()[i as int] == *sequence);
                true
            },
            None => false,
        }
    }

    /// A barrier over `gating_sequences` that shares this sequencer's
    /// shutdown flag and waiting strategy.
    fn create_sequence_barrier(&self, gating_sequences: &[Arc<AtomicSequence>]) -> (r:
        Self::Barrier)
        ensures
            r.gating() == gating_sequences@,
            r.alert_flag() == self.shutdown_flag(),
            r.strategy() == self.strategy(),
    {
        ProcessingSequenceBarrier::new(
            self.is_done.clone(),
            share_all(gating_sequences),
            self.waiting_strategy.clone(),
        )
    }

    fn get_cursor(&self) -> (r: Arc<AtomicSequence>)
        ensures
            r == self.cursor(),
    {
        self.cursor.clone()
    }

    /// Claims `n` sequences from the next unclaimed one. With gating
    /// sequences, it first waits (with the strategy) until the slowest
    /// consumer leaves room for the whole range, unless the strategy gives
    /// up.
    fn next(&self, n: Sequence) -> (r: (Sequence, Sequence)) {
        let next = self.next_value.get();
        let start = next;
        let (end, _minimum, _room) = self.hold_until_room(next.wrapping_add(n.wrapping_sub(1)));
        self.next_value.set(end.wrapping_add(1));
        (start, end)
    }

    /// Publishes up to `high`: the cursor moves to `high`.
    fn publish(&self, _low: Sequence, high: Sequence) {
        self.cursor.set(high);
        self.waiting_strategy.signal_all_when_blocking();
    }

    /// Waits until every gating sequence has reached the last claimed
    /// sequence, then raises the shutdown flag.
    fn drain(self) {
        let current = self.next_value.get().wrapping_sub(1);
        self.waiting_strategy.signal_all_when_blocking();
        let mut polls_left: u64 = u64::MAX;
        while Utils::get_minimum_sequence(self.gating_sequences.as_slice()) < current
            decreases polls_left,
        {
            self.waiting_strategy.signal_all_when_blocking();
            spin_loop_hint();
            if polls_left == 0 {
                break;
            }
            polls_left -= 1;
        }
        self.mark_done();
        self.waiting_strategy.signal_all_when_blocking();
    }
}

/// Where a multi-producer drain starts to look for published sequences,
/// with `claimed` the last claimed sequence in a ring of `buffer_size`
/// slots: the oldest sequence whose mark the ring still holds,
/// `claimed - buffer_size + 1`, or 0 when that is not positive (or past
/// `claimed`, which only a ring of no slots gives).
pub fn drain_from(claimed: Sequence, buffer_size: i64) -> (r: Sequence)
    ensures
        r == (if claimed - buffer_size + 1 <= 0 || claimed - buffer_size + 1 > claimed {
            0
        } else {
            claimed - buffer_size + 1
        }),
{
    let window_start: i128 = claimed as i128 - buffer_size as i128 + 1;
    if window_start <= 0 || window_start > claimed as i128 {
        0
    } else {
        window_start as i64
    }
}

/// How often, in claimed sequences, a claim refreshes the cached position
/// of the slowest consumer even when it does not need to (a power of two,
/// less one).
pub const REFRESH_MASK: i64 = 0x3FF;

/// A sequencer for several producers.
///
/// Producers claim sequences with one atomic addition on the high-water
/// mark, and publish by marking each slot in the availability buffer;
/// consumers wait on the marks through `MpmcSequenceBarrier`.
pub struct MultiProducerSequencer<W: WaitingStrategy> {
    buffer_size: i64,
    cursor: Arc<AtomicSequence>,
    high_water_mark: AtomicSequence,
    cached_value: AtomicSequence,
    gating_sequences: Vec<Arc<AtomicSequence>>,
    waiting_strategy: Arc<W>,
    is_done: Arc<AtomicBool>,
    available_buffer: Arc<AvailableSequenceBuffer>,
}

impl<W: WaitingStrategy> MultiProducerSequencer<W> {
    /// The number of slots of the ring this sequencer guards.
    pub closed spec fn buffer_size_spec(&self) -> i64 {
        self.buffer_size
    }

    /// The last claimed sequence, as it was created.
    pub closed spec fn first_high_water_mark(&self) -> Sequence {
        self.high_water_mark.initial_value()
    }

    /// The flag that tells consumers to shut down.
    pub closed spec fn shutdown_flag(&self) -> Arc<AtomicBool> {
        self.is_done
    }

    /// The waiting strategy shared with the barriers.
    pub closed spec fn strategy(&self) -> Arc<W> {
        self.waiting_strategy
    }

    /// The availability buffer shared with the barriers.
    pub closed spec fn availability(&self) -> Arc<AvailableSequenceBuffer> {
        self.available_buffer
    }

    /// Creates a sequencer for a ring of `buffer_size` slots (a power of
    /// two): nothing claimed (high-water mark at `-1`), no slot marked, no
    /// gating sequence.
    pub fn new(buffer_size: usize, waiting_strategy: W) -> (r: Self)
        requires
            is_power_of_two_i64(buffer_size as i64),
        ensures
            r.buffer_size_spec() == buffer_size as i64,
            r.gating().len() == 0,
            r.cursor().initial_value() == -1,
            r.first_high_water_mark() == -1,
            r.availability().size() == buffer_size as i64,
            ring_size(r.availability().shift()) == buffer_size as i64,
    {
        Self {
            buffer_size: buffer_size as i64,
            cursor: Arc::new(AtomicSequence::new(-1)),
            high_water_mark: AtomicSequence::new(-1),
            cached_value: AtomicSequence::new(-1),
            gating_sequences: Vec::new(),
            waiting_strategy: Arc::new(waiting_strategy),
            is_done: Arc::new(AtomicBool::new(false)),
            available_buffer: Arc::new(AvailableSequenceBuffer::new(buffer_size as i64)),
        }
    }

    /// The gating sequences, in the order they were added.
    pub fn gating_sequences(&self) -> (r: &Vec<Arc<AtomicSequence>>)
        ensures
            r@ == self.gating(),
    {
        &self.gating_sequences
    }

    /// The buffer in which published sequences are marked.
    pub fn available_buffer(&self) -> (r: &Arc<AvailableSequenceBuffer>)
        ensures
            *r == self.availability(),
    {
        &self.available_buffer
    }

    /// Reads every gating sequence, caches the least and returns it
    /// (`i64::MAX` when there is none).
    fn refresh_cached_minimum(&self) -> (r: i64)
        ensures
            exists|observed: Seq<i64>| observed.len() == self.gating().len() && r == min_of(observed),
            self.gating().len() == 0 ==> r == i64::MAX,
    {
        let minimum = Utils::get_minimum_sequence(self.gating_sequences.as_slice());
        self.cached_value.set(minimum);
        minimum
    }

    fn mark_done(&self) {
        self.is_done.store(true, Ordering::Relaxed);
    }

    /// Backpressure for a claim that ends at `end` (the claim started after
    /// `previous`): checks the cached position of the slowest consumer,
    /// refreshes it when it leaves no room (or every `REFRESH_MASK + 1`
    /// claims), and waits while it still leaves no room. Returns the end it
    /// checked (`end` itself), the last position it checked it against, and
    /// whether that position leaves room for `end`.
    fn make_room_for(&self, end: Sequence, previous: Sequence) -> (r: (Sequence, Sequence, bool))
        ensures
            r.0 == end,
            r.2 == has_capacity(end as int, r.1 as int, self.buffer_size_spec() as int),
    {
        let mut cached = self.cached_value.get();
        if !has_room(end, cached, self.buffer_size) {
            cached = self.refresh_cached_minimum();
        } else if (previous & REFRESH_MASK) == 0 {
            cached = self.refresh_cached_minimum();
        }
        if !has_room(end, cached, self.buffer_size) {
            let (minimum, room) = self.wait_for_room(end);
            return (end, minimum, room);
        }
        (end, cached, true)
    }

    /// Backpressure: re-reads (and caches) the position of the slowest
    /// consumer, spinning between reads, until it leaves room for a range
    /// ending at `end`. Returns the last position read and whether it leaves
    /// room; `false` only once the `u64::MAX` polls ran out.
    fn wait_for_room(&self, end: Sequence) -> (r: (Sequence, bool))
        ensures
            r.1 == has_capacity(end as int, r.0 as int, self.buffer_size_spec() as int),
            exists|observed: Seq<i64>| observed.len() == self.gating().len() && r.0 == min_of(observed),
    {
        let mut polls_left: u64 = u64::MAX;
        loop
            decreases polls_left,
        {
            let min_seq = self.refresh_cached_minimum();
            if has_room(end, min_seq, self.buffer_size) {
                return (min_seq, true);
            }
            if polls_left == 0 {
                return (min_seq, false);
            }
            polls_left -= 1;
            spin_loop_hint();
        }
    }
}

impl<W: WaitingStrategy> Sequencer for MultiProducerSequencer<W> {
    type Barrier = MpmcSequenceBarrier<W>;

    closed spec fn gating(&self) -> Seq<Arc<AtomicSequence>> {
        self.gating_sequences@
    }

    /// A cursor that publishing does not move: several producers publish
    /// out of order, so consumers read the availability marks instead.
    closed spec fn cursor(&self) -> Arc<AtomicSequence> {
        self.cursor
    }

    closed spec fn barrier_gating(barrier: &Self::Barrier) -> Seq<Arc<AtomicSequence>> {
        barrier.gating()
    }

    fn add_gating_sequence(&mut self, sequence: &Arc<AtomicSequence>)
        ensures
            final(self).gating() == old(self).gating().push(*sequence),
            final(self).buffer_size_spec() == old(self).buffer_size_spec(),
            final(self).availability() == old(self).availability(),
    {
        self.gating_sequences.push(sequence.clone());
    }

    fn remove_gating_sequence(&mut self, sequence: &Arc<AtomicSequence>) -> (r: bool)
        ensures
            r ==> exists|i: int|
                0 <= i < old(self).gating().len() && old(self).gating()[i] == *sequence
                    && final(self).gating() == old(self).gating().remove(i),
            !r ==> final(self).gating() == old(self).gating(),
            final(self).buffer_size_spec() == old(self).buffer_size_spec(),
            final(self).availability() == old(self).availability(),
    {
        let removed = remove_sequence(&mut self.gating_sequences, sequence);
        match removed {
            Some(i) => {
                assert(old(self).gating()[i as int] == *sequence);
                true
            },
            None => false,
        }
    }

    fn get_cursor(&self) -> (r: Arc<AtomicSequence>)
        ensures
            r == self.cursor(),
    {
        self.cursor.clone()
    }

    /// Claims `n` sequences with one atomic addition on the high-water mark.
    ///
    /// The range ends at `end`; the slot of `end` was last used by
    /// `end - buffer_size` (the wrap point). When the cached position of the
    /// slowest consumer is behind the wrap point, or every `REFRESH_MASK + 1`
    /// claims, the cache is refreshed; while the slowest consumer is still
    /// behind the wrap point, the producer spins and re-reads.
    fn next(&self, n: Sequence) -> (r: (Sequence, Sequence)) {
        let next = self.high_water_mark.get_and_add(n);
        let (end, _minimum, _room) = self.make_room_for(next.wrapping_add(n), next);
        (next.wrapping_add(1), end)
    }

    /// Marks every sequence of `low..=high` available, then wakes waiting
    /// consumers; no shared cursor moves.
    fn publish(&self, low: Sequence, high: Sequence) {
        self.available_buffer.set_batch(low, high);
        self.waiting_strategy.signal_all_when_blocking();
    }

    /// Waits until every consumer has processed what was published: the
    /// run of published sequences that starts at the oldest sequence still
    /// in the ring (`drain_from`) and stops at the high-water mark. Then
    /// raises the shutdown flag.
    fn drain(self) {
        let claim = read_claimed(&self.high_water_mark);
        let (target, _reads) = drain_target(&self.available_buffer, &claim, self.buffer_size);
        let mut polls_left: u64 = u64::MAX;
        while Utils::get_minimum_sequence(self.gating_sequences.as_slice()) < target
            decreases polls_left,
        {
            self.waiting_strategy.signal_all_when_blocking();
            spin_loop_hint();
            if polls_left == 0 {
                break;
            }
            polls_left -= 1;
        }
        self.mark_done();
        self.waiting_strategy.signal_all_when_blocking();
    }

    /// A barrier that waits on this sequencer's availability marks and on
    /// `gating_sequences`, except this sequencer's own cursor, which
    /// publishing does not move (the marks stand for it).
    fn create_sequence_barrier(&self, gating_sequences: &[Arc<AtomicSequence>]) -> (r:
        Self::Barrier)
        ensures
            r.gating() == gating_sequences@,
            forall|i: int|
                0 <= i < r.dependencies().len() ==> gating_sequences@.contains(
                    #[trigger] r.dependencies()[i],
                ),
            forall|j: int|
                0 <= j < gating_sequences@.len() && #[trigger] gating_sequences@[j] != self.cursor()
                    ==> r.dependencies().contains(gating_sequences@[j]),
            r.available_buffer() == self.availability(),
            r.alert_flag() == self.shutdown_flag(),
            r.strategy() == self.strategy(),
    {
        MpmcSequenceBarrier::following(
            self.is_done.clone(),
            self.available_buffer.clone(),
            share_all(gating_sequences),
            all_but(gating_sequences, &self.cursor),
            self.waiting_strategy.clone(),
        )
    }
}

} // verus!
