//! Sequence barriers: where consumers wait until the events they are about
//! to read have been published, and until the consumers they depend on have
//! processed them.
use std::sync::atomic::AtomicBool;
use std::sync::atomic::Ordering;
use std::sync::Arc;
use vstd::prelude::*;

use crate::sequence::{AtomicSequence, Sequence};
use crate::traits::{SequenceBarrier, WaitingStrategy};
use crate::observation::{extend_run, read_slot, SlotRead};
use crate::utils::{min_of, AvailableSequenceBuffer};
use crate::waiting::spin_loop_hint;

verus! {

/// The smaller of the published end `contiguous` and the least position
/// `processed` of the consumers a barrier depends on.
pub fn bounded_by(contiguous: Sequence, processed: Sequence) -> (r: Sequence)
    ensures
        r == if processed < contiguous { processed } else { contiguous },
{
    if processed < contiguous {
        processed
    } else {
        contiguous
    }
}

/// A barrier that lets a consumer read up to the least of its gating
/// sequences, waiting with the configured strategy.
pub struct ProcessingSequenceBarrier<W: WaitingStrategy> {
    /// Set when the consumers must shut down.
    alert: Arc<AtomicBool>,
    /// The sequences that must advance before consumption can proceed.
    gating_sequences: Vec<Arc<AtomicSequence>>,
    /// How the consumer waits.
    waiting_strategy: Arc<W>,
}

impl<W: WaitingStrategy> ProcessingSequenceBarrier<W> {
    /// The sequences this barrier waits on.
    pub closed spec fn gating(&self) -> Seq<Arc<AtomicSequence>> {
        self.gating_sequences@
    }

    /// The shutdown flag.
    pub closed spec fn alert_flag(&self) -> Arc<AtomicBool> {
        self.alert
    }

    /// The waiting strategy.
    pub closed spec fn strategy(&self) -> Arc<W> {
        self.waiting_strategy
    }

    /// Creates a barrier over `gating_sequences`.
    pub fn new(
        alert: Arc<AtomicBool>,
        gating_sequences: Vec<Arc<AtomicSequence>>,
        waiting_strategy: Arc<W>,
    ) -> (r: Self)
        ensures
            r.gating() == gating_sequences@,
            r.alert_flag() == alert,
            r.strategy() == waiting_strategy,
    {
        Self { alert, gating_sequences, waiting_strategy }
    }
}

impl<W: WaitingStrategy> SequenceBarrier for ProcessingSequenceBarrier<W> {
    /// Waits with the strategy until the least gating sequence reaches
    /// `sequence`; `None` once the alert flag is set.
    fn wait_for(&self, sequence: Sequence) -> (r: Option<Sequence>)
        ensures
            r matches Some(minimum) ==> exists|observed: Seq<i64>|
                observed.len() == self.gating().len() && minimum == min_of(observed),
            self.gating().len() == 0 ==> r == Some(i64::MAX),
    {
        let alert = &self.alert;
        self.waiting_strategy.wait_for(
            sequence,
            self.gating_sequences.as_slice(),
            || alert.load(Ordering::Relaxed),
        )
    }

    /// Wakes the threads that wait with the strategy.
    fn signal(&self) {
        self.waiting_strategy.signal_all_when_blocking()
    }
}

/// A barrier for several producers: it waits on the availability mark of
/// the slot it needs, extends the readable range over the sequences that
/// follow and are marked too, and, for a later stage, keeps the range within
/// what the consumers it depends on have processed.
pub struct MpmcSequenceBarrier<W: WaitingStrategy> {
    alert: Arc<AtomicBool>,
    available: Arc<AvailableSequenceBuffer>,
    /// The sequences the barrier was created to follow.
    gating_sequences: Vec<Arc<AtomicSequence>>,
    /// Those of them that the barrier reads: all but the sequencer's own
    /// cursor, which publishing does not move (the marks stand for it).
    dependencies: Vec<Arc<AtomicSequence>>,
    waiting_strategy: Arc<W>,
}

/// How far past the awaited sequence a barrier looks for more published
/// sequences.
pub const SCAN_LIMIT: i64 = 1024;

impl<W: WaitingStrategy> MpmcSequenceBarrier<W> {
    /// The availability buffer this barrier reads.
    pub closed spec fn available_buffer(&self) -> Arc<AvailableSequenceBuffer> {
        self.available
    }

    /// The sequences the barrier was created to follow.
    pub closed spec fn gating(&self) -> Seq<Arc<AtomicSequence>> {
        self.gating_sequences@
    }

    /// The consumer sequences the barrier waits on.
    pub closed spec fn dependencies(&self) -> Seq<Arc<AtomicSequence>> {
        self.dependencies@
    }

    /// The shutdown flag.
    pub closed spec fn alert_flag(&self) -> Arc<AtomicBool> {
        self.alert
    }

    /// The waiting strategy.
    pub closed spec fn strategy(&self) -> Arc<W> {
        self.waiting_strategy
    }

    /// A barrier of the first stage: it follows the availability marks only.
    pub fn new(
        alert: Arc<AtomicBool>,
        available: Arc<AvailableSequenceBuffer>,
        waiting_strategy: Arc<W>,
    ) -> (r: Self)
        ensures
            r.available_buffer() == available,
            r.gating().len() == 0,
            r.dependencies().len() == 0,
            r.alert_flag() == alert,
            r.strategy() == waiting_strategy,
    {
        Self {
            alert,
            available,
            gating_sequences: Vec::new(),
            dependencies: Vec::new(),
            waiting_strategy,
        }
    }

    /// A barrier that follows `gating_sequences` and waits on
    /// `dependencies` as well as on the availability marks.
    pub(crate) fn following(
        alert: Arc<AtomicBool>,
        available: Arc<AvailableSequenceBuffer>,
        gating_sequences: Vec<Arc<AtomicSequence>>,
        dependencies: Vec<Arc<AtomicSequence>>,
        waiting_strategy: Arc<W>,
    ) -> (r: Self)
        ensures
            r.available_buffer() == available,
            r.gating() == gating_sequences@,
            r.dependencies() == dependencies@,
            r.alert_flag() == alert,
            r.strategy() == waiting_strategy,
    {
        Self { alert, available, gating_sequences, dependencies, waiting_strategy }
    }

    /// Spins on the slot of `sequence` until a read finds it published, and
    /// returns that read; `None` once the alert flag is seen set (or after
    /// `u64::MAX` polls).
    pub fn await_published(&self, sequence: Sequence) -> (r: Option<SlotRead>)
        ensures
            r matches Some(read) ==> read.sequence() == sequence && read.published(),
    {
        let mut polls_left: u64 = u64::MAX;
        loop
            decreases polls_left,
        {
            if self.is_alerted() {
                return None;
            }
            let read = read_slot(&self.available, sequence);
            if read.is_published() {
                return Some(read);
            }
            if polls_left == 0 {
                return None;
            }
            polls_left -= 1;
            spin_loop_hint();
        }
    }

    fn is_alerted(&self) -> bool {
        self.alert.load(Ordering::Relaxed)
    }
}

impl<W: WaitingStrategy> SequenceBarrier for MpmcSequenceBarrier<W> {
    /// Spins until `sequence` is marked available (`None` if the alert flag
    /// is set first), then takes the end of the run of available sequences
    /// that starts at `sequence`, looking at most `SCAN_LIMIT` past it. With
    /// dependencies, it then waits with the strategy until their least
    /// position reaches `sequence` (`None` on an alert) and returns the
    /// smaller of the two ends. The spin stops after `u64::MAX` polls with
    /// `None`, as an alert would.
    fn wait_for(&self, sequence: Sequence) -> (r: Option<Sequence>)
        ensures
            r matches Some(available) ==> sequence <= available && available - sequence
                <= SCAN_LIMIT,
            self.dependencies().len() > 0 ==> (r matches Some(available) ==> exists|
                observed: Seq<i64>,
            | observed.len() == self.dependencies().len() && available <= min_of(observed)),
    {
        let first = match self.await_published(sequence) {
            Some(read) => read,
            None => {
                return None;
            },
        };
        let scan_limit = if sequence > i64::MAX - SCAN_LIMIT {
            i64::MAX
        } else {
            sequence + SCAN_LIMIT
        };
        let (contiguous, _reads) = extend_run(&self.available, &first, scan_limit);
        if self.dependencies.len() == 0 {
            return Some(contiguous);
        }
        match self.waiting_strategy.wait_for(
            sequence,
            self.dependencies.as_slice(),
            || self.is_alerted(),
        ) {
            Some(processed) => Some(bounded_by(contiguous, processed)),
            None => None,
        }
    }

    fn signal(&self) {
        self.waiting_strategy.signal_all_when_blocking()
    }
}

} // verus!
