//! The interfaces of the disruptor: sequencers, barriers, waiting
//! strategies, event storage, processors, handlers, executors and producers.
use std::sync::Arc;
use vstd::prelude::*;

use crate::sequence::{AtomicSequence, Sequence};
use crate::utils::min_of;

verus! {

/// Controls when consumers may read a sequence.
pub trait SequenceBarrier: Send + Sync {
    /// Waits until `sequence` may be read; returns the last sequence that may
    /// be read, which is at least `sequence`, or `None` once the barrier is
    /// alerted (shutdown).
    fn wait_for(&self, sequence: Sequence) -> (r: Option<Sequence>)
        ensures
            r matches Some(available) ==> available >= sequence,
    ;

    /// Wakes threads that wait on this barrier.
    fn signal(&self);
}

/// Hands out sequences to producers and publishes them to consumers.
pub trait Sequencer: Sized {
    type Barrier: SequenceBarrier;

    /// The consumer positions that producers must not overtake, in the
    /// order they were added.
    spec fn gating(&self) -> Seq<Arc<AtomicSequence>>;

    /// The sequence that tracks what has been published.
    spec fn cursor(&self) -> Arc<AtomicSequence>;

    /// The sequences a barrier of this sequencer was created to follow.
    spec fn barrier_gating(barrier: &Self::Barrier) -> Seq<Arc<AtomicSequence>>;

    /// Adds the position of a consumer that producers must not overtake.
    fn add_gating_sequence(&mut self, gating_sequence: &Arc<AtomicSequence>)
        ensures
            final(self).gating() == old(self).gating().push(*gating_sequence),
            final(self).cursor() == old(self).cursor(),
    ;

    /// Removes a gating sequence; `true` when it was present (it is then
    /// removed from where it stood), `false` when nothing changed.
    fn remove_gating_sequence(&mut self, sequence: &Arc<AtomicSequence>) -> (r: bool)
        ensures
            r ==> exists|i: int|
                0 <= i < old(self).gating().len() && old(self).gating()[i] == *sequence
                    && final(self).gating() == old(self).gating().remove(i),
            !r ==> final(self).gating() == old(self).gating(),
            final(self).cursor() == old(self).cursor(),
    ;

    /// A barrier for consumers that follow `gating_sequences`.
    fn create_sequence_barrier(&self, gating_sequences: &[Arc<AtomicSequence>]) -> (r:
        Self::Barrier)
        ensures
            Self::barrier_gating(&r) == gating_sequences@,
    ;

    /// The sequence that tracks what has been published.
    fn get_cursor(&self) -> (r: Arc<AtomicSequence>)
        ensures
            r == self.cursor(),
    ;

    /// Claims `n` consecutive sequences and returns the first and the last.
    fn next(&self, n: Sequence) -> (r: (Sequence, Sequence))
        ensures
            r.1 == r.0.wrapping_add(n.wrapping_sub(1)),
    ;

    /// Makes the sequences `low..=high` visible to consumers.
    fn publish(&self, low: Sequence, high: Sequence);

    /// Waits until consumers have processed what was published, then shuts
    /// them down.
    fn drain(self);
}

/// How a thread waits until the sequences it depends on have advanced.
pub trait WaitingStrategy: Default + Send + Sync {
    fn new() -> Self;

    /// Waits until the least of `dependencies` reaches `sequence` and returns
    /// it (so at least `sequence`; the least of one read of each dependency,
    /// and `i64::MAX` for none), or `None` when `check_alert` reports an
    /// alert first.
    fn wait_for<F: Fn() -> bool>(
        &self,
        sequence: Sequence,
        dependencies: &[Arc<AtomicSequence>],
        check_alert: F,
    ) -> (r: Option<i64>)
        requires
            check_alert.requires(()),
        ensures
            r matches Some(minimum) ==> minimum >= sequence && exists|observed: Seq<i64>|
                observed.len() == dependencies@.len() && minimum == min_of(observed),
            dependencies@.len() == 0 ==> r == Some(i64::MAX),
    ;

    /// Wakes threads that block in `wait_for`.
    fn signal_all_when_blocking(&self);
}

/// Storage for events, addressed by sequence.
///
/// Implementations hand out references into shared slots; the sequencing
/// protocol is what keeps a slot from being written while it is read: a
/// producer only writes the sequences it claimed, and a consumer only reads
/// sequences that were published and that the producers cannot claim again
/// until the consumer has moved past them.
pub trait DataProvider<T>: Send + Sync {
    /// The number of slots.
    fn get_capacity(&self) -> usize;

    /// The event stored for `sequence`.
    fn get(&self, sequence: Sequence) -> &T;

    /// The event stored for `sequence`, for writing.
    fn get_mut(&self, sequence: Sequence) -> &mut T;
}

/// A component that runs until it is stopped.
pub trait Runnable: Send {
    /// Whether the component is running.
    spec fn running(&self) -> bool;

    /// Runs until stopped; not running afterwards.
    fn run(&mut self)
        ensures
            !final(self).running(),
    ;

    /// Asks the component to stop; not running afterwards.
    fn stop(&mut self)
        ensures
            !final(self).running(),
    ;

    /// Whether the component is running.
    fn is_running(&self) -> (r: bool)
        ensures
            r == self.running(),
    ;
}

/// A boxed runnable runs as the runnable in the box.
impl<'a> Runnable for Box<dyn Runnable + 'a> {
    open spec fn running(&self) -> bool {
        (**self).running()
    }

    fn run(&mut self) {
        (**self).run()
    }

    fn stop(&mut self) {
        (**self).stop()
    }

    fn is_running(&self) -> (r: bool) {
        (**self).is_running()
    }
}

/// A processor of events, turned into a runnable by `create`.
pub trait EventProcessor<'a, T>: Sized {
    /// What `create` returns.
    type Runner: Runnable + 'a;

    /// The processor's own sequence: the last sequence it has handled.
    spec fn sequence(&self) -> Arc<AtomicSequence>;

    /// The processor's own sequence, which later stages follow.
    fn get_cursor(&self) -> (r: Arc<AtomicSequence>)
        ensures
            r == self.sequence(),
    ;

    fn create<D: DataProvider<T> + 'a, S: SequenceBarrier + 'a>(
        self,
        data_provider: Arc<D>,
        barrier: S,
    ) -> Self::Runner;

    /// The processor's own sequence, as `get_cursor` returns it.
    fn get_sequence(&self) -> (r: Arc<AtomicSequence>)
        ensures
            r == self.sequence(),
    ;
}

/// A processor whose handler mutates its own state.
pub trait EventProcessorMut<'a, T>: Sized {
    /// What `create` returns.
    type Runner: Runnable + 'a;

    /// The processor's own sequence: the last sequence it has handled.
    spec fn sequence(&self) -> Arc<AtomicSequence>;

    /// The processor's own sequence, which later stages follow.
    fn get_cursor(&self) -> (r: Arc<AtomicSequence>)
        ensures
            r == self.sequence(),
    ;

    fn create<D: DataProvider<T> + 'a, S: SequenceBarrier + 'a>(
        self,
        data_provider: Arc<D>,
        barrier: S,
    ) -> Self::Runner;

    /// The processor's own sequence, as `get_cursor` returns it.
    fn get_sequence(&self) -> (r: Arc<AtomicSequence>)
        ensures
            r == self.sequence(),
    ;
}

/// Handles events; `end_of_batch` is `true` on the last event of a batch.
pub trait EventHandler<T> {
    fn on_event(&self, event: &T, sequence: Sequence, end_of_batch: bool);

    fn on_start(&self);

    fn on_shutdown(&self);
}

/// Handles events with mutable access to its own state.
pub trait EventHandlerMut<T> {
    fn on_event(&mut self, event: &T, sequence: Sequence, end_of_batch: bool);

    fn on_start(&mut self);

    fn on_shutdown(&mut self);
}

/// The handle of a running executor.
pub trait ExecutorHandle: Sized {
    fn join(self);
}

/// Runs a set of runnables.
pub trait EventProcessorExecutor<'a>: Sized {
    type Handle: ExecutorHandle;

    fn with_runnables(runnables: Vec<Box<dyn Runnable + 'a>>) -> Self;

    fn spawn(self) -> Self::Handle;
}

/// `f` ran on some slot with `sequence` and a reference to `item`.
pub open spec fn wrote_item<T, U, F: Fn(&mut T, Sequence, &U)>(f: F, sequence: Sequence, item: &U) -> bool {
    exists|slot: &mut T| f.ensures((slot, sequence, item), ())
}

/// `f` ran on some slot with `sequence` and `item`.
pub open spec fn moved_item<T, U, F: Fn(&mut T, Sequence, U)>(f: F, sequence: Sequence, item: U) -> bool {
    exists|slot: &mut T| f.ensures((slot, sequence, item), ())
}

/// `f` ran for every item `i` of `items` with sequence `start + i`
/// (wrapping) and a reference to the item.
pub open spec fn wrote_all<T, U, F: Fn(&mut T, Sequence, &U)>(f: F, items: Seq<U>, start: Sequence) -> bool {
    forall|i: int|
        0 <= i < items.len() ==> #[trigger] wrote_item(f, start.wrapping_add(i as Sequence), &items[i])
}

/// `f` ran for every item `i` of `items` with sequence `start + i`
/// (wrapping) and the item.
pub open spec fn moved_all<T, U, F: Fn(&mut T, Sequence, U)>(f: F, items: Seq<U>, start: Sequence) -> bool {
    forall|i: int|
        0 <= i < items.len() ==> #[trigger] moved_item(f, start.wrapping_add(i as Sequence), items[i])
}

/// Writes events of type `T` into the ring.
pub trait EventProducer<'a, T>: Sized {
    /// Claims one sequence per item, lets `f` fill each slot from a
    /// reference to its item, then publishes the claimed range: for some
    /// claimed start, `f` ran for item `i` with sequence `start + i` (wrapping).
    fn write<F, U>(&self, items: Vec<U>, f: F) where F: Fn(&mut T, Sequence, &U)
        requires
            forall|slot: &mut T, sequence: Sequence, item: &U| f.requires((slot, sequence, item)),
        ensures
            items@.len() > 0 ==> exists|start: Sequence| #[trigger] wrote_all(f, items@, start),
    ;

    /// As `write`, handing each item to `f` by value.
    fn moving_write<F, U>(&self, items: Vec<U>, f: F) where F: Fn(&mut T, Sequence, U)
        requires
            forall|slot: &mut T, sequence: Sequence, item: U| f.requires((slot, sequence, item)),
        ensures
            items@.len() > 0 ==> exists|start: Sequence| #[trigger] moved_all(f, items@, start),
    ;

    /// Waits until everything written was processed, then shuts down.
    fn drain(self);
}

} // verus!
