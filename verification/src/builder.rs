//! A type-state builder that wires a disruptor together: storage, then a
//! waiting strategy, then a sequencer, then stages of event handlers, then
//! the executor and the producer.
//!
//! Handlers added within one barrier scope run in parallel and follow the
//! previous scope (or, for the first scope, the sequencer's cursor); the
//! sequences of the last scope gate the producer.
use std::marker::PhantomData;
use std::sync::Arc;
use vstd::prelude::*;

use crate::processor::EventProcessorFactory;
use crate::producer::Producer;
use crate::sequence::AtomicSequence;
use crate::sequencer::{MultiProducerSequencer, SingleProducerSequencer};
use crate::traits::{
    DataProvider, EventHandler, EventHandlerMut, EventProcessor, EventProcessorExecutor,
    EventProcessorMut, EventProducer, Runnable, SequenceBarrier, Sequencer, WaitingStrategy,
};
use crate::utils::is_power_of_two_i64;
use crate::waiting::BusySpinWaitStrategy;

verus! {

/// The starting point of the builder.
#[derive(Debug)]
pub struct DisruptorBuilder {}

/// The builder once the event storage is chosen.
pub struct WithDataProvider<D: DataProvider<T>, T> where T: Send + Sync {
    data_provider: Arc<D>,
    capacity: usize,
    _marker: PhantomData<T>,
}

/// The builder once the waiting strategy is chosen.
pub struct WithWaitingStrategy<W: WaitingStrategy, D: DataProvider<T>, T> where T: Send + Sync {
    with_data_provider: WithDataProvider<D, T>,
    _waiting_strategy: PhantomData<W>,
}

/// The builder once the sequencer is chosen.
pub struct WithSequencer<S: Sequencer, W: WaitingStrategy, D: DataProvider<T>, T> where
    T: Send + Sync,
 {
    with_waiting_strategy: WithWaitingStrategy<W, D, T>,
    sequencer: S,
}

/// One stage of handlers: each handler added here waits on
/// `gating_sequences` and contributes its own sequence to `cursors`.
pub struct BarrierScope<'a, S: Sequencer, D: DataProvider<T>, T> {
    sequencer: S,
    data_provider: Arc<D>,
    gating_sequences: Vec<Arc<AtomicSequence>>,
    cursors: Vec<Arc<AtomicSequence>>,
    event_handlers: Vec<Box<dyn Runnable + 'a>>,
    /// For each runnable, the sequences its barrier was created to follow.
    barriers: Ghost<Seq<Seq<Arc<AtomicSequence>>>>,
    _element: PhantomData<T>,
}

/// The builder once at least one stage of handlers is added.
pub struct WithEventHandlers<'a, S: Sequencer, W: WaitingStrategy, D: DataProvider<T>, T> where
    T: Send + Sync,
 {
    with_sequencer: WithSequencer<S, W, D, T>,
    event_handlers: Vec<Box<dyn Runnable + 'a>>,
    gating_sequences: Vec<Arc<AtomicSequence>>,
    /// For each runnable, the sequences its barrier was created to follow.
    barriers: Ghost<Seq<Seq<Arc<AtomicSequence>>>>,
}

impl DisruptorBuilder {
    /// Starts a builder over `data_provider`, reading its capacity.
    pub fn new<D: DataProvider<T>, T>(data_provider: Arc<D>) -> (r: WithDataProvider<D, T>) where
        T: Send + Sync,
        ensures
            r.storage() == data_provider,
    {
        let capacity = data_provider.get_capacity();
        WithDataProvider { data_provider, capacity, _marker: PhantomData }
    }
}

impl<D: DataProvider<T>, T> WithDataProvider<D, T> where T: Send + Sync {
    /// The event storage.
    pub closed spec fn storage(&self) -> Arc<D> {
        self.data_provider
    }

    /// The capacity the storage reported.
    pub closed spec fn capacity(&self) -> usize {
        self.capacity
    }

    /// The capacity the storage reported when the builder started.
    pub fn get_capacity(&self) -> (r: usize)
        ensures
            r == self.capacity(),
    {
        self.capacity
    }

    /// Chooses the waiting strategy `W`.
    pub fn with_waiting_strategy<W: WaitingStrategy>(self) -> (r: WithWaitingStrategy<W, D, T>)
        ensures
            r.storage() == self.storage(),
            r.capacity() == self.capacity(),
    {
        WithWaitingStrategy { with_data_provider: self, _waiting_strategy: PhantomData }
    }

    /// Chooses busy spinning.
    pub fn with_busy_spin_waiting_strategy(self) -> (r: WithWaitingStrategy<
        BusySpinWaitStrategy,
        D,
        T,
    >)
        ensures
            r.storage() == self.storage(),
            r.capacity() == self.capacity(),
    {
        self.with_waiting_strategy()
    }
}

impl<W: WaitingStrategy, D: DataProvider<T>, T> WithWaitingStrategy<W, D, T> where T: Send + Sync {
    /// The event storage.
    pub closed spec fn storage(&self) -> Arc<D> {
        self.with_data_provider.data_provider
    }

    /// The capacity the storage reported.
    pub closed spec fn capacity(&self) -> usize {
        self.with_data_provider.capacity
    }

    /// The capacity the storage reported when the builder started.
    pub fn get_capacity(&self) -> (r: usize)
        ensures
            r == self.capacity(),
    {
        self.with_data_provider.capacity
    }

    /// Chooses `sequencer`.
    pub fn with_sequencer<S: Sequencer>(self, sequencer: S) -> (r: WithSequencer<S, W, D, T>)
        ensures
            r.storage() == self.storage(),
            r.sequencer_spec() == sequencer,
    {
        WithSequencer { with_waiting_strategy: self, sequencer }
    }

    /// Chooses a single-producer sequencer sized to the storage.
    pub fn with_single_producer_sequencer(self) -> (r: WithSequencer<
        SingleProducerSequencer<W>,
        W,
        D,
        T,
    >)
        ensures
            r.storage() == self.storage(),
            r.sequencer_spec().buffer_size_spec() == self.capacity() as i64,
            r.sequencer_spec().gating().len() == 0,
            r.sequencer_spec().cursor().initial_value() == -1,
            r.sequencer_spec().first_claim() == 0,
    {
        let buffer_size = self.with_data_provider.capacity;
        self.with_sequencer(SingleProducerSequencer::new(buffer_size, W::new()))
    }

    /// Chooses a multi-producer sequencer sized to the storage, whose
    /// capacity must be a power of two (that fits in an `i64`).
    pub fn with_multi_producer_sequencer(self) -> (r: WithSequencer<
        MultiProducerSequencer<W>,
        W,
        D,
        T,
    >)
        requires
            is_power_of_two_i64(self.capacity() as i64),
        ensures
            r.storage() == self.storage(),
            r.sequencer_spec().buffer_size_spec() == self.capacity() as i64,
            r.sequencer_spec().gating().len() == 0,
            r.sequencer_spec().cursor().initial_value() == -1,
            r.sequencer_spec().first_high_water_mark() == -1,
    {
        let buffer_size = self.with_data_provider.capacity;
        self.with_sequencer(MultiProducerSequencer::new(buffer_size, W::new()))
    }
}

impl<'a, S: Sequencer + 'a, W: WaitingStrategy, D: DataProvider<T> + 'a, T: Send + Sync + 'a> WithSequencer<
    S,
    W,
    D,
    T,
> where T: Send + Sync {
    /// The event storage.
    pub closed spec fn storage(&self) -> Arc<D> {
        self.with_waiting_strategy.with_data_provider.data_provider
    }

    /// The chosen sequencer.
    pub closed spec fn sequencer_spec(&self) -> S {
        self.sequencer
    }

    /// Adds the first stage: `f` runs on a fresh stage that follows the
    /// sequencer's cursor, holds no handler yet and uses this builder's
    /// sequencer and storage. The stage's runnables, their barriers and its
    /// sequences (which become the last stage) make up the result, with the
    /// sequencer as `f` left it.
    pub fn with_barrier<F: FnOnce(&mut BarrierScope<'a, S, D, T>)>(self, f: F) -> (r:
        WithEventHandlers<'a, S, W, D, T>)
        requires
            forall|scope: &mut BarrierScope<'a, S, D, T>| f.requires((scope,)),
        ensures
            r.storage() == self.storage(),
            exists|stage: &mut BarrierScope<'a, S, D, T>|
                {
                    &&& (*stage).gating() == seq![self.sequencer_spec().cursor()]
                    &&& (*stage).stage_cursors().len() == 0
                    &&& (*stage).runnables().len() == 0
                    &&& (*stage).runnable_barriers().len() == 0
                    &&& (*stage).storage() == self.storage()
                    &&& (*stage).sequencer_spec() == self.sequencer_spec()
                    &&& f.ensures((stage,), ())
                    &&& r.last_stage() == (*final(stage)).stage_cursors()
                    &&& r.runnables() == (*final(stage)).runnables()
                    &&& r.runnable_barriers() == (*final(stage)).runnable_barriers()
                    &&& r.sequencer_spec() == (*final(stage)).sequencer_spec()
                },
    {
        let ghost old_sequencer = self.sequencer_spec();
        let WithSequencer { with_waiting_strategy, sequencer } = self;
        let cursor = sequencer.get_cursor();
        let mut gating_sequences: Vec<Arc<AtomicSequence>> = Vec::new();
        gating_sequences.push(cursor);
        let scope = BarrierScope {
            sequencer,
            data_provider: with_waiting_strategy.with_data_provider.data_provider.clone(),
            gating_sequences,
            cursors: Vec::new(),
            event_handlers: Vec::new(),
            barriers: Ghost(Seq::empty()),
            _element: PhantomData,
        };
        let ghost before = scope;
        let scope = run_stage(scope, f);
        let ghost after = scope;
        let ghost stage = choose|stage: &mut BarrierScope<'a, S, D, T>|
            *stage == before && f.ensures((stage,), ()) && after == *final(stage);
        let BarrierScope { sequencer, event_handlers, cursors, barriers, .. } = scope;
        let r = WithEventHandlers {
            with_sequencer: WithSequencer { with_waiting_strategy, sequencer },
            event_handlers,
            gating_sequences: cursors,
            barriers,
        };
        assert(f.ensures((stage,), ()));
        assert((*stage).gating() =~= seq![old_sequencer.cursor()]);
        r
    }
}

/// Calls `f` on `a`, `b` and `c`.
fn call_once<A, B, C, R, F: FnOnce(A, B, C) -> R>(f: F, a: A, b: B, c: C) -> (r: R)
    requires
        f.requires((a, b, c)),
    ensures
        f.ensures((a, b, c), r),
{
    f(a, b, c)
}

/// Appends `runnable` to `runnables`.
fn push_runnable<'a>(runnables: &mut Vec<Box<dyn Runnable + 'a>>, runnable: Box<dyn Runnable + 'a>)
    ensures
        final(runnables)@.len() == old(runnables)@.len() + 1,
        exists|pushed: Box<dyn Runnable + 'a>| final(runnables)@ == #[trigger] old(runnables)@.push(
            pushed,
        ),
{
    let ghost pushed = runnable;
    runnables.push(runnable);
    proof {
        vstd::seq::axiom_seq_push_len(old(runnables)@, runnable);
        assert(runnables@ == old(runnables)@.push(pushed));
    }
}

/// Runs `f` on `scope` and returns the scope as `f` left it.
fn run_stage<'a, S: Sequencer + 'a, D: DataProvider<T> + 'a, T: Send + 'a, F: FnOnce(
    &mut BarrierScope<'a, S, D, T>,
)>(scope: BarrierScope<'a, S, D, T>, f: F) -> (r: BarrierScope<'a, S, D, T>)
    requires
        forall|stage: &mut BarrierScope<'a, S, D, T>| f.requires((stage,)),
    ensures
        exists|stage: &mut BarrierScope<'a, S, D, T>|
            *stage == scope && f.ensures((stage,), ()) && r == *final(stage),
{
    let mut scope = scope;
    f(&mut scope);
    scope
}

impl<'a, S: Sequencer + 'a, D: DataProvider<T> + 'a, T: Send + 'a> BarrierScope<'a, S, D, T> {
    /// The sequences the handlers of this stage wait on.
    pub closed spec fn gating(&self) -> Seq<Arc<AtomicSequence>> {
        self.gating_sequences@
    }

    /// The sequences of the handlers added to this stage.
    pub closed spec fn stage_cursors(&self) -> Seq<Arc<AtomicSequence>> {
        self.cursors@
    }

    /// The event storage.
    pub closed spec fn storage(&self) -> Arc<D> {
        self.data_provider
    }

    /// The sequencer the stage creates its barriers from.
    pub closed spec fn sequencer_spec(&self) -> S {
        self.sequencer
    }

    /// The runnables of the handlers added to this stage, in order.
    pub closed spec fn runnables(&self) -> Seq<Box<dyn Runnable + 'a>> {
        self.event_handlers@
    }

    /// For each runnable of `runnables()`, the sequences its barrier was
    /// created to follow: a ghost record kept beside each barrier's creation.
    pub closed spec fn runnable_barriers(&self) -> Seq<Seq<Arc<AtomicSequence>>> {
        self.barriers@
    }

    /// Adds a handler of this stage, through a processor whose sequence
    /// starts at `-1`; otherwise as `handle_events_with`.
    pub fn handle_events<E>(&mut self, handler: E) where E: EventHandler<T> + Send + 'a
        ensures
            final(self).stage_cursors().drop_last() == old(self).stage_cursors(),
            final(self).stage_cursors().len() == old(self).stage_cursors().len() + 1,
            final(self).stage_cursors().last().initial_value() == -1,
            final(self).runnables().len() == old(self).runnables().len() + 1,
            exists|runnable: Box<dyn Runnable + 'a>|
                final(self).runnables() == #[trigger] old(self).runnables().push(runnable),
            final(self).runnable_barriers() == old(self).runnable_barriers().push(old(self).gating()),
            final(self).gating() == old(self).gating(),
            final(self).storage() == old(self).storage(),
            final(self).sequencer_spec() == old(self).sequencer_spec(),
    {
        let processor = EventProcessorFactory::create(handler);
        self.handle_events_with(processor);
    }

    /// Adds a handler with mutable state to this stage, as `handle_events`.
    pub fn handle_events_mut<E>(&mut self, handler: E) where E: EventHandlerMut<T> + Send + 'a
        ensures
            final(self).stage_cursors().drop_last() == old(self).stage_cursors(),
            final(self).stage_cursors().len() == old(self).stage_cursors().len() + 1,
            final(self).stage_cursors().last().initial_value() == -1,
            final(self).runnables().len() == old(self).runnables().len() + 1,
            exists|runnable: Box<dyn Runnable + 'a>|
                final(self).runnables() == #[trigger] old(self).runnables().push(runnable),
            final(self).runnable_barriers() == old(self).runnable_barriers().push(old(self).gating()),
            final(self).gating() == old(self).gating(),
            final(self).storage() == old(self).storage(),
            final(self).sequencer_spec() == old(self).sequencer_spec(),
    {
        let processor = EventProcessorFactory::create_mut(handler);
        self.handle_events_with_mut(processor);
    }

    /// Adds `processor` to this stage: its sequence joins the stage's
    /// cursors, and its runnable, created over the stage's storage with a
    /// barrier that follows the stage's gating sequences, joins the
    /// runnables.
    pub fn handle_events_with<E: EventProcessor<'a, T>>(
        &mut self,
        processor: E,
    )
        ensures
            final(self).stage_cursors() == old(self).stage_cursors().push(processor.sequence()),
            final(self).runnables().len() == old(self).runnables().len() + 1,
            exists|barrier: S::Barrier, runner: E::Runner|
                {
                    &&& S::barrier_gating(&barrier) == old(self).gating()
                    &&& #[trigger] call_ensures(
                        E::create::<D, S::Barrier>,
                        (processor, old(self).storage(), barrier),
                        runner,
                    )
                },
            exists|runnable: Box<dyn Runnable + 'a>|
                final(self).runnables() == #[trigger] old(self).runnables().push(runnable),
            final(self).runnable_barriers() == old(self).runnable_barriers().push(old(self).gating()),
            final(self).gating() == old(self).gating(),
            final(self).storage() == old(self).storage(),
            final(self).sequencer_spec() == old(self).sequencer_spec(),
    {
        let ghost given = processor;
        self.cursors.push(processor.get_cursor());
        let barrier = self.sequencer.create_sequence_barrier(self.gating_sequences.as_slice());
        let ghost followed = S::barrier_gating(&barrier);
        let ghost handed_barrier = barrier;
        let storage = self.data_provider.clone();
        let ghost handed_storage = storage;
        let made = call_once(E::create::<D, S::Barrier>, processor, storage, barrier);
        assert(call_ensures(E::create::<D, S::Barrier>, (given, handed_storage, handed_barrier), made));
        assert(handed_storage == old(self).storage());
        let runnable: Box<dyn Runnable + 'a> = Box::new(made);
        let ghost before = self.event_handlers@;
        assert(before == old(self).runnables());
        push_runnable(&mut self.event_handlers, runnable);
        let ghost pushed = choose|x: Box<dyn Runnable + 'a>| self.event_handlers@ == #[trigger] before.push(x);
        assert(self.runnables() == old(self).runnables().push(pushed));
        proof {
            self.barriers@ = self.barriers@.push(followed);
        }
    }

    /// As `handle_events_with`, for a processor with mutable state.
    pub fn handle_events_with_mut<E: EventProcessorMut<'a, T>>(
        &mut self,
        processor: E,
    )
        ensures
            final(self).stage_cursors() == old(self).stage_cursors().push(processor.sequence()),
            final(self).runnables().len() == old(self).runnables().len() + 1,
            exists|barrier: S::Barrier, runner: E::Runner|
                {
                    &&& S::barrier_gating(&barrier) == old(self).gating()
                    &&& #[trigger] call_ensures(
                        E::create::<D, S::Barrier>,
                        (processor, old(self).storage(), barrier),
                        runner,
                    )
                },
            exists|runnable: Box<dyn Runnable + 'a>|
                final(self).runnables() == #[trigger] old(self).runnables().push(runnable),
            final(self).runnable_barriers() == old(self).runnable_barriers().push(old(self).gating()),
            final(self).gating() == old(self).gating(),
            final(self).storage() == old(self).storage(),
            final(self).sequencer_spec() == old(self).sequencer_spec(),
    {
        let ghost given = processor;
        self.cursors.push(processor.get_cursor());
        let barrier = self.sequencer.create_sequence_barrier(self.gating_sequences.as_slice());
        let ghost followed = S::barrier_gating(&barrier);
        let ghost handed_barrier = barrier;
        let storage = self.data_provider.clone();
        let ghost handed_storage = storage;
        let made = call_once(E::create::<D, S::Barrier>, processor, storage, barrier);
        assert(call_ensures(E::create::<D, S::Barrier>, (given, handed_storage, handed_barrier), made));
        assert(handed_storage == old(self).storage());
        let runnable: Box<dyn Runnable + 'a> = Box::new(made);
        let ghost before = self.event_handlers@;
        assert(before == old(self).runnables());
        push_runnable(&mut self.event_handlers, runnable);
        let ghost pushed = choose|x: Box<dyn Runnable + 'a>| self.event_handlers@ == #[trigger] before.push(x);
        assert(self.runnables() == old(self).runnables().push(pushed));
        proof {
            self.barriers@ = self.barriers@.push(followed);
        }
    }

    /// Runs `f` once on a nested stage that follows this stage's cursors,
    /// holds no handler yet and uses this stage's sequencer and storage.
    /// This scope is consumed, and the runnables of both stages are dropped
    /// with it: they reach no executor.
    pub fn with_barrier<F: FnOnce(&mut BarrierScope<'a, S, D, T>)>(self, f: F)
        requires
            forall|scope: &mut BarrierScope<'a, S, D, T>| f.requires((scope,)),
        ensures
            exists|stage: &mut BarrierScope<'a, S, D, T>|
                {
                    &&& (*stage).gating() == self.stage_cursors()
                    &&& (*stage).stage_cursors().len() == 0
                    &&& (*stage).runnables().len() == 0
                    &&& (*stage).runnable_barriers().len() == 0
                    &&& (*stage).storage() == self.storage()
                    &&& (*stage).sequencer_spec() == self.sequencer_spec()
                    &&& f.ensures((stage,), ())
                },
    {
        let ghost old_cursors = self.stage_cursors();
        let BarrierScope { sequencer, data_provider, cursors, mut event_handlers, .. } = self;
        let scope = BarrierScope {
            sequencer,
            data_provider: data_provider.clone(),
            gating_sequences: cursors,
            event_handlers: Vec::new(),
            cursors: Vec::new(),
            barriers: Ghost(Seq::empty()),
            _element: PhantomData,
        };
        let ghost before = scope;
        let mut scope = run_stage(scope, f);
        let ghost stage = choose|stage: &mut BarrierScope<'a, S, D, T>|
            *stage == before && f.ensures((stage,), ()) && scope == *final(stage);
        assert(f.ensures((stage,), ()));
        assert((*stage).gating() == old_cursors);
        event_handlers.append(&mut scope.event_handlers);
    }
}

impl<'a, S: Sequencer + 'a, W: WaitingStrategy, D: DataProvider<T> + 'a, T: Send + Sync + 'a> WithEventHandlers<
    'a,
    S,
    W,
    D,
    T,
> where T: Send + Sync {
    /// The event storage.
    pub closed spec fn storage(&self) -> Arc<D> {
        self.with_sequencer.with_waiting_strategy.with_data_provider.data_provider
    }

    /// How many runnables the stages hold.
    pub closed spec fn runnable_count(&self) -> nat {
        self.event_handlers@.len()
    }

    /// The runnables of all stages, in the order they were added.
    pub closed spec fn runnables(&self) -> Seq<Box<dyn Runnable + 'a>> {
        self.event_handlers@
    }

    /// The sequencer.
    pub closed spec fn sequencer_spec(&self) -> S {
        self.with_sequencer.sequencer
    }

    /// The sequences of the last stage.
    pub closed spec fn last_stage(&self) -> Seq<Arc<AtomicSequence>> {
        self.gating_sequences@
    }

    /// For each runnable of `runnables()`, the sequences its barrier was
    /// created to follow: a ghost record kept beside each barrier's creation.
    pub closed spec fn runnable_barriers(&self) -> Seq<Seq<Arc<AtomicSequence>>> {
        self.barriers@
    }

    /// Adds a stage whose handlers follow the previous stage: `f` runs on a
    /// fresh stage that waits on the last stage's sequences, holds no
    /// handler yet and uses this builder's sequencer and storage. Afterwards
    /// the stage's runnables follow the earlier ones, its sequences become the
    /// last stage, and its sequencer is kept.
    pub fn with_barrier<F: FnOnce(&mut BarrierScope<'a, S, D, T>)>(self, f: F) -> (r: Self)
        requires
            forall|scope: &mut BarrierScope<'a, S, D, T>| f.requires((scope,)),
        ensures
            r.storage() == self.storage(),
            r.runnable_count() >= self.runnable_count(),
            exists|stage: &mut BarrierScope<'a, S, D, T>|
                {
                    &&& (*stage).gating() == self.last_stage()
                    &&& (*stage).stage_cursors().len() == 0
                    &&& (*stage).runnables().len() == 0
                    &&& (*stage).runnable_barriers().len() == 0
                    &&& (*stage).storage() == self.storage()
                    &&& (*stage).sequencer_spec() == self.sequencer_spec()
                    &&& f.ensures((stage,), ())
                    &&& r.last_stage() == (*final(stage)).stage_cursors()
                    &&& r.runnables() == self.runnables() + (*final(stage)).runnables()
                    &&& r.runnable_barriers() == self.runnable_barriers() + (*final(stage)).runnable_barriers()
                    &&& r.sequencer_spec() == (*final(stage)).sequencer_spec()
                },
    {
        let ghost old_runnables = self.runnables();
        let ghost old_last = self.last_stage();
        let ghost old_barriers = self.runnable_barriers();
        let WithEventHandlers { with_sequencer, mut event_handlers, gating_sequences, .. } = self;
        let WithSequencer { with_waiting_strategy, sequencer } = with_sequencer;
        let scope = BarrierScope {
            gating_sequences,
            cursors: Vec::new(),
            sequencer,
            data_provider: with_waiting_strategy.with_data_provider.data_provider.clone(),
            event_handlers: Vec::new(),
            barriers: Ghost(Seq::empty()),
            _element: PhantomData,
        };
        let ghost before = scope;
        let scope = run_stage(scope, f);
        let ghost after = scope;
        let ghost stage = choose|stage: &mut BarrierScope<'a, S, D, T>|
            *stage == before && f.ensures((stage,), ()) && after == *final(stage);
        let BarrierScope { sequencer, event_handlers: mut stage_handlers, cursors, barriers, .. } =
            scope;
        event_handlers.append(&mut stage_handlers);
        let r = WithEventHandlers {
            with_sequencer: WithSequencer { with_waiting_strategy, sequencer },
            event_handlers,
            gating_sequences: cursors,
            barriers: Ghost(old_barriers + barriers@),
        };
        assert(f.ensures((stage,), ()));
        assert((*stage).gating() == old_last);
        assert(r.runnables() =~= old_runnables + (*final(stage)).runnables());
        r
    }

    /// Makes the last stage's sequences gate the sequencer (added in order,
    /// after any it already had), hands every runnable to an executor of
    /// type `E`, and returns it with a producer over the same storage and
    /// that sequencer.
    pub fn build_with_executor<E: EventProcessorExecutor<'a>>(self) -> (r: (
        E,
        Producer<D, T, S>,
    ))
        ensures
            r.1.storage() == self.storage(),
            r.1.sequencer_spec().gating() == self.sequencer_spec().gating() + self.last_stage(),
            r.1.sequencer_spec().cursor() == self.sequencer_spec().cursor(),
            exists|runnables: Vec<Box<dyn Runnable + 'a>>|
                runnables@ == self.runnables() && #[trigger] call_ensures(
                    E::with_runnables,
                    (runnables,),
                    r.0,
                ),
    {
        let ghost old_gating = self.sequencer_spec().gating();
        let ghost old_cursor = self.sequencer_spec().cursor();
        let ghost old_runnables = self.runnables();
        let WithEventHandlers { with_sequencer, event_handlers, gating_sequences, .. } = self;
        let WithSequencer { with_waiting_strategy, mut sequencer } = with_sequencer;
        let mut i: usize = 0;
        while i < gating_sequences.len()
            invariant
                i <= gating_sequences@.len(),
                sequencer.gating() == old_gating + gating_sequences@.subrange(0, i as int),
                sequencer.cursor() == old_cursor,
            decreases gating_sequences@.len() - i,
        {
            sequencer.add_gating_sequence(&gating_sequences[i]);
            i += 1;
            assert(old_gating + gating_sequences@.subrange(0, i as int) =~= (old_gating
                + gating_sequences@.subrange(0, i - 1)).push(gating_sequences@[i - 1]));
        }
        assert(gating_sequences@.subrange(0, gating_sequences@.len() as int) =~= gating_sequences@);
        let ghost handed = event_handlers;
        let with_runnables = E::with_runnables;
        let executor = with_runnables(event_handlers);
        assert(handed@ == old_runnables);
        let producer = Producer::new(
            with_waiting_strategy.with_data_provider.data_provider.clone(),
            sequencer,
        );
        let r = (executor, producer);
        assert(call_ensures(E::with_runnables, (handed,), r.0));
        r
    }
}

} // verus!
