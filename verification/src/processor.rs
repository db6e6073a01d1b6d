//! Event processors: the consumers. Each one waits at its barrier for the
//! next sequences, hands every event to its handler in order, and then
//! advances its own sequence, which later stages and the producers follow.
use std::marker::PhantomData;
use std::sync::Arc;
use vstd::prelude::*;

use crate::handling::{advance, handle_batch, handle_batch_mut};
use crate::sequence::{AtomicSequence, Sequence};
use crate::traits::{
    DataProvider, EventHandler, EventHandlerMut, EventProcessor, EventProcessorMut, Runnable,
    SequenceBarrier,
};

verus! {

/// The processor has not been started, or has finished.
pub const STATE_IDLE: u8 = 0;

/// The processor was asked to stop.
pub const STATE_HALTED: u8 = 1;

/// The processor is running.
pub const STATE_RUNNING: u8 = 2;

/// The next batch a processor handles, given the sequence `next` it waited
/// for and the barrier's answer: `next..=available` when the barrier
/// answered `Some(available)`, and `None` (stop) when it was alerted.
pub fn next_batch(next: Sequence, available: Option<Sequence>) -> (r: Option<(Sequence, Sequence)>)
    ensures
        r == (match available {
            Some(a) => Some((next, a)),
            None => None::<(Sequence, Sequence)>,
        }),
{
    match available {
        Some(a) => Some((next, a)),
        None => None,
    }
}

/// The batches `log` hands on, in order, follow one another: each is a
/// non-empty range `low..=high`, and each starts one past the end of the one
/// before it, so no sequence is skipped or handed on twice.
pub open spec fn contiguous_batches(log: Seq<(Sequence, Sequence)>) -> bool {
    &&& forall|k: int| 0 <= k < log.len() ==> (#[trigger] log[k]).0 <= log[k].1
    &&& forall|k: int| 0 < k < log.len() ==> (#[trigger] log[k]).0 == log[k - 1].1 + 1
}

/// Creates event processors from handlers.
pub struct EventProcessorFactory;

impl EventProcessorFactory {
    /// A processor that hands events to `handler`; its sequence starts at `-1`.
    pub fn create<'a, E, T>(handler: E) -> (r: impl EventProcessor<'a, T>)
        where E: EventHandler<T> + Send + 'a, T: Send + 'a,
        ensures
            r.sequence().initial_value() == -1,
    {
        Processor { handler, cursor: Arc::new(AtomicSequence::default()), _marker: PhantomData }
    }

    /// A processor that hands events to a handler with mutable state.
    /// Its sequence starts at `-1`.
    pub fn create_mut<'a, E, T>(handler: E) -> (r: impl EventProcessorMut<'a, T>)
        where E: EventHandlerMut<T> + Send + 'a, T: Send + 'a,
        ensures
            r.sequence().initial_value() == -1,
    {
        ProcessorMut { handler, cursor: Arc::new(AtomicSequence::default()), _marker: PhantomData }
    }
}

struct Processor<E, T> {
    handler: E,
    cursor: Arc<AtomicSequence>,
    _marker: PhantomData<T>,
}

struct ProcessorMut<E, T> {
    handler: E,
    cursor: Arc<AtomicSequence>,
    _marker: PhantomData<T>,
}

impl<E, T> Processor<E, T> {
    /// The sequence of the last event this processor handled.
    pub closed spec fn own_sequence(&self) -> Arc<AtomicSequence> {
        self.cursor
    }
}

impl<E, T> ProcessorMut<E, T> {
    /// The sequence of the last event this processor handled.
    pub closed spec fn own_sequence(&self) -> Arc<AtomicSequence> {
        self.cursor
    }
}

struct RunnableProcessor<E, T, D: DataProvider<T>, B: SequenceBarrier> {
    running: u8,
    processor: Processor<E, T>,
    data_provider: Arc<D>,
    barrier: B,
}

struct RunnableProcessorMut<E, T, D: DataProvider<T>, B: SequenceBarrier> {
    running: u8,
    processor: ProcessorMut<E, T>,
    data_provider: Arc<D>,
    barrier: B,
}

impl<E, T, D, B> RunnableProcessor<E, T, D, B> where
    E: EventHandler<T> + Send,
    D: DataProvider<T>,
    B: SequenceBarrier,
    T: Send,
 {
    /// The lifecycle state: `STATE_IDLE`, `STATE_HALTED` or `STATE_RUNNING`.
    pub closed spec fn state(&self) -> u8 {
        self.running
    }

    fn state_is_running(&self) -> (r: bool)
        ensures
            r == (self.state() == STATE_RUNNING),
    {
        self.running == STATE_RUNNING
    }

    /// While running: waits for the sequence after this processor's own,
    /// handles every event up to the last available one, and moves the
    /// processor's sequence there. Returns when stopped, when the barrier is
    /// alerted, or when the last sequence (`i64::MAX`) has been handled.
    /// The processor's sequence moves only through `advance`, which needs the
    /// `Handled` batch that `handle_batch` returns once the handler has
    /// returned from every event of it. Returns a ghost log of each batch:
    /// its first sequence and the value the sequence was then moved to.
    fn process_events(&self) -> (handed: Ghost<Seq<(Sequence, Sequence)>>)
        ensures
            contiguous_batches(handed@),
    {
        let cursor = &self.processor.cursor;
        let mut next_sequence = cursor.get().wrapping_add(1);
        let ghost mut log: Seq<(Sequence, Sequence)> = Seq::empty();
        loop
            invariant
                contiguous_batches(log),
                log.len() > 0 ==> next_sequence == log.last().1 + 1,
            decreases i64::MAX - next_sequence,
        {
            if !self.state_is_running() {
                return Ghost(log);
            }
            match next_batch(next_sequence, self.barrier.wait_for(next_sequence)) {
                Some((low, available_sequence)) => {
                    let done = handle_batch(
                        &self.processor.handler,
                        &self.data_provider,
                        low,
                        available_sequence,
                    );
                    let stored = advance(cursor, done);
                    proof {
                        log = log.push((low, stored));
                    }
                    self.barrier.signal();
                    if available_sequence == i64::MAX {
                        return Ghost(log);
                    }
                    next_sequence = available_sequence + 1;
                },
                None => {
                    return Ghost(log);
                },
            }
        }
    }
}

impl<E, T, D, B> RunnableProcessorMut<E, T, D, B> where
    E: EventHandlerMut<T> + Send,
    D: DataProvider<T>,
    B: SequenceBarrier,
    T: Send,
 {
    /// The lifecycle state: `STATE_IDLE`, `STATE_HALTED` or `STATE_RUNNING`.
    pub closed spec fn state(&self) -> u8 {
        self.running
    }

    fn state_is_running(&self) -> (r: bool)
        ensures
            r == (self.state() == STATE_RUNNING),
    {
        self.running == STATE_RUNNING
    }

    /// As for `RunnableProcessor`, with a handler that mutates its state.
    fn process_events(&mut self) -> (handed: Ghost<Seq<(Sequence, Sequence)>>)
        ensures
            final(self).state() == old(self).state(),
            contiguous_batches(handed@),
    {
        let mut next_sequence = self.processor.cursor.get().wrapping_add(1);
        let ghost mut log: Seq<(Sequence, Sequence)> = Seq::empty();
        loop
            invariant
                self.state() == old(self).state(),
                contiguous_batches(log),
                log.len() > 0 ==> next_sequence == log.last().1 + 1,
            decreases i64::MAX - next_sequence,
        {
            if !self.state_is_running() {
                return Ghost(log);
            }
            match next_batch(next_sequence, self.barrier.wait_for(next_sequence)) {
                Some((low, available_sequence)) => {
                    let done = handle_batch_mut(
                        &mut self.processor.handler,
                        &self.data_provider,
                        low,
                        available_sequence,
                    );
                    let stored = advance(&self.processor.cursor, done);
                    proof {
                        log = log.push((low, stored));
                    }
                    self.barrier.signal();
                    if available_sequence == i64::MAX {
                        return Ghost(log);
                    }
                    next_sequence = available_sequence + 1;
                },
                None => {
                    return Ghost(log);
                },
            }
        }
    }
}

impl<'a, E, T> EventProcessor<'a, T> for Processor<E, T> where
    E: EventHandler<T> + Send + 'a,
    T: Send + 'a,
 {
    type Runner = Box<dyn Runnable + 'a>;

    open spec fn sequence(&self) -> Arc<AtomicSequence> {
        self.own_sequence()
    }

    fn get_cursor(&self) -> (r: Arc<AtomicSequence>)
        ensures
            r == self.own_sequence(),
    {
        self.cursor.clone()
    }

    fn create<D: DataProvider<T> + 'a, S: SequenceBarrier + 'a>(
        self,
        data_provider: Arc<D>,
        barrier: S,
    ) -> Box<dyn Runnable + 'a> {
        Box::new(
            RunnableProcessor {
                running: STATE_IDLE,
                processor: self,
                data_provider,
                barrier,
            },
        )
    }

    fn get_sequence(&self) -> (r: Arc<AtomicSequence>)
        ensures
            r == self.own_sequence(),
    {
        self.cursor.clone()
    }
}

impl<'a, E, T> EventProcessorMut<'a, T> for ProcessorMut<E, T> where
    E: EventHandlerMut<T> + Send + 'a,
    T: Send + 'a,
 {
    type Runner = Box<dyn Runnable + 'a>;

    open spec fn sequence(&self) -> Arc<AtomicSequence> {
        self.own_sequence()
    }

    fn get_cursor(&self) -> (r: Arc<AtomicSequence>)
        ensures
            r == self.own_sequence(),
    {
        self.cursor.clone()
    }

    fn create<D: DataProvider<T> + 'a, S: SequenceBarrier + 'a>(
        self,
        data_provider: Arc<D>,
        barrier: S,
    ) -> Box<dyn Runnable + 'a> {
        Box::new(
            RunnableProcessorMut {
                running: STATE_IDLE,
                processor: self,
                data_provider,
                barrier,
            },
        )
    }

    fn get_sequence(&self) -> (r: Arc<AtomicSequence>)
        ensures
            r == self.own_sequence(),
    {
        self.cursor.clone()
    }
}

impl<E, T, D, B> Runnable for RunnableProcessor<E, T, D, B> where
    E: EventHandler<T> + Send,
    D: DataProvider<T>,
    B: SequenceBarrier,
    T: Send,
 {
    open spec fn running(&self) -> bool {
        self.state() == STATE_RUNNING
    }

    /// Marks the processor running, starts the handler, processes events
    /// until the loop ends, marks it idle and shuts the handler down.
    fn run(&mut self)
        ensures
            final(self).state() == STATE_IDLE,
    {
        self.running = STATE_RUNNING;
        self.processor.handler.on_start();
        self.process_events();
        self.running = STATE_IDLE;
        self.processor.handler.on_shutdown();
    }

    fn stop(&mut self)
        ensures
            final(self).state() == STATE_HALTED,
    {
        self.running = STATE_HALTED;
    }

    fn is_running(&self) -> (r: bool)
        ensures
            r == (self.state() == STATE_RUNNING),
    {
        self.state_is_running()
    }
}

impl<E, T, D, B> Runnable for RunnableProcessorMut<E, T, D, B> where
    E: EventHandlerMut<T> + Send,
    D: DataProvider<T>,
    B: SequenceBarrier,
    T: Send,
 {
    open spec fn running(&self) -> bool {
        self.state() == STATE_RUNNING
    }

    fn run(&mut self)
        ensures
            final(self).state() == STATE_IDLE,
    {
        self.running = STATE_RUNNING;
        self.processor.handler.on_start();
        self.process_events();
        self.running = STATE_IDLE;
        self.processor.handler.on_shutdown();
    }

    fn stop(&mut self)
        ensures
            final(self).state() == STATE_HALTED,
    {
        self.running = STATE_HALTED;
    }

    fn is_running(&self) -> (r: bool)
        ensures
            r == (self.state() == STATE_RUNNING),
    {
        self.state_is_running()
    }
}

} // verus!
