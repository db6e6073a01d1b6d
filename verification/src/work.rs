//! Worker pools: processors that share one work sequence, so that each
//! sequence is handled by exactly one worker of the pool.
//!
//! A worker claims the next sequence from the shared work sequence, waits at
//! its barrier until that sequence is published, handles it, and moves its
//! own sequence there.
use std::marker::PhantomData;
use std::sync::Arc;
use vstd::prelude::*;

use crate::handling::{advance, handle_batch, handle_batch_mut};
use crate::processor::{STATE_HALTED, STATE_IDLE, STATE_RUNNING};
use crate::sequence::{AtomicSequence, Sequence};
use crate::traits::{
    DataProvider, EventHandler, EventHandlerMut, EventProcessor, EventProcessorMut, Runnable,
    SequenceBarrier,
};

verus! {

/// What a worker does after claiming `claimed` and waiting at its barrier:
/// `None` (stop) when the barrier was alerted; otherwise go on, handling
/// `claimed` (`Some(Some(claimed))`) when the barrier's answer reaches it,
/// and nothing (`Some(None)`) when it does not.
pub fn work_step(claimed: Sequence, available: Option<Sequence>) -> (r: Option<Option<Sequence>>)
    ensures
        r == (match available {
            Some(a) => Some(if a >= claimed { Some(claimed) } else { None::<Sequence> }),
            None => None::<Option<Sequence>>,
        }),
{
    match available {
        Some(a) => {
            if a >= claimed {
                Some(Some(claimed))
            } else {
                Some(None)
            }
        },
        None => None,
    }
}

/// Every sequence a worker handed on was within what its barrier reported
/// published: each entry of `log` is the sequence handled and the barrier's
/// answer for it.
pub open spec fn handled_within_published(log: Seq<(Sequence, Sequence)>) -> bool {
    forall|k: int| 0 <= k < log.len() ==> (#[trigger] log[k]).0 <= log[k].1
}

/// Creates work processors (exactly-once handling) from handlers.
pub struct WorkProcessorFactory;

impl WorkProcessorFactory {
    /// A worker that claims from `work_sequence`; its own sequence starts at `-1`.
    pub fn create<'a, E, T>(handler: E, work_sequence: Arc<AtomicSequence>) -> (r:
        WorkEventProcessor<E, T>) where E: EventHandler<T> + Send + 'a, T: Send + 'a
        ensures
            r.work() == work_sequence,
            r.own_sequence().initial_value() == -1,
    {
        WorkEventProcessor {
            handler,
            cursor: Arc::new(AtomicSequence::default()),
            work_sequence,
            _marker: PhantomData,
        }
    }

    /// As `create`, for a handler with mutable state.
    pub fn create_mut<'a, E, T>(handler: E, work_sequence: Arc<AtomicSequence>) -> (r:
        WorkEventProcessorMut<E, T>) where E: EventHandlerMut<T> + Send + 'a, T: Send + 'a
        ensures
            r.work() == work_sequence,
            r.own_sequence().initial_value() == -1,
    {
        WorkEventProcessorMut {
            handler,
            cursor: Arc::new(AtomicSequence::default()),
            work_sequence,
            _marker: PhantomData,
        }
    }
}

/// A processor that claims its sequences from a shared work sequence.
pub struct WorkEventProcessor<E, T> {
    handler: E,
    cursor: Arc<AtomicSequence>,
    work_sequence: Arc<AtomicSequence>,
    _marker: PhantomData<T>,
}

/// A work processor whose handler mutates its own state.
pub struct WorkEventProcessorMut<E, T> {
    handler: E,
    cursor: Arc<AtomicSequence>,
    work_sequence: Arc<AtomicSequence>,
    _marker: PhantomData<T>,
}

impl<E, T> WorkEventProcessor<E, T> {
    /// The sequence shared by the workers of the pool.
    pub closed spec fn work(&self) -> Arc<AtomicSequence> {
        self.work_sequence
    }

    /// The sequence of the last event this worker handled.
    pub closed spec fn own_sequence(&self) -> Arc<AtomicSequence> {
        self.cursor
    }
}

impl<E, T> WorkEventProcessorMut<E, T> {
    /// The sequence shared by the workers of the pool.
    pub closed spec fn work(&self) -> Arc<AtomicSequence> {
        self.work_sequence
    }

    /// The sequence of the last event this worker handled.
    pub closed spec fn own_sequence(&self) -> Arc<AtomicSequence> {
        self.cursor
    }
}

struct WorkRunnable<E, T, D: DataProvider<T>, B: SequenceBarrier> {
    running: u8,
    processor: WorkEventProcessor<E, T>,
    data_provider: Arc<D>,
    barrier: B,
}

struct WorkRunnableMut<E, T, D: DataProvider<T>, B: SequenceBarrier> {
    running: u8,
    processor: WorkEventProcessorMut<E, T>,
    data_provider: Arc<D>,
    barrier: B,
}

impl<'a, E, T> EventProcessor<'a, T> for WorkEventProcessor<E, T> where
    E: EventHandler<T> + Send + 'a,
    T: Send + 'a,
 {
    type Runner = Box<dyn Runnable + 'a>;

    open spec fn sequence(&self) -> Arc<AtomicSequence> {
        self.own_sequence()
    }

    fn get_cursor(&self) -> (r: Arc<AtomicSequence>)
        ensures
            r == self.own_sequence(),
    {
        self.cursor.clone()
    }

    fn create<D: DataProvider<T> + 'a, B: SequenceBarrier + 'a>(
        self,
        data_provider: Arc<D>,
        barrier: B,
    ) -> Box<dyn Runnable + 'a> {
        Box::new(
            WorkRunnable { running: STATE_IDLE, processor: self, data_provider, barrier },
        )
    }

    fn get_sequence(&self) -> (r: Arc<AtomicSequence>)
        ensures
            r == self.own_sequence(),
    {
        self.cursor.clone()
    }
}

impl<'a, E, T> EventProcessorMut<'a, T> for WorkEventProcessorMut<E, T> where
    E: EventHandlerMut<T> + Send + 'a,
    T: Send + 'a,
 {
    type Runner = Box<dyn Runnable + 'a>;

    open spec fn sequence(&self) -> Arc<AtomicSequence> {
        self.own_sequence()
    }

    fn get_cursor(&self) -> (r: Arc<AtomicSequence>)
        ensures
            r == self.own_sequence(),
    {
        self.cursor.clone()
    }

    fn create<D: DataProvider<T> + 'a, B: SequenceBarrier + 'a>(
        self,
        data_provider: Arc<D>,
        barrier: B,
    ) -> Box<dyn Runnable + 'a> {
        Box::new(
            WorkRunnableMut {
                running: STATE_IDLE,
                processor: self,
                data_provider,
                barrier,
            },
        )
    }

    fn get_sequence(&self) -> (r: Arc<AtomicSequence>)
        ensures
            r == self.own_sequence(),
    {
        self.cursor.clone()
    }
}

impl<E, T, D, B> WorkRunnable<E, T, D, B> where
    E: EventHandler<T> + Send,
    D: DataProvider<T>,
    B: SequenceBarrier,
    T: Send,
 {
    /// The lifecycle state: `STATE_IDLE`, `STATE_HALTED` or `STATE_RUNNING`.
    pub closed spec fn state(&self) -> u8 {
        self.running
    }

    fn state_is_running(&self) -> (r: bool)
        ensures
            r == (self.state() == STATE_RUNNING),
    {
        self.running == STATE_RUNNING
    }

    /// While running: claims the next sequence from the work sequence,
    /// waits until it is published, handles it (as a batch of one) and moves
    /// this worker's sequence to it. Returns when stopped or alerted; the
    /// loop also ends after `u64::MAX` rounds. Returns a ghost log, kept
    /// beside the calls, of each sequence it hands to the handler with the
    /// barrier's answer for it.
    fn process_loop(&self) -> (handed: Ghost<Seq<(Sequence, Sequence)>>)
        ensures
            handled_within_published(handed@),
    {
        let handler = &self.processor.handler;
        let cursor = &self.processor.cursor;
        let work_sequence = &self.processor.work_sequence;
        let mut rounds_left: u64 = u64::MAX;
        let ghost mut log: Seq<(Sequence, Sequence)> = Seq::empty();
        loop
            invariant
                handled_within_published(log),
            decreases rounds_left,
        {
            if !self.state_is_running() {
                return Ghost(log);
            }
            let claimed = work_sequence.increment_and_get();
            let answer = self.barrier.wait_for(claimed);
            match work_step(claimed, answer) {
                Some(Some(ready)) => {
                    proof {
                        log = log.push((ready, answer->0));
                    }
                    let done = handle_batch(handler, &self.data_provider, ready, ready);
                    advance(cursor, done);
                    self.barrier.signal();
                },
                Some(None) => {},
                None => {
                    return Ghost(log);
                },
            }
            if rounds_left == 0 {
                return Ghost(log);
            }
            rounds_left -= 1;
        }
    }
}

impl<E, T, D, B> Runnable for WorkRunnable<E, T, D, B> where
    E: EventHandler<T> + Send,
    D: DataProvider<T>,
    B: SequenceBarrier,
    T: Send,
 {
    open spec fn running(&self) -> bool {
        self.state() == STATE_RUNNING
    }

    fn run(&mut self)
        ensures
            final(self).state() == STATE_IDLE,
    {
        self.running = STATE_RUNNING;
        self.processor.handler.on_start();
        self.process_loop();
        self.running = STATE_IDLE;
        self.processor.handler.on_shutdown();
    }

    fn stop(&mut self)
        ensures
            final(self).state() == STATE_HALTED,
    {
        self.running = STATE_HALTED;
    }

    fn is_running(&self) -> (r: bool)
        ensures
            r == (self.state() == STATE_RUNNING),
    {
        self.state_is_running()
    }
}

impl<E, T, D, B> WorkRunnableMut<E, T, D, B> where
    E: EventHandlerMut<T> + Send,
    D: DataProvider<T>,
    B: SequenceBarrier,
    T: Send,
 {
    /// The lifecycle state: `STATE_IDLE`, `STATE_HALTED` or `STATE_RUNNING`.
    pub closed spec fn state(&self) -> u8 {
        self.running
    }

    fn state_is_running(&self) -> (r: bool)
        ensures
            r == (self.state() == STATE_RUNNING),
    {
        self.running == STATE_RUNNING
    }

    /// As for `WorkRunnable`, with a handler that mutates its state.
    fn process_loop(&mut self) -> (handed: Ghost<Seq<(Sequence, Sequence)>>)
        ensures
            final(self).state() == old(self).state(),
            handled_within_published(handed@),
    {
        let mut rounds_left: u64 = u64::MAX;
        let ghost mut log: Seq<(Sequence, Sequence)> = Seq::empty();
        loop
            invariant
                self.state() == old(self).state(),
                handled_within_published(log),
            decreases rounds_left,
        {
            if !self.state_is_running() {
                return Ghost(log);
            }
            let claimed = self.processor.work_sequence.increment_and_get();
            let answer = self.barrier.wait_for(claimed);
            match work_step(claimed, answer) {
                Some(Some(ready)) => {
                    proof {
                        log = log.push((ready, answer->0));
                    }
                    let done = handle_batch_mut(
                        &mut self.processor.handler,
                        &self.data_provider,
                        ready,
                        ready,
                    );
                    advance(&self.processor.cursor, done);
                    self.barrier.signal();
                },
                Some(None) => {},
                None => {
                    return Ghost(log);
                },
            }
            if rounds_left == 0 {
                return Ghost(log);
            }
            rounds_left -= 1;
        }
    }
}

impl<E, T, D, B> Runnable for WorkRunnableMut<E, T, D, B> where
    E: EventHandlerMut<T> + Send,
    D: DataProvider<T>,
    B: SequenceBarrier,
    T: Send,
 {
    open spec fn running(&self) -> bool {
        self.state() == STATE_RUNNING
    }

    fn run(&mut self)
        ensures
            final(self).state() == STATE_IDLE,
    {
        self.running = STATE_RUNNING;
        self.processor.handler.on_start();
        self.process_loop();
        self.running = STATE_IDLE;
        self.processor.handler.on_shutdown();
    }

    fn stop(&mut self)
        ensures
            final(self).state() == STATE_HALTED,
    {
        self.running = STATE_HALTED;
    }

    fn is_running(&self) -> (r: bool)
        ensures
            r == (self.state() == STATE_RUNNING),
    {
        self.state_is_running()
    }
}

} // verus!
