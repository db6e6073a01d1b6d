use disruptor_rs::Runnable;
use disruptor_rs::processor::next_batch;
use disruptor_rs::work::work_step;
use disruptor_rs::processor::EventProcessorFactory;
use disruptor_rs::sequence::{AtomicSequence, Sequence};
use disruptor_rs::work::WorkProcessorFactory;
use disruptor_rs::{
    DataProvider, EventHandler, EventHandlerMut, EventProcessor, EventProcessorMut,
    SequenceBarrier,
};
use std::sync::atomic::{AtomicUsize, Ordering};
use std::sync::{Arc, Mutex};

/// Read-only storage: slot `i` holds `10 * i`.
struct Tens {
    data: Vec<i64>,
}

impl DataProvider<i64> for Tens {
    fn get_capacity(&self) -> usize {
        self.data.len()
    }
    fn get(&self, sequence: Sequence) -> &i64 {
        &self.data[sequence as usize % self.data.len()]
    }
    fn get_mut(&self, _sequence: Sequence) -> &mut i64 {
        unreachable!()
    }
}

fn tens(n: usize) -> Arc<Tens> {
    Arc::new(Tens { data: (0..n as i64).map(|i| 10 * i).collect() })
}

/// A barrier that answers from a script, then reports an alert.
struct Scripted {
    answers: Vec<Sequence>,
    calls: AtomicUsize,
    asked: Mutex<Vec<Sequence>>,
}

impl Scripted {
    fn new(answers: Vec<Sequence>) -> Self {
        Scripted { answers, calls: AtomicUsize::new(0), asked: Mutex::new(vec![]) }
    }
}

struct ScriptedBarrier(Arc<Scripted>);

impl SequenceBarrier for ScriptedBarrier {
    fn wait_for(&self, sequence: Sequence) -> Option<Sequence> {
        self.0.asked.lock().unwrap().push(sequence);
        let call = self.0.calls.fetch_add(1, Ordering::SeqCst);
        self.0.answers.get(call).copied()
    }
    fn signal(&self) {}
}

#[derive(Clone, Default)]
struct Recorder {
    seen: Arc<Mutex<Vec<(Sequence, i64, bool)>>>,
    started: Arc<AtomicUsize>,
    stopped: Arc<AtomicUsize>,
}

impl EventHandler<i64> for Recorder {
    fn on_event(&self, event: &i64, sequence: Sequence, end_of_batch: bool) {
        self.seen.lock().unwrap().push((sequence, *event, end_of_batch));
    }
    fn on_start(&self) {
        self.started.fetch_add(1, Ordering::SeqCst);
    }
    fn on_shutdown(&self) {
        self.stopped.fetch_add(1, Ordering::SeqCst);
    }
}

struct Counter {
    count: usize,
    seen: Arc<Mutex<Vec<(Sequence, bool)>>>,
}

impl EventHandlerMut<i64> for Counter {
    fn on_event(&mut self, _event: &i64, sequence: Sequence, end_of_batch: bool) {
        self.count += 1;
        self.seen.lock().unwrap().push((sequence, end_of_batch));
    }
    fn on_start(&mut self) {
        self.count = 0;
    }
    fn on_shutdown(&mut self) {
        self.seen.lock().unwrap().push((-1, self.count == 5));
    }
}

#[test]
fn processor_handles_batches_in_order_and_marks_batch_ends() {
    let recorder = Recorder::default();
    let processor = EventProcessorFactory::create(recorder.clone());
    let cursor = processor.get_cursor();
    assert_eq!(cursor.get(), -1);
    let barrier = Arc::new(Scripted::new(vec![2, 4]));
    let mut runnable = processor.create(tens(8), ScriptedBarrier(barrier.clone()));
    assert!(!runnable.is_running());
    runnable.run();
    assert!(!runnable.is_running());
    assert_eq!(
        *recorder.seen.lock().unwrap(),
        vec![
            (0, 0, false),
            (1, 10, false),
            (2, 20, true),
            (3, 30, false),
            (4, 40, true)
        ]
    );
    assert_eq!(*barrier.asked.lock().unwrap(), vec![0, 3, 5]);
    assert_eq!(cursor.get(), 4);
    assert_eq!(recorder.started.load(Ordering::SeqCst), 1);
    assert_eq!(recorder.stopped.load(Ordering::SeqCst), 1);
}

#[test]
fn processor_sequence_and_cursor_are_the_same() {
    let processor = EventProcessorFactory::create(Recorder::default());
    let a = processor.get_cursor();
    let b = processor.get_sequence();
    a.set(12);
    assert_eq!(b.get(), 12);
}

#[test]
fn mutable_processor_keeps_handler_state() {
    let seen = Arc::new(Mutex::new(vec![]));
    let processor = EventProcessorFactory::create_mut(Counter { count: 7, seen: seen.clone() });
    let cursor = processor.get_cursor();
    let mut runnable = processor.create(tens(8), ScriptedBarrier(Arc::new(Scripted::new(vec![0, 4]))));
    runnable.run();
    assert_eq!(
        *seen.lock().unwrap(),
        vec![(0, true), (1, false), (2, false), (3, false), (4, true), (-1, true)]
    );
    assert_eq!(cursor.get(), 4);
}

#[test]
fn stopped_processor_is_not_running() {
    let processor = EventProcessorFactory::create(Recorder::default());
    let mut runnable = processor.create(tens(4), ScriptedBarrier(Arc::new(Scripted::new(vec![]))));
    runnable.stop();
    assert!(!runnable.is_running());
}

#[test]
fn workers_claim_from_the_shared_work_sequence() {
    let work = Arc::new(AtomicSequence::new(-1));
    let recorder = Recorder::default();
    let worker = WorkProcessorFactory::create(recorder.clone(), work.clone());
    let cursor = worker.get_cursor();
    let barrier = Arc::new(Scripted::new(vec![5, 5]));
    let mut runnable = worker.create(tens(8), ScriptedBarrier(barrier.clone()));
    runnable.run();
    assert_eq!(*recorder.seen.lock().unwrap(), vec![(0, 0, true), (1, 10, true)]);
    assert_eq!(*barrier.asked.lock().unwrap(), vec![0, 1, 2]);
    assert_eq!(cursor.get(), 1);
    assert_eq!(work.get(), 2);
}

#[test]
fn mutable_workers_claim_from_the_shared_work_sequence() {
    let work = Arc::new(AtomicSequence::new(2));
    let seen = Arc::new(Mutex::new(vec![]));
    let worker = WorkProcessorFactory::create_mut(Counter { count: 0, seen: seen.clone() }, work.clone());
    let cursor = worker.get_sequence();
    let mut runnable = worker.create(tens(8), ScriptedBarrier(Arc::new(Scripted::new(vec![3]))));
    runnable.run();
    assert_eq!(*seen.lock().unwrap(), vec![(3, true), (-1, false)]);
    assert_eq!(cursor.get(), 3);
    assert_eq!(work.get(), 4);
}

#[test]
fn next_batch_runs_from_the_awaited_sequence_to_the_available_one() {
    assert_eq!(next_batch(4, Some(9)), Some((4, 9)));
    assert_eq!(next_batch(4, Some(4)), Some((4, 4)));
    assert_eq!(next_batch(4, None), None);
}

#[test]
fn work_step_handles_the_claimed_sequence_once_it_is_available() {
    assert_eq!(work_step(7, Some(9)), Some(Some(7)));
    assert_eq!(work_step(7, Some(7)), Some(Some(7)));
    assert_eq!(work_step(7, Some(6)), Some(None));
    assert_eq!(work_step(7, None), None);
}

#[test]
fn created_processor_sequence_starts_before_the_first_slot() {
    let processor = EventProcessorFactory::create::<_, i64>(Recorder::default());
    assert_eq!(processor.get_sequence().get(), -1);
    assert!(Arc::ptr_eq(&processor.get_cursor(), &processor.get_sequence()));
}

#[test]
fn created_runnable_is_idle_until_run() {
    let processor = EventProcessorFactory::create(Recorder::default());
    let runnable = processor.create(tens(4), ScriptedBarrier(Arc::new(Scripted::new(vec![]))));
    assert!(!runnable.is_running());
}
