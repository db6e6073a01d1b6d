use disruptor_rs::producer::Producer;
use disruptor_rs::sequence::{AtomicSequence, Sequence};
use disruptor_rs::sequencer::{MultiProducerSequencer, SingleProducerSequencer};
use disruptor_rs::waiting::BusySpinWaitStrategy;
use disruptor_rs::{DataProvider, EventProducer, Sequencer};
use std::sync::atomic::{AtomicI64, Ordering};
use std::sync::Arc;

/// Storage whose slots are shared atomics; `get_mut` hands out a fresh
/// handle to the slot's atomic.
struct Shared {
    data: Vec<Arc<AtomicI64>>,
}

impl Shared {
    fn new(n: usize) -> Arc<Self> {
        Arc::new(Shared { data: (0..n).map(|_| Arc::new(AtomicI64::new(0))).collect() })
    }
    fn value(&self, sequence: Sequence) -> i64 {
        self.data[sequence as usize % self.data.len()].load(Ordering::SeqCst)
    }
}

impl DataProvider<Arc<AtomicI64>> for Shared {
    fn get_capacity(&self) -> usize {
        self.data.len()
    }
    fn get(&self, sequence: Sequence) -> &Arc<AtomicI64> {
        &self.data[sequence as usize % self.data.len()]
    }
    fn get_mut(&self, sequence: Sequence) -> &mut Arc<AtomicI64> {
        Box::leak(Box::new(self.data[sequence as usize % self.data.len()].clone()))
    }
}

#[test]
fn write_empty_iterator_does_nothing() {
    let rb = Shared::new(16);
    let sequencer = SingleProducerSequencer::new(16, BusySpinWaitStrategy);
    let cursor = sequencer.get_cursor();
    let producer = Producer::new(rb, sequencer);

    producer.write(Vec::<i64>::new(), |_, _, _| unreachable!());
    assert_eq!(cursor.get(), -1);
}

#[test]
fn moving_write_empty_iterator_does_nothing() {
    let rb = Shared::new(16);
    let sequencer = SingleProducerSequencer::new(16, BusySpinWaitStrategy);
    let cursor = sequencer.get_cursor();
    let producer = Producer::new(rb, sequencer);

    producer.moving_write(Vec::<i64>::new(), |_, _, _| unreachable!());
    assert_eq!(cursor.get(), -1);
}

#[test]
fn write_fills_consecutive_slots_and_publishes() {
    let rb = Shared::new(16);
    let sequencer = SingleProducerSequencer::new(16, BusySpinWaitStrategy);
    let cursor = sequencer.get_cursor();
    let producer = Producer::new(rb.clone(), sequencer);

    producer.write(vec![5, 6, 7], |slot, sequence, item| {
        slot.store(100 * sequence + *item, Ordering::SeqCst);
    });
    assert_eq!(cursor.get(), 2);
    assert_eq!(rb.value(0), 5);
    assert_eq!(rb.value(1), 106);
    assert_eq!(rb.value(2), 207);

    producer.moving_write(vec![8, 9], |slot, sequence, item| {
        slot.store(100 * sequence + item, Ordering::SeqCst);
    });
    assert_eq!(cursor.get(), 4);
    assert_eq!(rb.value(3), 308);
    assert_eq!(rb.value(4), 409);
}

#[test]
fn multi_producer_write_marks_the_written_range() {
    let rb = Shared::new(16);
    let sequencer = MultiProducerSequencer::new(16, BusySpinWaitStrategy);
    let available = sequencer.available_buffer().clone();
    let producer = Producer::new(rb.clone(), sequencer);
    producer.write(vec![1, 2, 3, 4], |slot, _, item| {
        slot.store(*item, Ordering::SeqCst);
    });
    assert_eq!(available.highest_published_sequence(0, 15), 3);
    assert_eq!(rb.value(3), 4);
}

#[test]
fn drain_with_caught_up_consumer_returns() {
    let rb = Shared::new(8);
    let consumer = Arc::new(AtomicSequence::new(-1));
    let mut sequencer = SingleProducerSequencer::new(8, BusySpinWaitStrategy);
    sequencer.add_gating_sequence(&consumer);
    let producer = Producer::new(rb, sequencer);
    producer.write(vec![1, 2], |slot, _, item| {
        slot.store(*item, Ordering::SeqCst);
    });
    consumer.set(1);
    producer.drain();
}
