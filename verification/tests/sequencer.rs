use disruptor_rs::sequencer::drain_from;
use disruptor_rs::bounded_by;
use disruptor_rs::sequence::AtomicSequence;
use disruptor_rs::sequencer::{has_room, MultiProducerSequencer, SingleProducerSequencer};
use disruptor_rs::waiting::BusySpinWaitStrategy;
use disruptor_rs::{SequenceBarrier, Sequencer};
use std::sync::Arc;

const BUFFER_SIZE: usize = 16;
const BUFFER_SIZE_I64: i64 = BUFFER_SIZE as i64;

#[test]
fn test_get_cursor() {
    let sequencer = SingleProducerSequencer::new(BUFFER_SIZE, BusySpinWaitStrategy);
    assert_eq!(sequencer.get_cursor().get(), -1);
}

#[test]
fn test_next() {
    let gating_sequence = Arc::new(AtomicSequence::default());
    let mut sequencer = SingleProducerSequencer::new(BUFFER_SIZE, BusySpinWaitStrategy);
    sequencer.add_gating_sequence(&gating_sequence);
    assert_eq!(sequencer.next(1), (0, 0));
    sequencer.publish(0, 0);
    gating_sequence.set(0);
    assert_eq!(sequencer.next(BUFFER_SIZE_I64), (1, BUFFER_SIZE_I64));
}

#[test]
fn test_publish() {
    let sequencer = SingleProducerSequencer::new(BUFFER_SIZE, BusySpinWaitStrategy);
    sequencer.publish(0, 10);
    assert_eq!(sequencer.get_cursor().get(), 10);
}

#[test]
fn test_add_gating_sequences() {
    let mut sequencer = SingleProducerSequencer::new(BUFFER_SIZE, BusySpinWaitStrategy);
    let gating_sequence = Arc::new(AtomicSequence::default());
    sequencer.add_gating_sequence(&gating_sequence);
    assert_eq!(sequencer.gating_sequences().len(), 1);
    assert!(sequencer.gating_sequences()[0] == gating_sequence);
}

#[test]
fn test_remove_gating_sequence() {
    let mut sequencer = SingleProducerSequencer::new(BUFFER_SIZE, BusySpinWaitStrategy);
    let gating_sequence = Arc::new(AtomicSequence::default());
    sequencer.add_gating_sequence(&gating_sequence);
    assert_eq!(sequencer.gating_sequences().len(), 1);
    assert!(sequencer.remove_gating_sequence(&gating_sequence));
    assert_eq!(sequencer.gating_sequences().len(), 0);
    assert!(!sequencer.remove_gating_sequence(&gating_sequence));
}

#[test]
fn test_next_without_gating_sequences_large_request() {
    let sequencer = SingleProducerSequencer::new(BUFFER_SIZE, BusySpinWaitStrategy);
    // No gating sequences added
    let n = BUFFER_SIZE_I64 * 2;
    let (start, end) = sequencer.next(n);
    assert_eq!(start, 0);
    assert_eq!(end, n - 1);
}

#[test]
fn test_multi_producer_sequencer_basic() {
    let sequencer = MultiProducerSequencer::new(BUFFER_SIZE, BusySpinWaitStrategy);
    let (start, end) = sequencer.next(1);
    assert_eq!(start, 0);
    assert_eq!(end, 0);
    sequencer.publish(start, end);
    assert!(sequencer.available_buffer().is_available(0));
}

#[test]
fn test_multi_producer_sequencer_with_gating_sequences() {
    let mut sequencer = MultiProducerSequencer::new(BUFFER_SIZE, BusySpinWaitStrategy);

    let consumer1 = Arc::new(AtomicSequence::new(-1));
    let consumer2 = Arc::new(AtomicSequence::new(-1));
    sequencer.add_gating_sequence(&consumer1);
    sequencer.add_gating_sequence(&consumer2);

    let (start, end) = sequencer.next(1);
    sequencer.publish(start, end);

    for i in 1..BUFFER_SIZE {
        let (s, e) = sequencer.next(1);
        sequencer.publish(s, e);
        assert!(sequencer.available_buffer().is_available(i as i64));
    }

    consumer1.set(15);
    consumer2.set(15);

    let (start, end) = sequencer.next(1);
    assert_eq!((start, end), (16, 16));
}

#[test]
fn test_multi_producer_sequencer_with_consumer_progress() {
    let mut sequencer = MultiProducerSequencer::new(BUFFER_SIZE, BusySpinWaitStrategy);

    // Add gating sequence (simulating a consumer)
    let consumer = Arc::new(AtomicSequence::new(-1));
    sequencer.add_gating_sequence(&consumer);

    // Fill the buffer completely
    for i in 0..BUFFER_SIZE {
        let (start, end) = sequencer.next(1);
        sequencer.publish(start, end);

        // Simulate consumer processing (advance every few events)
        if i % 4 == 3 {
            consumer.set(i as i64);
        }
    }

    // Try to claim one more - this should work now that consumer has progressed
    let (start, end) = sequencer.next(1);
    assert_eq!((start, end), (16, 16));
}

#[test]
fn test_multi_producer_out_of_order_publish_deadlock() {
    let mut sequencer = MultiProducerSequencer::new(BUFFER_SIZE, BusySpinWaitStrategy);

    let consumer = Arc::new(AtomicSequence::new(-1));
    sequencer.add_gating_sequence(&consumer);

    // Claim 3 sequences (simulating 3 producers)
    let (seq1_start, seq1_end) = sequencer.next(1);
    let (seq2_start, seq2_end) = sequencer.next(1);
    let (seq3_start, seq3_end) = sequencer.next(1);

    // Publish out of order: 3rd, 2nd, then 1st
    sequencer.publish(seq3_start, seq3_end);
    sequencer.publish(seq2_start, seq2_end);
    sequencer.publish(seq1_start, seq1_end);

    assert_eq!(
        sequencer.available_buffer().highest_published_sequence(0, 2),
        2
    );
}

#[test]
fn test_multi_producer_optimized_publish_single_sequence() {
    let sequencer = MultiProducerSequencer::new(BUFFER_SIZE, BusySpinWaitStrategy);

    let (start, end) = sequencer.next(1);
    assert_eq!(start, 0);
    assert_eq!(end, 0);

    sequencer.publish(start, end);
    assert!(sequencer.available_buffer().is_available(0));
}

#[test]
fn test_multi_producer_optimized_publish_batch() {
    let sequencer = MultiProducerSequencer::new(BUFFER_SIZE, BusySpinWaitStrategy);

    let (start, end) = sequencer.next(5);
    assert_eq!(start, 0);
    assert_eq!(end, 4);

    sequencer.publish(start, end);
    for i in start..=end {
        assert!(sequencer.available_buffer().is_available(i));
    }
}

#[test]
fn test_multi_producer_out_of_order_publish_with_optimizations() {
    let sequencer = MultiProducerSequencer::new(BUFFER_SIZE, BusySpinWaitStrategy);

    let (seq1_start, seq1_end) = sequencer.next(1); // 0-0
    let (seq2_start, seq2_end) = sequencer.next(1); // 1-1
    let (seq3_start, seq3_end) = sequencer.next(1); // 2-2

    sequencer.publish(seq3_start, seq3_end);
    assert_eq!(
        sequencer.available_buffer().highest_published_sequence(0, 2),
        -1
    );

    sequencer.publish(seq1_start, seq1_end);
    assert_eq!(
        sequencer.available_buffer().highest_published_sequence(0, 2),
        0
    );

    sequencer.publish(seq2_start, seq2_end);
    assert_eq!(
        sequencer.available_buffer().highest_published_sequence(0, 2),
        2
    );
}

#[test]
fn test_multi_producer_publish_with_scan_limiting() {
    let sequencer = MultiProducerSequencer::new(128, BusySpinWaitStrategy);

    let (start, end) = sequencer.next(100);
    sequencer.publish(start, end);

    assert_eq!(
        sequencer
            .available_buffer()
            .highest_published_sequence(0, end),
        end
    );
}

#[test]
fn test_multi_producer_batch_operations_integration() {
    let sequencer = MultiProducerSequencer::new(32, BusySpinWaitStrategy);

    let (start1, end1) = sequencer.next(3); // 0-2
    let (start2, end2) = sequencer.next(2); // 3-4
    let (start3, end3) = sequencer.next(1); // 5-5

    sequencer.publish(start2, end2);
    sequencer.publish(start3, end3);

    assert_eq!(
        sequencer.available_buffer().highest_published_sequence(0, 5),
        -1
    );

    sequencer.publish(start1, end1);

    assert_eq!(
        sequencer.available_buffer().highest_published_sequence(0, 5),
        5
    );
}

#[test]
fn test_multi_producer_available_buffer_state_consistency() {
    let sequencer = MultiProducerSequencer::new(16, BusySpinWaitStrategy);

    let (start1, end1) = sequencer.next(3);
    let (start2, end2) = sequencer.next(2);

    sequencer.publish(start1, end1);
    sequencer.publish(start2, end2);

    for i in start1..=end2 {
        assert!(sequencer.available_buffer().is_available(i));
    }
}

#[test]
fn test_multi_producer_large_batch_with_wraparound() {
    let buffer_size = 8;
    let sequencer = MultiProducerSequencer::new(buffer_size, BusySpinWaitStrategy);

    let (start1, end1) = sequencer.next(6);
    sequencer.publish(start1, end1);
    assert_eq!(
        sequencer
            .available_buffer()
            .highest_published_sequence(0, end1),
        end1
    );

    let (start2, end2) = sequencer.next(4);
    sequencer.publish(start2, end2);

    for i in start2..=end2 {
        assert!(sequencer.available_buffer().is_available(i));
    }
    assert_eq!(
        sequencer
            .available_buffer()
            .highest_published_sequence(start2, end2),
        end2
    );
}

#[test]
fn single_producer_claims_are_contiguous() {
    let sequencer = SingleProducerSequencer::new(BUFFER_SIZE, BusySpinWaitStrategy);
    assert_eq!(sequencer.next(3), (0, 2));
    assert_eq!(sequencer.next(1), (3, 3));
    assert_eq!(sequencer.next(4), (4, 7));
}

#[test]
fn multi_producer_claims_are_contiguous() {
    let sequencer = MultiProducerSequencer::new(BUFFER_SIZE, BusySpinWaitStrategy);
    assert_eq!(sequencer.next(3), (0, 2));
    assert_eq!(sequencer.next(1), (3, 3));
    assert_eq!(sequencer.next(4), (4, 7));
}

#[test]
fn removing_an_unknown_sequence_changes_nothing() {
    let mut sequencer = MultiProducerSequencer::new(BUFFER_SIZE, BusySpinWaitStrategy);
    let a = Arc::new(AtomicSequence::new(1));
    let b = Arc::new(AtomicSequence::new(1));
    sequencer.add_gating_sequence(&a);
    assert!(!sequencer.remove_gating_sequence(&b));
    assert_eq!(sequencer.gating_sequences().len(), 1);
    assert!(sequencer.remove_gating_sequence(&a));
    assert_eq!(sequencer.gating_sequences().len(), 0);
}

#[test]
fn drain_returns_once_consumers_caught_up() {
    let consumer = Arc::new(AtomicSequence::new(-1));
    let mut sequencer = SingleProducerSequencer::new(BUFFER_SIZE, BusySpinWaitStrategy);
    sequencer.add_gating_sequence(&consumer);
    let (start, end) = sequencer.next(3);
    sequencer.publish(start, end);
    let barrier = sequencer.create_sequence_barrier(&[sequencer.get_cursor()]);
    consumer.set(2);
    sequencer.drain();
    // The shutdown flag is raised: the barrier now reports an alert.
    assert_eq!(barrier.wait_for(10), None);
}

#[test]
fn multi_producer_drain_alerts_its_barriers() {
    let consumer = Arc::new(AtomicSequence::new(-1));
    let mut sequencer = MultiProducerSequencer::new(BUFFER_SIZE, BusySpinWaitStrategy);
    sequencer.add_gating_sequence(&consumer);
    let (start, end) = sequencer.next(2);
    sequencer.publish(start, end);
    let barrier = sequencer.create_sequence_barrier(&[]);
    assert_eq!(barrier.wait_for(0), Some(1));
    consumer.set(1);
    sequencer.drain();
    assert_eq!(barrier.wait_for(5), None);
}

#[test]
fn room_is_left_once_the_slowest_consumer_passed_the_previous_lap() {
    // A ring of 16: the range may end at 15 with nothing consumed (-1 + 16 >= 15).
    assert!(has_room(15, -1, 16));
    assert!(!has_room(16, -1, 16));
    assert!(has_room(16, 0, 16));
    assert!(has_room(i64::MAX, i64::MAX - 1, 16));
    assert!(!has_room(i64::MAX, i64::MIN, 16));
}

#[test]
fn multi_producer_barrier_follows_the_previous_stage() {
    let mut sequencer = MultiProducerSequencer::new(BUFFER_SIZE, BusySpinWaitStrategy);
    let first_stage = Arc::new(AtomicSequence::new(-1));
    sequencer.add_gating_sequence(&first_stage);
    let first = sequencer.create_sequence_barrier(&[sequencer.get_cursor()]);
    let second = sequencer.create_sequence_barrier(&[first_stage.clone()]);
    let (start, end) = sequencer.next(4);
    sequencer.publish(start, end);
    // The first stage follows the marks only (the cursor does not move).
    assert_eq!(first.wait_for(0), Some(3));
    // The second stage reads no further than the first stage has processed.
    first_stage.set(1);
    assert_eq!(second.wait_for(0), Some(1));
    first_stage.set(3);
    assert_eq!(second.wait_for(2), Some(3));
}

#[test]
fn multi_producer_drain_looks_at_the_last_ring() {
    assert_eq!(drain_from(-1, 16), 0);
    assert_eq!(drain_from(10, 16), 0);
    assert_eq!(drain_from(15, 16), 0);
    assert_eq!(drain_from(16, 16), 1);
    assert_eq!(drain_from(40, 16), 25);
}

#[test]
fn multi_producer_drain_after_the_ring_wrapped() {
    let consumer = Arc::new(AtomicSequence::new(-1));
    let mut sequencer = MultiProducerSequencer::new(BUFFER_SIZE, BusySpinWaitStrategy);
    sequencer.add_gating_sequence(&consumer);
    let barrier = sequencer.create_sequence_barrier(&[sequencer.get_cursor()]);
    let (start, end) = sequencer.next(16);
    sequencer.publish(start, end);
    consumer.set(15);
    let (start, end) = sequencer.next(4);
    assert_eq!((start, end), (16, 19));
    sequencer.publish(start, end);
    consumer.set(19);
    sequencer.drain();
    assert_eq!(barrier.wait_for(20), None);
}

#[test]
fn barrier_end_is_bounded_by_the_processed_position() {
    assert_eq!(bounded_by(10, 4), 4);
    assert_eq!(bounded_by(3, 4), 3);
    assert_eq!(bounded_by(5, 5), 5);
}
