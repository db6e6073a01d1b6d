use disruptor_rs::utils::{maximum_of, minimum_of, run_end};
use disruptor_rs::sequence::AtomicSequence;
use disruptor_rs::utils::{AvailableSequenceBuffer, Utils};
use std::sync::Arc;

#[test]
fn test_get_minimum_sequence() {
    let sequences = vec![
        Arc::new(AtomicSequence::new(1)),
        Arc::new(AtomicSequence::new(2)),
        Arc::new(AtomicSequence::new(3)),
    ];
    assert_eq!(Utils::get_minimum_sequence(&sequences), 1);

    // Test empty sequence
    let empty: Vec<Arc<AtomicSequence>> = vec![];
    assert_eq!(Utils::get_minimum_sequence(&empty), i64::MAX);
}

#[test]
fn test_get_maximum_sequence() {
    let sequences = vec![
        Arc::new(AtomicSequence::new(1)),
        Arc::new(AtomicSequence::new(2)),
        Arc::new(AtomicSequence::new(3)),
    ];
    assert_eq!(Utils::get_maximum_sequence(&sequences), 3);

    // Test empty sequence
    let empty: Vec<Arc<AtomicSequence>> = vec![];
    assert_eq!(Utils::get_maximum_sequence(&empty), i64::MIN);
}

#[test]
fn test_available_sequence_buffer_generation_basic() {
    let buffer_size = 64;
    let buffer = AvailableSequenceBuffer::new(buffer_size);

    buffer.set_batch(0, 5);
    for i in 0..=5 {
        assert!(buffer.is_available(i), "Sequence {i} should be available");
    }
    for i in 6..buffer_size {
        assert!(
            !buffer.is_available(i),
            "Sequence {i} should not be available"
        );
    }
}

#[test]
fn test_batch_operations_with_wraparound() {
    let buffer_size = 8;
    let buffer = AvailableSequenceBuffer::new(buffer_size);

    // Test batch operations that wrap around the buffer
    buffer.set_batch(6, 10); // This will wrap around indices (6,7,0,1,2)

    assert!(buffer.is_available(6));
    assert!(buffer.is_available(7));
    assert!(buffer.is_available(8)); // wraps to index 0 with next generation
    assert!(buffer.is_available(9)); // wraps to index 1 with next generation
    assert!(buffer.is_available(10)); // wraps to index 2 with next generation

    assert!(!buffer.is_available(3));
    assert!(!buffer.is_available(4));
    assert!(!buffer.is_available(5));
}

#[test]
fn test_batch_operations_empty_range() {
    let buffer_size = 8;
    let buffer = AvailableSequenceBuffer::new(buffer_size);

    // Empty ranges should not cause issues
    buffer.set_batch(5, 4); // end < start, should do nothing
    for i in 0..buffer_size {
        assert!(!buffer.is_available(i));
    }
}

#[test]
fn test_generation_overwrite_on_wrap() {
    // With size 8, index_shift = 3. Publishing 0 replaces gen=0 at index 0,
    // publishing 8 replaces with gen=1 at index 0.
    let buffer = AvailableSequenceBuffer::new(8);
    buffer.set(0);
    assert!(buffer.is_available(0));
    assert!(!buffer.is_available(8));

    buffer.set(8);
    assert!(buffer.is_available(8));
    assert!(!buffer.is_available(0));
}

#[test]
fn test_highest_published_sequence() {
    let buffer = AvailableSequenceBuffer::new(16);

    // Nothing published
    assert_eq!(buffer.highest_published_sequence(0, 10), -1);

    // Publish 0 and 2 (gap at 1)
    buffer.set(0);
    buffer.set(2);
    assert_eq!(buffer.highest_published_sequence(0, 5), 0);

    // Fill the gap
    buffer.set(1);
    assert_eq!(buffer.highest_published_sequence(0, 5), 2);

    // From mid-range
    assert_eq!(buffer.highest_published_sequence(1, 5), 2);

    // from > to
    assert_eq!(buffer.highest_published_sequence(5, 4), 4);
}

#[test]
fn batch_longer_than_the_ring_keeps_the_last_ring_of_marks() {
    let buffer = AvailableSequenceBuffer::new(8);
    buffer.set_batch(0, 20);
    for i in 13..=20 {
        assert!(buffer.is_available(i), "Sequence {i} should be available");
    }
    for i in 0..13 {
        assert!(!buffer.is_available(i), "Sequence {i} should not be available");
    }
}

#[test]
fn long_batch_without_wrap_takes_the_sequential_path() {
    let buffer = AvailableSequenceBuffer::new(32);
    buffer.set_batch(3, 20);
    for i in 3..=20 {
        assert!(buffer.is_available(i));
    }
    assert!(!buffer.is_available(2));
    assert!(!buffer.is_available(21));
    assert_eq!(buffer.highest_published_sequence(3, 31), 20);
}

#[test]
fn long_batch_with_wrap_marks_every_sequence() {
    let buffer = AvailableSequenceBuffer::new(16);
    buffer.set_batch(10, 24);
    for i in 10..=24 {
        assert!(buffer.is_available(i));
    }
    assert!(!buffer.is_available(25));
    assert!(!buffer.is_available(9));
}

#[test]
fn negative_sequences_use_their_own_generation() {
    let buffer = AvailableSequenceBuffer::new(8);
    // Slots start with generation -1, which is the generation of -8..=-1.
    assert!(buffer.is_available(-1));
    assert!(buffer.is_available(-8));
    assert!(!buffer.is_available(-9));
    buffer.set(0);
    assert!(!buffer.is_available(-8));
}

#[test]
fn highest_published_sequence_stops_at_the_upper_bound() {
    let buffer = AvailableSequenceBuffer::new(16);
    buffer.set_batch(0, 9);
    assert_eq!(buffer.highest_published_sequence(0, 4), 4);
    assert_eq!(buffer.highest_published_sequence(3, 3), 3);
    assert_eq!(buffer.highest_published_sequence(10, 12), 9);
}

#[test]
fn slots_and_generations_follow_the_ring() {
    let buffer = AvailableSequenceBuffer::new(8);
    assert_eq!(buffer.slot_index(3), 3);
    assert_eq!(buffer.slot_index(11), 3);
    assert_eq!(buffer.generation(3), 0);
    assert_eq!(buffer.generation(11), 1);
    assert_eq!(buffer.slot_index(-1), 7);
    assert_eq!(buffer.generation(-1), -1);
}

#[test]
fn a_ring_of_consecutive_sequences_uses_every_slot_once() {
    let buffer = AvailableSequenceBuffer::new(8);
    let mut slots: Vec<usize> = (37..45).map(|s| buffer.slot_index(s)).collect();
    slots.sort();
    assert_eq!(slots, (0..8).collect::<Vec<usize>>());
}

#[test]
fn minimum_and_maximum_of_values() {
    assert_eq!(minimum_of(&vec![4, -2, 9]), -2);
    assert_eq!(maximum_of(&vec![4, -2, 9]), 9);
    assert_eq!(minimum_of(&vec![]), i64::MAX);
    assert_eq!(maximum_of(&vec![]), i64::MIN);
}

#[test]
fn run_end_counts_the_leading_ready_sequences() {
    assert_eq!(run_end(5, &vec![true, true, false, true]), 6);
    assert_eq!(run_end(5, &vec![false, true]), 4);
    assert_eq!(run_end(5, &vec![]), 4);
    assert_eq!(run_end(0, &vec![true, true, true]), 2);
}

#[test]
fn batch_marks_give_slot_and_generation_of_each_sequence() {
    let buffer = AvailableSequenceBuffer::new(8);
    // A short batch across the end of the ring.
    assert_eq!(buffer.batch_marks(6, 9), vec![(6, 0), (7, 0), (0, 1), (1, 1)]);
    // A long batch that fits without wrapping: walked slot by slot.
    let big = AvailableSequenceBuffer::new(16);
    let marks = big.batch_marks(16, 27);
    assert_eq!(marks, (0..12).map(|k| (k as usize, 1)).collect::<Vec<_>>());
    // A batch longer than the ring.
    let marks = buffer.batch_marks(0, 9);
    assert_eq!(marks.len(), 10);
    assert_eq!(marks[8], (0, 1));
    assert_eq!(marks[9], (1, 1));
    assert!(buffer.batch_marks(3, 2).is_empty());
}

#[test]
fn set_batch_stores_the_batch_marks() {
    let buffer = AvailableSequenceBuffer::new(16);
    buffer.set_batch(20, 31);
    for seq in 20..=31 {
        assert!(buffer.is_available(seq));
    }
    assert!(!buffer.is_available(19));
    assert!(!buffer.is_available(32));
    assert!(!buffer.is_available(4));
}

#[test]
fn generation_matches_compares_with_the_generation_of_the_sequence() {
    let buffer = AvailableSequenceBuffer::new(8);
    assert!(buffer.generation_matches(2, 17));
    assert!(!buffer.generation_matches(1, 17));
    assert!(buffer.generation_matches(-1, -3));
}
