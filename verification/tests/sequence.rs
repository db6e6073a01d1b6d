use disruptor_rs::sequence::AtomicSequence;

#[test]
fn test_sequence() {
    let sequence = AtomicSequence::new(0);
    assert_eq!(sequence.get(), 0);
    assert_eq!(sequence.get_and_increment(), 0);
    assert_eq!(sequence.get(), 1);
    assert_eq!(sequence.increment_and_get(), 2);
    assert_eq!(sequence.get(), 2);
    sequence.set(42);
    assert_eq!(sequence.get(), 42);
}

#[test]
fn default_sequence_starts_before_the_first_slot() {
    let sequence = AtomicSequence::default();
    assert_eq!(sequence.get(), -1);
    let from_value = AtomicSequence::from(7);
    assert_eq!(from_value.get(), 7);
}

#[test]
fn get_and_add_returns_the_previous_value() {
    let sequence = AtomicSequence::new(-1);
    assert_eq!(sequence.get_and_add(5), -1);
    assert_eq!(sequence.get(), 4);
}

#[test]
fn increment_and_get_wraps_at_the_maximum() {
    let sequence = AtomicSequence::new(i64::MAX);
    assert_eq!(sequence.increment_and_get(), i64::MIN);
    assert_eq!(sequence.get(), i64::MIN);
}

#[test]
fn sequences_compare_by_value() {
    let a = AtomicSequence::new(3);
    let b = AtomicSequence::new(3);
    let c = AtomicSequence::new(4);
    assert!(a == b);
    assert!(a != c);
}
