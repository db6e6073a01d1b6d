use disruptor_rs::waiting::{ready_minimum, spin_budget_step, wait_with_pauses, SLEEP_SPINS, YIELD_SPINS};
use std::cell::Cell;
use disruptor_rs::sequence::AtomicSequence;
use disruptor_rs::waiting::{poll_dependencies, BusySpinWaitStrategy};
use disruptor_rs::WaitingStrategy;
use std::sync::Arc;

#[test]
fn test_multiple_dependencies() {
    let strategy = BusySpinWaitStrategy::new();
    let seq1 = Arc::new(AtomicSequence::default());
    let seq2 = Arc::new(AtomicSequence::default());
    let dependencies = vec![seq1.clone(), seq2.clone()];

    seq1.set(5);
    seq2.set(3);

    // Should wait for minimum sequence (3)
    assert_eq!(strategy.wait_for(3, &dependencies, || false), Some(3));
}

#[test]
fn poll_reports_the_least_dependency_once_it_has_arrived() {
    let seq1 = Arc::new(AtomicSequence::new(8));
    let seq2 = Arc::new(AtomicSequence::new(4));
    let dependencies = vec![seq1, seq2];
    assert_eq!(poll_dependencies(3, &dependencies), Some(4));
    assert_eq!(poll_dependencies(4, &dependencies), Some(4));
    assert_eq!(poll_dependencies(5, &dependencies), None);
}

#[test]
fn no_dependencies_never_hold_a_wait_back() {
    let strategy = BusySpinWaitStrategy::default();
    let dependencies: Vec<Arc<AtomicSequence>> = vec![];
    assert_eq!(strategy.wait_for(100, &dependencies, || false), Some(i64::MAX));
}

#[test]
fn ready_minimum_reports_a_minimum_that_reached_the_sequence() {
    assert_eq!(ready_minimum(7, 5), Some(7));
    assert_eq!(ready_minimum(5, 5), Some(5));
    assert_eq!(ready_minimum(4, 5), None);
}

#[test]
fn spin_budget_step_counts_down_to_a_pause() {
    assert_eq!(spin_budget_step(100, YIELD_SPINS), (99, false));
    assert_eq!(spin_budget_step(2, YIELD_SPINS), (1, false));
    assert_eq!(spin_budget_step(1, YIELD_SPINS), (100, true));
    assert_eq!(spin_budget_step(0, SLEEP_SPINS), (200, true));
}

#[test]
fn wait_with_pauses_pauses_after_each_budget_and_stops_on_alert() {
    let dependency = Arc::new(AtomicSequence::new(2));
    let dependencies = vec![dependency.clone()];
    assert_eq!(wait_with_pauses(2, &dependencies, || false, 3, || {}), Some(2));

    let polls = Cell::new(0u32);
    let pauses = Cell::new(0u32);
    let result = wait_with_pauses(
        5,
        &dependencies,
        || {
            polls.set(polls.get() + 1);
            polls.get() > 7
        },
        3,
        || pauses.set(pauses.get() + 1),
    );
    assert_eq!(result, None);
    assert_eq!(pauses.get(), 2);
    let empty: Vec<Arc<AtomicSequence>> = vec![];
    assert_eq!(wait_with_pauses(9, &empty, || true, 1, || {}), Some(i64::MAX));
}
