use disruptor_rs::sequence::AtomicSequence;
use disruptor_rs::utils::AvailableSequenceBuffer;
use disruptor_rs::waiting::BusySpinWaitStrategy;
use disruptor_rs::{MpmcSequenceBarrier, ProcessingSequenceBarrier, SequenceBarrier, WaitingStrategy};
use std::sync::atomic::AtomicBool;
use std::sync::Arc;

#[test]
fn test_wait_for_returns_sequence_when_available() {
    let alert = Arc::new(AtomicBool::new(false));
    let seq = Arc::new(AtomicSequence::default());
    seq.set(5);
    let gating_sequences = vec![seq];
    let waiting_strategy = Arc::new(BusySpinWaitStrategy::new());

    let barrier = ProcessingSequenceBarrier::new(alert, gating_sequences, waiting_strategy);

    assert_eq!(barrier.wait_for(5), Some(5));
}

#[test]
fn test_wait_for_returns_none_when_alerted() {
    let alert = Arc::new(AtomicBool::new(true));
    let seq = Arc::new(AtomicSequence::default());
    let gating_sequences = vec![seq];
    let waiting_strategy = Arc::new(BusySpinWaitStrategy::new());

    let barrier = ProcessingSequenceBarrier::new(alert, gating_sequences, waiting_strategy);

    assert_eq!(barrier.wait_for(5), None);
}

#[test]
fn test_signal_calls_waiting_strategy() {
    let alert = Arc::new(AtomicBool::new(false));
    let seq = Arc::new(AtomicSequence::default());
    let gating_sequences = vec![seq];
    let waiting_strategy = Arc::new(BusySpinWaitStrategy::new());

    let barrier = ProcessingSequenceBarrier::new(alert, gating_sequences, waiting_strategy);

    barrier.signal(); // Just verify it doesn't panic
}

#[test]
fn test_multiple_gating_sequences() {
    let alert = Arc::new(AtomicBool::new(false));
    let seq1 = Arc::new(AtomicSequence::default());
    let seq2 = Arc::new(AtomicSequence::default());
    seq1.set(5);
    seq2.set(3);
    let gating_sequences = vec![seq1, seq2];
    let waiting_strategy = Arc::new(BusySpinWaitStrategy::new());

    let barrier = ProcessingSequenceBarrier::new(alert, gating_sequences, waiting_strategy);

    // Should wait for minimum sequence (3)
    assert_eq!(barrier.wait_for(3), Some(3));
}

#[test]
fn processing_barrier_returns_the_least_gating_sequence() {
    let alert = Arc::new(AtomicBool::new(false));
    let seq1 = Arc::new(AtomicSequence::new(9));
    let seq2 = Arc::new(AtomicSequence::new(7));
    let barrier = ProcessingSequenceBarrier::new(
        alert,
        vec![seq1, seq2],
        Arc::new(BusySpinWaitStrategy::new()),
    );
    assert_eq!(barrier.wait_for(2), Some(7));
}

#[test]
fn mpmc_barrier_extends_over_the_published_run() {
    let available = Arc::new(AvailableSequenceBuffer::new(16));
    available.set_batch(0, 4);
    available.set(6);
    let barrier = MpmcSequenceBarrier::new(
        Arc::new(AtomicBool::new(false)),
        available.clone(),
        Arc::new(BusySpinWaitStrategy::new()),
    );
    assert_eq!(barrier.wait_for(0), Some(4));
    assert_eq!(barrier.wait_for(3), Some(4));
    assert_eq!(barrier.wait_for(6), Some(6));
}

#[test]
fn mpmc_barrier_reports_an_alert() {
    let available = Arc::new(AvailableSequenceBuffer::new(16));
    let barrier = MpmcSequenceBarrier::new(
        Arc::new(AtomicBool::new(true)),
        available,
        Arc::new(BusySpinWaitStrategy::new()),
    );
    assert_eq!(barrier.wait_for(0), None);
}

#[test]
fn mpmc_barrier_scans_at_most_the_scan_limit() {
    let available = Arc::new(AvailableSequenceBuffer::new(4096));
    available.set_batch(0, 2000);
    let barrier = MpmcSequenceBarrier::new(
        Arc::new(AtomicBool::new(false)),
        available,
        Arc::new(BusySpinWaitStrategy::new()),
    );
    assert_eq!(barrier.wait_for(0), Some(disruptor_rs::SCAN_LIMIT));
}
