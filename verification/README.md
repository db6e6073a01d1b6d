# disruptor_rs

A Verus-verified disruptor: a ring of pre-allocated event slots through
which producers hand events to stages of consumers, coordinated by sequence
counters.

## Layout

- `src/` — the verified library.
  - `sequence.rs` — `AtomicSequence`, a cache-line sized atomic counter.
  - `utils.rs` — minimum/maximum over sets of sequences, and
    `AvailableSequenceBuffer`, which records per slot the generation of the
    last sequence published there; the slot/generation arithmetic and its
    laws (wrap-around, distinct slots within a ring, runs without wrap).
  - `sequencer.rs` — single- and multi-producer sequencers: claiming ranges,
    backpressure (`has_capacity`, `has_room`), publishing, draining.
  - `barrier.rs` — consumer barriers over gating sequences or availability marks.
  - `waiting.rs` — the busy-spin waiting strategy, the single poll, and the
    countdown of the pausing strategies.
  - `producer.rs`, `processor.rs`, `work.rs` — producer, event processors and
    worker-pool processors.
  - `builder.rs` — the type-state builder.
  - `ringbuffer.rs` — power-of-two test and slot index of the event ring.
  - `traits.rs` — the interfaces.
- `tests/` — tests run against the compiled library.
- `app/` — the runtime around the library: the `UnsafeCell` ring buffer, the
  threaded executor, the pause of the yielding and sleeping strategies, and
  the builder steps that name them.

## What is verified

Every loop terminates, no arithmetic overflows, every index is in bounds.
Counters are `std::sync::atomic` values shared between threads, so the
contracts do not say what a load returns. Each decision taken on loaded
values is a public function with an exact contract over the values it is
given: `minimum_of`, `generation_matches`, `batch_marks`, `run_end`,
`ready_minimum`, `spin_budget_step`, `has_room`, `bounded_by`, `next_batch`,
`work_step`, `drain_from`. The functions that load and store call these, and
their own contracts state what holds whatever was loaded (bounds, and the
slots and generations that are used). The sequencing rules (wrap-around,
distinct slots within a ring, runs without wrap, backpressure, contiguous
claims) are proved as lemmas. Functions that only store to atomics or call a
handler return a ghost record that they keep beside each store or call: `set`
and `set_batch` the marks they pass to the stores (exactly `batch_marks_of`),
the processors' loops the batches they pass to the handler (contiguous, with
no gap or repeat). The records are not proved against the atomics or the
handler, which have no contracts. The builder's contracts state
how stages are wired: the runnable each handler adds, which sequences each
barrier follows, which cursors form the last stage, and which sequences gate
the producer. Waits poll at most `u64::MAX`
times before they report `None`, as an alert would.
