//! Waiting strategies: how a thread waits until the sequences it depends on
//! have advanced.
//!
//! Every wait in this library polls shared counters. Verus requires each loop
//! to terminate, so the polling loops here stop after `u64::MAX` polls and
//! then report `None`, as an alert would; no real execution comes near that
//! count.
use std::sync::Arc;
use vstd::prelude::*;

use crate::sequence::{AtomicSequence, Sequence};
use crate::traits::WaitingStrategy;
use crate::utils::{min_of, Utils};

verus! {

/// Tells the processor that the thread is spinning.
///
/// Calls `std::hint::spin_loop`, which only hints the processor; nothing is
/// claimed of it.
#[verifier::external_body]
pub(crate) fn spin_loop_hint() {
    std::hint::spin_loop()
}

/// The outcome of one poll, given the least position `minimum` read among
/// the dependencies: `Some(minimum)` once it has reached `sequence`, `None`
/// while it has not.
pub fn ready_minimum(minimum: Sequence, sequence: Sequence) -> (r: Option<Sequence>)
    ensures
        r == (if minimum >= sequence { Some(minimum) } else { None::<Sequence> }),
{
    if minimum >= sequence {
        Some(minimum)
    } else {
        None
    }
}

/// One poll of a wait: `ready_minimum` of the least position among
/// `dependencies`, read once from each.
pub fn poll_dependencies(sequence: Sequence, dependencies: &[Arc<AtomicSequence>]) -> (r: Option<
    Sequence,
>)
    ensures
        r matches Some(minimum) ==> minimum >= sequence && exists|observed: Seq<i64>|
            observed.len() == dependencies@.len() && minimum == min_of(observed),
        dependencies@.len() == 0 ==> r == Some(i64::MAX),
{
    let minimum_sequence = Utils::get_minimum_sequence(dependencies);
    ready_minimum(minimum_sequence, sequence)
}

/// Polls a yielding strategy makes between two yields of the thread.
pub const YIELD_SPINS: u32 = 100;

/// Polls a sleeping strategy makes between two sleeps.
pub const SLEEP_SPINS: u32 = 200;

/// One step of a pausing strategy's countdown, after a poll that found the
/// dependencies behind: with `left` polls left before the next pause, either
/// pause now and start over from `budget` (`true`), or go on with one poll
/// fewer (`false`).
pub fn spin_budget_step(left: u32, budget: u32) -> (r: (u32, bool))
    requires
        budget > 0,
    ensures
        r == (if left <= 1 { (budget, true) } else { ((left - 1) as u32, false) }),
{
    if left <= 1 {
        (budget, true)
    } else {
        (left - 1, false)
    }
}

/// Waits as a pausing strategy does: polls until the least of
/// `dependencies` reaches `sequence` (and returns it) or `check_alert`
/// reports an alert (`None`), and calls `pause` after every `spins`
/// unsuccessful polls, as `spin_budget_step` counts them.
pub fn wait_with_pauses<F: Fn() -> bool, P: Fn()>(
    sequence: Sequence,
    dependencies: &[Arc<AtomicSequence>],
    check_alert: F,
    spins: u32,
    pause: P,
) -> (r: Option<i64>)
    requires
        spins > 0,
        check_alert.requires(()),
        pause.requires(()),
    ensures
        r matches Some(minimum) ==> minimum >= sequence && exists|observed: Seq<i64>|
            observed.len() == dependencies@.len() && minimum == min_of(observed),
        dependencies@.len() == 0 ==> r == Some(i64::MAX),
{
    let mut left: u32 = spins;
    let mut polls_left: u64 = u64::MAX;
    loop
        invariant
            spins > 0,
            check_alert.requires(()),
            pause.requires(()),
        decreases polls_left,
    {
        let ready = poll_dependencies(sequence, dependencies);
        if ready.is_some() {
            return ready;
        }
        if check_alert() {
            return None;
        }
        let (next_left, must_pause) = spin_budget_step(left, spins);
        if must_pause {
            pause();
        }
        left = next_left;
        if polls_left == 0 {
            return None;
        }
        polls_left -= 1;
    }
}

/// Waits by polling without pause: lowest latency, one busy core.
pub struct BusySpinWaitStrategy;

impl Default for BusySpinWaitStrategy {
    fn default() -> (r: Self) {
        BusySpinWaitStrategy
    }
}

impl WaitingStrategy for BusySpinWaitStrategy {
    fn new() -> Self {
        BusySpinWaitStrategy
    }

    /// Polls until the least of `dependencies` reaches `sequence` (and
    /// returns it), or until `check_alert` reports an alert (`None`).
    fn wait_for<F: Fn() -> bool>(
        &self,
        sequence: Sequence,
        dependencies: &[Arc<AtomicSequence>],
        check_alert: F,
    ) -> (r: Option<i64>)
        ensures
            r matches Some(minimum) ==> exists|observed: Seq<i64>|
                observed.len() == dependencies@.len() && minimum == min_of(observed),
            dependencies@.len() == 0 ==> r == Some(i64::MAX),
    {
        let mut polls_left: u64 = u64::MAX;
        loop
            invariant
                check_alert.requires(()),
            decreases polls_left,
        {
            let ready = poll_dependencies(sequence, dependencies);
            if ready.is_some() {
                return ready;
            }
            if check_alert() {
                return None;
            }
            if polls_left == 0 {
                return None;
            }
            polls_left -= 1;
        }
    }

    fn signal_all_when_blocking(&self) {
    }
}

} // verus!
