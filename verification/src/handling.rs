//! Handing events to handlers, and moving a consumer's sequence past them.
//!
//! A consumer's sequence tells later stages and the producers which events
//! it is done with, so it may only move past events its handler has been
//! given. `Handled` is made only here, after the handler has returned from
//! every event of a batch, and `advance` moves a sequence only to the end
//! of such a batch.
use std::sync::Arc;
use vstd::prelude::*;

use crate::sequence::{AtomicSequence, Sequence};
use crate::traits::{DataProvider, EventHandler, EventHandlerMut};

verus! {

/// A batch `first..=last` whose every event the handler has returned from.
pub struct Handled {
    first: Sequence,
    last: Sequence,
}

impl Handled {
    /// The first sequence of the batch.
    pub closed spec fn first(&self) -> Sequence {
        self.first
    }

    /// The last sequence of the batch.
    pub closed spec fn last(&self) -> Sequence {
        self.last
    }
}

/// Hands the events of `first..=last` to `handler` in order, marking the
/// last one as the end of the batch, and returns the batch once the handler
/// has returned from all of them.
pub fn handle_batch<E: EventHandler<T>, T, D: DataProvider<T>>(
    handler: &E,
    data_provider: &Arc<D>,
    first: Sequence,
    last: Sequence,
) -> (r: Handled)
    requires
        first <= last,
    ensures
        r.first() == first,
        r.last() == last,
{
    let mut i = first;
    loop
        invariant
            first <= i <= last,
        decreases last - i,
    {
        let event = data_provider.get(i);
        handler.on_event(event, i, i == last);
        if i == last {
            break;
        }
        i += 1;
    }
    Handled { first, last }
}

/// As `handle_batch`, for a handler with mutable state.
pub fn handle_batch_mut<E: EventHandlerMut<T>, T, D: DataProvider<T>>(
    handler: &mut E,
    data_provider: &Arc<D>,
    first: Sequence,
    last: Sequence,
) -> (r: Handled)
    requires
        first <= last,
    ensures
        r.first() == first,
        r.last() == last,
{
    let mut i = first;
    loop
        invariant
            first <= i <= last,
        decreases last - i,
    {
        let event = data_provider.get(i);
        handler.on_event(event, i, i == last);
        if i == last {
            break;
        }
        i += 1;
    }
    Handled { first, last }
}

/// Moves `sequence` to the end of the handled batch `done`, and returns the
/// value it stored: `done.last()`. It takes the batch by value, so each
/// handled batch moves a sequence once.
pub fn advance(sequence: &AtomicSequence, done: Handled) -> (r: Sequence)
    ensures
        r == done.last(),
{
    sequence.set(done.last);
    done.last
}

} // verus!
