//! The producer: it claims sequences, writes events into their slots, and
//! publishes them.
use std::marker::PhantomData;
use std::sync::Arc;
use vstd::prelude::*;

use crate::sequence::Sequence;
use crate::traits::{moved_all, moved_item, wrote_all, wrote_item, DataProvider, EventProducer, Sequencer};

verus! {

/// Writes events into the slots of a data provider, in ranges claimed from
/// a sequencer.
pub struct Producer<D: DataProvider<T>, T, S: Sequencer> {
    data_provider: Arc<D>,
    sequencer: S,
    _marker: PhantomData<T>,
}

impl<D: DataProvider<T>, T, S: Sequencer> Producer<D, T, S> {
    /// The storage written to.
    pub closed spec fn storage(&self) -> Arc<D> {
        self.data_provider
    }

    /// The sequencer claimed from.
    pub closed spec fn sequencer_spec(&self) -> S {
        self.sequencer
    }

    pub fn new(data_provider: Arc<D>, sequencer: S) -> (r: Self)
        ensures
            r.storage() == data_provider,
            r.sequencer_spec() == sequencer,
    {
        Producer { data_provider, sequencer, _marker: PhantomData }
    }
}

impl<'a, D: DataProvider<T> + 'a, T, S: Sequencer + 'a> EventProducer<'a, T> for Producer<D, T, S> {
    /// Claims `items.len()` sequences, lets `f` fill the slot of sequence
    /// `start + i` from item `i`, and publishes `start..=end`. Nothing is
    /// claimed for no items.
    fn write<F, U>(&self, items: Vec<U>, f: F) where F: Fn(&mut T, Sequence, &U) {
        let n = items.len();
        if n == 0 {
            return;
        }
        let (start, end) = self.sequencer.next(n as Sequence);
        let mut i: usize = 0;
        while i < n
            invariant
                i <= n,
                n == items@.len(),
                forall|slot: &mut T, sequence: Sequence, item: &U| f.requires((slot, sequence, item)),
                forall|j: int|
                    0 <= j < i ==> #[trigger] wrote_item(f, start.wrapping_add(j as Sequence), &items@[j]),
            decreases n - i,
        {
            let sequence = start.wrapping_add(i as Sequence);
            let data = self.data_provider.get_mut(sequence);
            f(data, sequence, &items[i]);
            assert(wrote_item(f, start.wrapping_add(i as Sequence), &items@[i as int]));
            i += 1;
        }
        assert(wrote_all(f, items@, start));
        self.sequencer.publish(start, end);
    }

    /// As `write`, handing each item to `f` by value.
    fn moving_write<F, U>(&self, items: Vec<U>, f: F) where F: Fn(&mut T, Sequence, U) {
        let n = items.len();
        if n == 0 {
            return;
        }
        let (start, end) = self.sequencer.next(n as Sequence);
        let mut i: usize = 0;
        let ghost all = items@;
        for item in it: items
            invariant
                forall|slot: &mut T, sequence: Sequence, item: U| f.requires((slot, sequence, item)),
                i == it.index(),
                it.seq() == all,
                all.len() == n,
                forall|j: int|
                    0 <= j < i ==> #[trigger] moved_item(f, start.wrapping_add(j as Sequence), all[j]),
        {
            let sequence = start.wrapping_add(i as Sequence);
            let data = self.data_provider.get_mut(sequence);
            f(data, sequence, item);
            assert(moved_item(f, start.wrapping_add(i as Sequence), all[i as int]));
            i = i + 1;
        }
        assert(moved_all(f, all, start));
        self.sequencer.publish(start, end);
    }

    fn drain(self) {
        self.sequencer.drain();
    }
}

} // verus!
