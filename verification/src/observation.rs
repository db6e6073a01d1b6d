//! Reads of the availability marks, as values that only a read can make.
//!
//! The marks are atomics that other threads write, so no contract can say
//! what a read returns. What can be said is which reads a result rests on:
//! a `SlotRead` is made only here, by reading the slot of its sequence, so a
//! function that needs one for a sequence must have read that sequence's
//! slot. The functions below take such reads and state exactly what follows
//! from them.
use vstd::prelude::*;

use crate::sequence::{AtomicSequence, Sequence};
use crate::sequencer::drain_from;
use crate::utils::{leading_trues, AvailableSequenceBuffer};

verus! {

/// One read of the availability slot of `sequence`: whether the slot held
/// the generation of `sequence` (it was published) when it was read.
pub struct SlotRead {
    sequence: Sequence,
    published: bool,
}

impl SlotRead {
    /// The sequence whose slot was read.
    pub closed spec fn sequence(&self) -> Sequence {
        self.sequence
    }

    /// Whether the read found the sequence published.
    pub closed spec fn published(&self) -> bool {
        self.published
    }

    /// Whether the read found the sequence published.
    pub fn is_published(&self) -> (r: bool)
        ensures
            r == self.published(),
    {
        self.published
    }
}

/// Reads the slot of `sequence` in `buffer` (`is_available`).
pub fn read_slot(buffer: &AvailableSequenceBuffer, sequence: Sequence) -> (r: SlotRead)
    ensures
        r.sequence() == sequence,
{
    SlotRead { sequence, published: buffer.is_available(sequence) }
}

/// `reads` are reads of `from`, `from + 1`, ... in that order.
pub open spec fn reads_from(reads: Seq<SlotRead>, from: int) -> bool {
    forall|k: int| 0 <= k < reads.len() ==> (#[trigger] reads[k]).sequence() == from + k
}

/// What each of `reads` found.
pub open spec fn published_flags(reads: Seq<SlotRead>) -> Seq<bool> {
    Seq::new(reads.len(), |k: int| reads[k].published())
}

/// The end of the run of published sequences that `reads` (of `from`,
/// `from + 1`, ...) found: `from - 1` plus the number of leading reads that
/// found their sequence published.
pub fn run_end_of_reads(from: Sequence, reads: &Vec<SlotRead>) -> (r: Sequence)
    requires
        from > i64::MIN,
        from - 1 + reads@.len() <= i64::MAX,
        reads_from(reads@, from as int),
    ensures
        leading_trues(published_flags(reads@), r - from + 1),
{
    let mut n: usize = 0;
    let mut end = from - 1;
    while n < reads.len() && reads[n].is_published()
        invariant
            n <= reads@.len(),
            end == from - 1 + n,
            from - 1 + reads@.len() <= i64::MAX,
            forall|j: int| 0 <= j < n ==> (#[trigger] reads@[j]).published(),
        decreases reads@.len() - n,
    {
        n += 1;
        end += 1;
    }
    proof {
        let flags = published_flags(reads@);
        assert forall|j: int| 0 <= j < n implies #[trigger] flags[j] by {
            assert(reads@[j].published());
        }
    }
    end
}

/// Some read of `reads` found `sequence` published.
pub open spec fn read_published(reads: Seq<SlotRead>, sequence: int) -> bool {
    exists|k: int| 0 <= k < reads.len() && (#[trigger] reads[k]).sequence() == sequence && reads[k].published()
}

/// Some read of `reads` found `sequence` not published.
pub open spec fn read_unpublished(reads: Seq<SlotRead>, sequence: int) -> bool {
    exists|k: int| 0 <= k < reads.len() && (#[trigger] reads[k]).sequence() == sequence && !reads[k].published()
}

/// Law of a run computed from reads: every sequence of `from..=r` was read
/// and found published, and when the reads go past `r`, the read of `r + 1`
/// found it not published. So a run end never counts a sequence whose slot
/// was not read, nor one that was read unpublished.
pub proof fn lemma_run_rests_on_reads(from: int, reads: Seq<SlotRead>, r: int)
    requires
        reads_from(reads, from),
        leading_trues(published_flags(reads), r - from + 1),
    ensures
        from - 1 <= r <= from - 1 + reads.len(),
        forall|s: int| from <= s <= r ==> #[trigger] read_published(reads, s),
        r + 1 < from + reads.len() ==> read_unpublished(reads, r + 1),
{
    let flags = published_flags(reads);
    assert forall|s: int| from <= s <= r implies #[trigger] read_published(reads, s) by {
        let k = s - from;
        assert(flags[k]);
        assert(reads[k].sequence() == s);
    }
    if r + 1 < from + reads.len() {
        let k = r + 1 - from;
        assert(!flags[k]);
        assert(reads[k].sequence() == r + 1);
    }
}

/// `reads` stop where a scan up to `to` stops: at `to` itself, or at the
/// first read that found its sequence not published; every read before
/// the last found its sequence published.
pub open spec fn scan_stops(reads: Seq<SlotRead>, from: int, to: int) -> bool {
    &&& 1 <= reads.len() <= to - from + 1
    &&& forall|k: int| 0 <= k < reads.len() - 1 ==> (#[trigger] reads[k]).published()
    &&& (reads.len() == to - from + 1 || !reads.last().published())
}

/// Reads the slots of `from`, `from + 1`, ... up to `to`, stopping after the
/// first one found not published, and returns the end of the run of
/// published sequences together with the reads it rests on.
pub fn read_run(buffer: &AvailableSequenceBuffer, from: Sequence, to: Sequence) -> (r: (
    Sequence,
    Vec<SlotRead>,
))
    requires
        from > i64::MIN,
        from <= to,
    ensures
        reads_from(r.1@, from as int),
        scan_stops(r.1@, from as int, to as int),
        leading_trues(published_flags(r.1@), r.0 - from + 1),
        from - 1 <= r.0 <= to,
{
    let mut reads: Vec<SlotRead> = Vec::new();
    let mut seq = from;
    loop
        invariant_except_break
            reads@.len() == seq - from,
            forall|k: int| 0 <= k < reads@.len() ==> (#[trigger] reads@[k]).published(),
        invariant
            from <= seq <= to,
            reads_from(reads@, from as int),
        ensures
            from <= seq <= to,
            reads_from(reads@, from as int),
            scan_stops(reads@, from as int, to as int),
        decreases to - seq,
    {
        let read = read_slot(buffer, seq);
        let available = read.is_published();
        let ghost before = reads@;
        reads.push(read);
        proof {
            assert forall|k: int| 0 <= k < reads@.len() implies (#[trigger] reads@[k]).sequence()
                == from + k by {
                if k < before.len() {
                    assert(reads@[k] == before[k]);
                }
            }
            assert forall|k: int| 0 <= k < reads@.len() - 1 implies (#[trigger] reads@[k]).published() by {
                assert(reads@[k] == before[k]);
            }
        }
        if !available || seq == to {
            break;
        }
        seq += 1;
    }
    let end = run_end_of_reads(from, &reads);
    (end, reads)
}

/// Law of a scan: the run end it returns is `to`, or the next sequence was
/// read and found not published; and every sequence up to it was read and
/// found published. A scan never stops early at a published sequence, and
/// never counts one it did not read.
pub proof fn lemma_scan_end(from: int, to: int, reads: Seq<SlotRead>, r: int)
    requires
        reads_from(reads, from),
        scan_stops(reads, from, to),
        leading_trues(published_flags(reads), r - from + 1),
    ensures
        forall|s: int| from <= s <= r ==> #[trigger] read_published(reads, s),
        r == to || read_unpublished(reads, r + 1),
{
    lemma_run_rests_on_reads(from, reads, r);
    let flags = published_flags(reads);
    if r < to {
        if r - from + 1 == reads.len() {
            let k = reads.len() - 1;
            assert(reads.len() < to - from + 1);
            assert(!reads.last().published());
            assert(flags[k] == reads[k].published());
            assert(false);
        }
    }
}

/// The readable end for a consumer that awaited `first.sequence()` and found
/// it published: `first.sequence()` when it is the last sequence or the
/// limit, and otherwise the end of the run of published sequences read from
/// `first.sequence() + 1` up to `limit`, returned with those reads.
pub fn extend_run(buffer: &AvailableSequenceBuffer, first: &SlotRead, limit: Sequence) -> (r: (
    Sequence,
    Vec<SlotRead>,
))
    requires
        first.published(),
        first.sequence() <= limit,
    ensures
        first.sequence() <= r.0 <= limit,
        first.sequence() < limit ==> {
            &&& reads_from(r.1@, first.sequence() + 1)
            &&& scan_stops(r.1@, first.sequence() + 1, limit as int)
            &&& leading_trues(published_flags(r.1@), r.0 - first.sequence())
        },
{
    let sequence = first.sequence;
    if sequence == limit {
        return (sequence, Vec::new());
    }
    read_run(buffer, sequence + 1, limit)
}

/// Law of a barrier's readable range: when a consumer awaited `first`'s
/// sequence, found it published and extended the range to `end` through
/// `reads` (as `extend_run` does, up to `limit`), every sequence of
/// `first.sequence()..=end` was read and found published, and the range
/// stops at `limit` or before a sequence that was read unpublished.
pub proof fn lemma_readable_range(first: SlotRead, reads: Seq<SlotRead>, end: int, limit: int)
    requires
        first.published(),
        first.sequence() <= end <= limit,
        first.sequence() < limit ==> {
            &&& reads_from(reads, first.sequence() + 1)
            &&& scan_stops(reads, first.sequence() + 1, limit)
            &&& leading_trues(published_flags(reads), end - first.sequence())
        },
        first.sequence() == limit ==> end == limit,
    ensures
        forall|s: int|
            first.sequence() <= s <= end ==> s == first.sequence() || #[trigger] read_published(
                reads,
                s,
            ),
        end == limit || read_unpublished(reads, end + 1),
{
    if first.sequence() < limit {
        lemma_scan_end(first.sequence() + 1, limit, reads, end);
    }
}

/// One read of a multi-producer sequencer's high-water mark: the last
/// sequence claimed when it was read.
pub struct ClaimRead {
    claimed: Sequence,
}

impl ClaimRead {
    /// The last claimed sequence, as read.
    pub closed spec fn claimed(&self) -> Sequence {
        self.claimed
    }

    /// The last claimed sequence, as read.
    pub fn value(&self) -> (r: Sequence)
        ensures
            r == self.claimed(),
    {
        self.claimed
    }
}

/// Reads the high-water mark `mark`.
pub fn read_claimed(mark: &AtomicSequence) -> ClaimRead {
    ClaimRead { claimed: mark.get() }
}

/// What a drain waits for, given the read `claim` of the high-water mark:
/// the end of the run of published sequences that starts at the oldest
/// sequence still in a ring of `buffer_size` slots (`drain_from`) and is
/// read up to the claimed sequence itself, returned with the reads it rests
/// on; `-1` with no reads when nothing from 0 on was claimed.
pub fn drain_target(buffer: &AvailableSequenceBuffer, claim: &ClaimRead, buffer_size: i64) -> (r: (
    Sequence,
    Vec<SlotRead>,
))
    ensures
        claim.claimed() < 0 ==> r.0 == -1,
        claim.claimed() >= 0 ==> exists|from: int|
            0 <= from <= claim.claimed() && {
                &&& reads_from(r.1@, from)
                &&& scan_stops(r.1@, from, claim.claimed() as int)
                &&& leading_trues(published_flags(r.1@), r.0 - from + 1)
                &&& from - 1 <= r.0 <= claim.claimed()
            },
{
    let claimed = claim.claimed;
    let from = drain_from(claimed, buffer_size);
    if from > claimed {
        return (-1, Vec::new());
    }
    read_run(buffer, from, claimed)
}

} // verus!
