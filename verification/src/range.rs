//! Best-effort collection of block records over a closed slot range.
//!
//! Slots are fetched one by one in increasing order; each fetch ends in one
//! of three per-slot outcomes: a record was retrieved, the slot has no
//! proposed block (a valid outcome, not an error), or the transport failed.
//! The aggregation discards absence and failure silently — a single flaky
//! slot must not abort the data-gathering phase — and never fails as a
//! whole: if every slot is absent or failed the result is simply empty.

use vstd::prelude::*;

verus! {

/// The block proposed at a slot: the slot it belongs to and the state root
/// its header commits to.
#[derive(Clone, Copy, Debug, PartialEq, Eq)]
pub struct BlockRecord {
    pub slot: u64,
    pub state_root: [u8; 32],
}

/// The outcome of fetching one slot's block.
#[derive(Clone, Copy, Debug, PartialEq, Eq)]
pub enum SlotOutcome {
    /// A block was proposed at the slot and was retrieved.
    Retrieved(BlockRecord),
    /// No block was proposed at the slot: a valid outcome, not an error.
    Absent,
    /// The transport failed for this slot.
    Failed,
}

/// The records of the retrieved outcomes, in order; absence and failure
/// contribute nothing.
pub open spec fn retrieved_records(outcomes: Seq<SlotOutcome>) -> Seq<BlockRecord>
    decreases outcomes.len(),
{
    if outcomes.len() == 0 {
        Seq::empty()
    } else {
        let rest = retrieved_records(outcomes.drop_last());
        match outcomes.last() {
            SlotOutcome::Retrieved(r) => rest.push(r),
            SlotOutcome::Absent => rest,
            SlotOutcome::Failed => rest,
        }
    }
}

/// The outcome at position `i` belongs to slot `start + i`: a retrieved
/// record carries exactly that slot number.
pub open spec fn outcomes_well_slotted(start: u64, outcomes: Seq<SlotOutcome>) -> bool {
    forall|i: int|
        0 <= i < outcomes.len() ==> (#[trigger] outcomes[i] matches SlotOutcome::Retrieved(r)
            ==> r.slot == start + i)
}

/// Keeps the retrieved records, in order, and discards absence and failure.
pub fn collect_range(outcomes: &Vec<SlotOutcome>) -> (records: Vec<BlockRecord>)
    ensures
        records@ == retrieved_records(outcomes@),
{
    let mut records: Vec<BlockRecord> = Vec::new();
    let mut i: usize = 0;
    while i < outcomes.len()
        invariant
            i <= outcomes.len(),
            records@ == retrieved_records(outcomes@.take(i as int)),
        decreases outcomes.len() - i,
    {
        match outcomes[i] {
            SlotOutcome::Retrieved(r) => records.push(r),
            SlotOutcome::Absent => {},
            SlotOutcome::Failed => {},
        }
        proof {
            assert(outcomes@.take(i + 1).drop_last() =~= outcomes@.take(i as int));
            assert(outcomes@.take(i + 1).last() == outcomes@[i as int]);
        }
        i = i + 1;
    }
    proof {
        assert(outcomes@.take(outcomes@.len() as int) =~= outcomes@);
    }
    records
}

/// Drives the best-effort fetch over a closed slot range `[start, end]`:
/// the caller asks for the next slot, performs the network call for it, and
/// records the call's outcome; once every slot of the range is recorded, the
/// retrieved records are collected. Fetches are strictly sequential: the
/// next slot is not handed out until the previous one's outcome is recorded.
pub struct RangeFetcher {
    pub start: u64,
    pub end: u64,
    pub outcomes: Vec<SlotOutcome>,
}

impl RangeFetcher {
    /// The fetcher's invariant: the range is well-formed, no more outcomes
    /// are recorded than the range has slots, and the outcome at position
    /// `i` belongs to slot `start + i`.
    pub open spec fn wf(self) -> bool {
        &&& self.start <= self.end
        &&& self.outcomes@.len() <= self.end - self.start + 1
        &&& outcomes_well_slotted(self.start, self.outcomes@)
    }

    /// Every slot of the range has a recorded outcome.
    pub open spec fn done(self) -> bool {
        self.outcomes@.len() == self.end - self.start + 1
    }

    pub fn new(start: u64, end: u64) -> (f: RangeFetcher)
        requires
            start <= end,
        ensures
            f.wf(),
            f.start == start,
            f.end == end,
            f.outcomes@.len() == 0,
    {
        RangeFetcher { start, end, outcomes: Vec::new() }
    }

    /// The next slot whose block is to be fetched, in increasing order;
    /// `None` once the whole range is recorded.
    pub fn next_slot(&self) -> (s: Option<u64>)
        requires
            self.wf(),
        ensures
            self.done() <==> s is None,
            !self.done() ==> (s matches Some(v) && v == self.start + self.outcomes@.len()),
    {
        let recorded: u64 = self.outcomes.len() as u64;
        if recorded <= self.end - self.start {
            Some(self.start + recorded)
        } else {
            None
        }
    }

    /// Records the outcome of fetching the next slot. A retrieved record
    /// must carry that slot's number; absence and failure are recorded all
    /// the same and never escalated, so one slot's failure cannot abort the
    /// remaining fetches.
    pub fn record_outcome(&mut self, outcome: SlotOutcome)
        requires
            old(self).wf(),
            !old(self).done(),
            outcome matches SlotOutcome::Retrieved(r) ==> r.slot == old(self).start + old(self).outcomes@.len(),
        ensures
            final(self).wf(),
            final(self).start == old(self).start,
            final(self).end == old(self).end,
            final(self).outcomes@ == old(self).outcomes@.push(outcome),
    {
        proof {
            let appended = self.outcomes@.push(outcome);
            assert forall|i: int|
                0 <= i < appended.len() implies (
            #[trigger] appended[i] matches SlotOutcome::Retrieved(r) ==> r.slot == self.start
                + i) by {
                if i < self.outcomes@.len() {
                    assert(appended[i] == self.outcomes@[i]);
                } else {
                    assert(appended[i] == outcome);
                }
            }
        }
        self.outcomes.push(outcome);
    }

    /// The records retrieved so far, in increasing slot order; absence and
    /// failure contribute nothing, and a range where nothing was retrieved
    /// collects as empty, not as an error.
    pub fn collect(&self) -> (records: Vec<BlockRecord>)
        ensures
            records@ == retrieved_records(self.outcomes@),
    {
        collect_range(&self.outcomes)
    }
}

/// Every record that comes out of a well-slotted range lies within the
/// range: its slot is at least `start` and at most the last fetched slot.
pub proof fn lemma_retrieved_slots_bounded(start: u64, outcomes: Seq<SlotOutcome>)
    requires
        outcomes_well_slotted(start, outcomes),
    ensures
        forall|k: int|
            0 <= k < retrieved_records(outcomes).len() ==> start <= (
            #[trigger] retrieved_records(outcomes)[k]).slot < start + outcomes.len(),
    decreases outcomes.len(),
{
    if outcomes.len() > 0 {
        let prefix = outcomes.drop_last();
        assert forall|i: int|
            0 <= i < prefix.len() implies (#[trigger] prefix[i] matches SlotOutcome::Retrieved(r)
            ==> r.slot == start + i) by {
            assert(prefix[i] == outcomes[i]);
        }
        lemma_retrieved_slots_bounded(start, prefix);
        assert(outcomes[outcomes.len() - 1] == outcomes.last());
        let pre = retrieved_records(prefix);
        let recs = retrieved_records(outcomes);
        match outcomes.last() {
            SlotOutcome::Retrieved(r) => {
                assert(recs == pre.push(r));
                assert(r.slot == start + outcomes.len() - 1);
                assert forall|k: int|
                    0 <= k < recs.len() implies start <= (#[trigger] recs[k]).slot < start
                    + outcomes.len() by {
                    if k < pre.len() {
                        assert(recs[k] == pre[k]);
                    } else {
                        assert(recs[k] == r);
                    }
                }
            },
            _ => {
                assert(recs == pre);
                assert forall|k: int|
                    0 <= k < recs.len() implies start <= (#[trigger] recs[k]).slot < start
                    + outcomes.len() by {
                    assert(recs[k] == pre[k]);
                }
            },
        }
    }
}

/// The records of a well-slotted range come out in strictly increasing slot
/// order: together with the bound above, the output is a subsequence of the
/// closed range of slots.
pub proof fn lemma_retrieved_slots_increasing(start: u64, outcomes: Seq<SlotOutcome>)
    requires
        outcomes_well_slotted(start, outcomes),
    ensures
        forall|j: int, k: int|
            0 <= j < k < retrieved_records(outcomes).len() ==> (
            #[trigger] retrieved_records(outcomes)[j]).slot < (
            #[trigger] retrieved_records(outcomes)[k]).slot,
    decreases outcomes.len(),
{
    if outcomes.len() > 0 {
        let prefix = outcomes.drop_last();
        assert forall|i: int|
            0 <= i < prefix.len() implies (#[trigger] prefix[i] matches SlotOutcome::Retrieved(r)
            ==> r.slot == start + i) by {
            assert(prefix[i] == outcomes[i]);
        }
        lemma_retrieved_slots_increasing(start, prefix);
        lemma_retrieved_slots_bounded(start, prefix);
        assert(outcomes[outcomes.len() - 1] == outcomes.last());
        let pre = retrieved_records(prefix);
        let recs = retrieved_records(outcomes);
        match outcomes.last() {
            SlotOutcome::Retrieved(r) => {
                assert(recs == pre.push(r));
                assert(r.slot == start + outcomes.len() - 1);
                assert forall|j: int, k: int|
                    0 <= j < k < recs.len() implies (#[trigger] recs[j]).slot < (
                #[trigger] recs[k]).slot by {
                    assert(recs[j] == pre[j]);
                    if k < pre.len() {
                        assert(recs[k] == pre[k]);
                    } else {
                        assert(recs[k] == r);
                        assert(pre[j].slot < start + prefix.len());
                    }
                }
            },
            _ => {
                assert(recs == pre);
                assert forall|j: int, k: int|
                    0 <= j < k < recs.len() implies (#[trigger] recs[j]).slot < (
                #[trigger] recs[k]).slot by {
                    assert(recs[j] == pre[j]);
                    assert(recs[k] == pre[k]);
                }
            },
        }
    }
}

/// A slot whose fetch ended in absence or failure is excluded from the
/// output: no record in the output carries that slot's number.
pub proof fn lemma_skipped_slot_excluded(start: u64, outcomes: Seq<SlotOutcome>, k: int)
    requires
        outcomes_well_slotted(start, outcomes),
        0 <= k < outcomes.len(),
        !(outcomes[k] is Retrieved),
    ensures
        forall|j: int|
            0 <= j < retrieved_records(outcomes).len() ==> (
            #[trigger] retrieved_records(outcomes)[j]).slot != start + k,
    decreases outcomes.len(),
{
    let prefix = outcomes.drop_last();
    assert forall|i: int|
        0 <= i < prefix.len() implies (#[trigger] prefix[i] matches SlotOutcome::Retrieved(r)
        ==> r.slot == start + i) by {
        assert(prefix[i] == outcomes[i]);
    }
    assert(outcomes[outcomes.len() - 1] == outcomes.last());
    let pre = retrieved_records(prefix);
    let recs = retrieved_records(outcomes);
    if k == outcomes.len() - 1 {
        lemma_retrieved_slots_bounded(start, prefix);
        assert(recs == pre);
        assert forall|j: int| 0 <= j < recs.len() implies (#[trigger] recs[j]).slot != start
            + k by {
            assert(recs[j] == pre[j]);
            assert(pre[j].slot < start + prefix.len());
        }
    } else {
        assert(prefix[k] == outcomes[k]);
        lemma_skipped_slot_excluded(start, prefix, k);
        match outcomes.last() {
            SlotOutcome::Retrieved(r) => {
                assert(recs == pre.push(r));
                assert(r.slot == start + outcomes.len() - 1);
                assert forall|j: int| 0 <= j < recs.len() implies (#[trigger] recs[j]).slot != start
                    + k by {
                    if j < pre.len() {
                        assert(recs[j] == pre[j]);
                    } else {
                        assert(recs[j] == r);
                    }
                }
            },
            _ => {
                assert(recs == pre);
                assert forall|j: int| 0 <= j < recs.len() implies (#[trigger] recs[j]).slot != start
                    + k by {
                    assert(recs[j] == pre[j]);
                }
            },
        }
    }
}

/// A slot whose fetch retrieved a record is included in the output, whatever
/// happened at the other slots: a failure at one slot does not cancel the
/// rest.
pub proof fn lemma_retrieved_slot_included(outcomes: Seq<SlotOutcome>, k: int)
    requires
        0 <= k < outcomes.len(),
        outcomes[k] is Retrieved,
    ensures
        exists|j: int|
            0 <= j < retrieved_records(outcomes).len() && #[trigger] retrieved_records(outcomes)[j]
                == outcomes[k]->0,
    decreases outcomes.len(),
{
    let prefix = outcomes.drop_last();
    assert(outcomes[outcomes.len() - 1] == outcomes.last());
    let pre = retrieved_records(prefix);
    let recs = retrieved_records(outcomes);
    if k == outcomes.len() - 1 {
        let r = outcomes[k]->0;
        assert(recs == pre.push(r));
        assert(recs[recs.len() - 1] == r);
    } else {
        assert(prefix[k] == outcomes[k]);
        lemma_retrieved_slot_included(prefix, k);
        let j = choose|j: int|
            0 <= j < retrieved_records(prefix).len() && #[trigger] retrieved_records(prefix)[j]
                == prefix[k]->0;
        match outcomes.last() {
            SlotOutcome::Retrieved(r) => {
                assert(recs == pre.push(r));
                assert(recs[j] == pre[j]);
            },
            _ => {
                assert(recs == pre);
                assert(recs[j] == pre[j]);
            },
        }
    }
}

/// The fetcher's law: whatever a well-formed fetcher over `[start, end]`
/// collects is strictly increasing in slot number, and every slot of it lies
/// within the closed range — the output is a subsequence of the range.
pub proof fn lemma_fetcher_output_is_range_subsequence(f: RangeFetcher)
    requires
        f.wf(),
    ensures
        forall|j: int, k: int|
            0 <= j < k < retrieved_records(f.outcomes@).len() ==> (
            #[trigger] retrieved_records(f.outcomes@)[j]).slot < (
            #[trigger] retrieved_records(f.outcomes@)[k]).slot,
        forall|k: int|
            0 <= k < retrieved_records(f.outcomes@).len() ==> f.start <= (
            #[trigger] retrieved_records(f.outcomes@)[k]).slot <= f.end,
{
    lemma_retrieved_slots_increasing(f.start, f.outcomes@);
    lemma_retrieved_slots_bounded(f.start, f.outcomes@);
}

/// If every slot in the range failed or was absent, the output is empty —
/// an empty sequence, not an error.
pub proof fn lemma_all_skipped_empty(outcomes: Seq<SlotOutcome>)
    requires
        forall|i: int| 0 <= i < outcomes.len() ==> !(#[trigger] outcomes[i] is Retrieved),
    ensures
        retrieved_records(outcomes).len() == 0,
    decreases outcomes.len(),
{
    if outcomes.len() > 0 {
        let prefix = outcomes.drop_last();
        assert forall|i: int| 0 <= i < prefix.len() implies !(#[trigger] prefix[i] is Retrieved) by {
            assert(prefix[i] == outcomes[i]);
        }
        lemma_all_skipped_empty(prefix);
        assert(outcomes[outcomes.len() - 1] == outcomes.last());
    }
}

} // verus!
