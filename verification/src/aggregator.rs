//! Collecting per-chunk outcomes and producing one ordered result.
//!
//! Workers complete in arbitrary order; the aggregator keys each success
//! by its chunk index, remembers the first failure, and on completion
//! emits the part list in strictly ascending part-number order together
//! with the bytes concatenated in offset order.

use vstd::prelude::*;

use crate::errors::ChunkError;
use crate::planner::{valid_plan, ChunkRange};
use crate::worker::ChunkOutcome;

verus! {

/// What one successful chunk contributed: the store-assigned tag and,
/// for downloads, the received bytes.
#[derive(Debug)]
pub struct SuccessEntry {
    pub part_tag: String,
    pub bytes: Vec<u8>,
}

/// The first failure the aggregator saw.
#[derive(Clone, Copy, Debug, PartialEq, Eq, Structural)]
pub struct FailureEntry {
    pub index: u32,
    pub cause: ChunkError,
    pub attempts_made: u32,
}

/// One entry of the ordered part list handed to the store's completion
/// call.
#[derive(Debug)]
pub struct PartRecord {
    pub part_number: u32,
    pub part_tag: String,
}

/// The ordered result of a transfer whose chunks all succeeded: the part
/// list sorted strictly by part number, and for downloads the assembled
/// bytes in offset order.
#[derive(Debug)]
pub struct TransferResult {
    pub parts: Vec<PartRecord>,
    pub data: Vec<u8>,
}

/// How many slots already hold a success.
pub open spec fn count_filled(slots: Seq<Option<SuccessEntry>>) -> int
    decreases slots.len(),
{
    if slots.len() == 0 {
        0
    } else {
        count_filled(slots.drop_last()) + (if slots.last() is Some {
            1int
        } else {
            0int
        })
    }
}

/// Whether every chunk has reported a success.
pub open spec fn all_filled(slots: Seq<Option<SuccessEntry>>) -> bool {
    forall|i: int| 0 <= i < slots.len() ==> (#[trigger] slots[i]) is Some
}

/// The bytes of all filled slots, concatenated in index order.
pub open spec fn assembled_bytes(slots: Seq<Option<SuccessEntry>>) -> Seq<u8>
    decreases slots.len(),
{
    if slots.len() == 0 {
        Seq::empty()
    } else {
        assembled_bytes(slots.drop_last()) + (match slots.last() {
            Some(e) => e.bytes@,
            None => Seq::empty(),
        })
    }
}

/// No count exceeds the number of slots.
pub proof fn lemma_count_filled_le_len(slots: Seq<Option<SuccessEntry>>)
    ensures
        0 <= count_filled(slots) <= slots.len(),
    decreases slots.len(),
{
    if slots.len() > 0 {
        lemma_count_filled_le_len(slots.drop_last());
    }
}

/// Filling an empty slot raises the count by one; recording a failure
/// leaves the slots alone, so the count follows the successes exactly.
pub proof fn lemma_count_filled_update(
    slots: Seq<Option<SuccessEntry>>,
    i: int,
    e: SuccessEntry,
)
    requires
        0 <= i < slots.len(),
        slots[i] is None,
    ensures
        count_filled(slots.update(i, Some(e))) == count_filled(slots) + 1,
    decreases slots.len(),
{
    let n = slots.len() as int;
    if i == n - 1 {
        assert(slots.update(i, Some(e)).drop_last() =~= slots.drop_last());
    } else {
        assert(slots.update(i, Some(e)).drop_last() =~= slots.drop_last().update(i, Some(e)));
        lemma_count_filled_update(slots.drop_last(), i, e);
    }
}

/// A full count means every slot is filled.
pub proof fn lemma_count_filled_full(slots: Seq<Option<SuccessEntry>>)
    requires
        count_filled(slots) == slots.len(),
    ensures
        all_filled(slots),
    decreases slots.len(),
{
    if slots.len() > 0 {
        lemma_count_filled_le_len(slots.drop_last());
        lemma_count_filled_full(slots.drop_last());
        assert forall|i: int| 0 <= i < slots.len() implies (#[trigger] slots[i]) is Some by {
            if i < slots.len() - 1 {
                assert(slots.drop_last()[i] is Some);
            }
        }
    }
}

/// The collector of one transfer's chunk outcomes.
#[derive(Debug)]
pub struct ResultAggregator {
    pub slots: Vec<Option<SuccessEntry>>,
    pub failure: Option<FailureEntry>,
}

impl ResultAggregator {
    /// The aggregator's invariant: part numbers `index + 1` must fit a
    /// `u32`.
    pub open spec fn wf(self) -> bool {
        self.slots@.len() <= u32::MAX
    }

    /// An aggregator expecting `chunk_count` outcomes, none seen yet.
    pub fn new(chunk_count: usize) -> (a: ResultAggregator)
        requires
            chunk_count <= u32::MAX,
        ensures
            a.wf(),
            a.slots@.len() == chunk_count,
            forall|i: int| 0 <= i < chunk_count ==> (#[trigger] a.slots@[i]) is None,
            a.failure is None,
            count_filled(a.slots@) == 0,
    {
        let mut slots: Vec<Option<SuccessEntry>> = Vec::new();
        let mut i: usize = 0;
        while i < chunk_count
            invariant
                0 <= i <= chunk_count,
                slots@.len() == i,
                forall|j: int| 0 <= j < i ==> (#[trigger] slots@[j]) is None,
                count_filled(slots@) == 0,
            decreases chunk_count - i,
        {
            let ghost prev = slots@;
            slots.push(None);
            proof {
                assert(slots@.drop_last() =~= prev);
            }
            i = i + 1;
        }
        ResultAggregator { slots, failure: None }
    }

    /// Take one worker's outcome: a success fills its slot, a failure is
    /// remembered if it is the first.
    pub fn record(&mut self, outcome: ChunkOutcome)
        requires
            old(self).wf(),
            outcome.spec_index() < old(self).slots@.len(),
            outcome is Success ==> old(self).slots@[outcome.spec_index() as int] is None,
        ensures
            final(self).wf(),
            final(self).slots@.len() == old(self).slots@.len(),
            outcome matches ChunkOutcome::Success { index, part_tag, bytes }
                ==> final(self).slots@ == old(self).slots@.update(index as int, Some((SuccessEntry { part_tag, bytes })))
                && final(self).failure == old(self).failure && count_filled(final(self).slots@)
                == count_filled(old(self).slots@) + 1,
            outcome matches ChunkOutcome::Failure { index, cause, attempts_made }
                ==> final(self).slots@ == old(self).slots@ && final(self).failure == (if old(self).failure is Some {
                old(self).failure
            } else {
                Some((FailureEntry { index, cause, attempts_made }))
            }),
    {
        match outcome {
            ChunkOutcome::Success { index, part_tag, bytes } => {
                let ghost entry = SuccessEntry { part_tag: part_tag, bytes: bytes };
                proof {
                    lemma_count_filled_update(self.slots@, index as int, entry);
                }
                self.slots.set(index as usize, Some(SuccessEntry { part_tag, bytes }));
            },
            ChunkOutcome::Failure { index, cause, attempts_made } => {
                if self.failure.is_none() {
                    self.failure = Some(FailureEntry { index, cause, attempts_made });
                }
            },
        }
    }

    /// Whether the slot of chunk `index` is still empty. The driver
    /// checks this before feeding a success.
    pub fn slot_empty(&self, index: u32) -> (r: bool)
        requires
            index < self.slots@.len(),
        ensures
            r <==> self.slots@[index as int] is None,
    {
        self.slots[index as usize].is_none()
    }

    /// Whether every chunk has reported a success.
    pub fn complete(&self) -> (r: bool)
        ensures
            r <==> all_filled(self.slots@),
    {
        let mut i: usize = 0;
        while i < self.slots.len()
            invariant
                0 <= i <= self.slots@.len(),
                forall|j: int| 0 <= j < i ==> (#[trigger] self.slots@[j]) is Some,
            decreases self.slots@.len() - i,
        {
            if self.slots[i].is_none() {
                return false;
            }
            i = i + 1;
        }
        true
    }

    /// Whether a failure has been recorded.
    pub fn failed(&self) -> (r: bool)
        ensures
            r <==> self.failure is Some,
    {
        self.failure.is_some()
    }

    /// The first failure seen, if any.
    pub fn first_failure(&self) -> (r: Option<FailureEntry>)
        ensures
            r == self.failure,
    {
        self.failure
    }

    /// Build the ordered result: part `i` carries part number `i + 1`,
    /// so part numbers ascend strictly, and the bytes are concatenated
    /// in index order whatever order the outcomes arrived in.
    pub fn finalize(&self) -> (r: TransferResult)
        requires
            self.wf(),
            all_filled(self.slots@),
        ensures
            r.parts@.len() == self.slots@.len(),
            forall|i: int|
                0 <= i < r.parts@.len() ==> (#[trigger] r.parts@[i]).part_number == i + 1,
            forall|i: int|
                0 <= i < r.parts@.len() ==> (#[trigger] r.parts@[i]).part_tag@
                    == self.slots@[i]->Some_0.part_tag@,
            forall|i: int, j: int|
                0 <= i < j < r.parts@.len() ==> (#[trigger] r.parts@[i]).part_number < (
                #[trigger] r.parts@[j]).part_number,
            r.data@ == assembled_bytes(self.slots@),
    {
        let n = self.slots.len();
        let mut parts: Vec<PartRecord> = Vec::new();
        let mut data: Vec<u8> = Vec::new();
        let mut i: usize = 0;
        while i < n
            invariant
                self.wf(),
                all_filled(self.slots@),
                n == self.slots@.len(),
                0 <= i <= n,
                parts@.len() == i,
                forall|j: int| 0 <= j < i ==> (#[trigger] parts@[j]).part_number == j + 1,
                forall|j: int|
                    0 <= j < i ==> (#[trigger] parts@[j]).part_tag@
                        == self.slots@[j]->Some_0.part_tag@,
                data@ == assembled_bytes(self.slots@.subrange(0, i as int)),
            decreases n - i,
        {
            match &self.slots[i] {
                Some(e) => {
                    let ghost prev_parts = parts@;
                    let ghost prev_data = data@;
                    parts.push(PartRecord { part_number: (i as u32) + 1, part_tag: e.part_tag.clone() });
                    data.extend_from_slice(e.bytes.as_slice());
                    proof {
                        let k = i as int;
                        let sub = self.slots@.subrange(0, k + 1);
                        assert(sub.drop_last() =~= self.slots@.subrange(0, k));
                        assert(sub.last() == self.slots@[k]);
                        assert(data@ == assembled_bytes(sub));
                    }
                },
                None => {
                    // all_filled rules this out.
                    proof {
                        assert(self.slots@[i as int] is Some);
                    }
                    unreached()
                },
            }
            i = i + 1;
        }
        proof {
            assert(self.slots@.subrange(0, n as int) =~= self.slots@);
        }
        TransferResult { parts, data }
    }
}

/// The reassembly round trip: split any byte sequence with the planner,
/// hand each chunk's exact byte span to its slot (in whatever completion
/// order: slots are keyed by index), and the assembled bytes are the
/// original sequence again.
pub proof fn lemma_reassembly_round_trip(
    data: Seq<u8>,
    chunk_size: u64,
    rs: Seq<ChunkRange>,
    slots: Seq<Option<SuccessEntry>>,
)
    requires
        chunk_size > 0,
        0 < data.len() <= u64::MAX,
        valid_plan(rs, data.len() as u64, chunk_size),
        slots.len() == rs.len(),
        forall|i: int|
            0 <= i < slots.len() ==> ((#[trigger] slots[i]) matches Some(e) && e.bytes@
                == data.subrange(rs[i].offset as int, rs[i].offset + rs[i].length)),
    ensures
        assembled_bytes(slots) == data,
{
    let n = rs.len() as int;
    crate::planner::lemma_plan_partitions(rs, data.len() as u64, chunk_size);
    lemma_reassembly_prefix(data, chunk_size, rs, slots, n);
    assert(slots.subrange(0, n) =~= slots);
    assert(data.subrange(0, rs[n - 1].offset + rs[n - 1].length) =~= data);
}

/// The first `k` slots assemble exactly the object's bytes up to the end
/// of range `k - 1`.
proof fn lemma_reassembly_prefix(
    data: Seq<u8>,
    chunk_size: u64,
    rs: Seq<ChunkRange>,
    slots: Seq<Option<SuccessEntry>>,
    k: int,
)
    requires
        chunk_size > 0,
        0 < data.len() <= u64::MAX,
        valid_plan(rs, data.len() as u64, chunk_size),
        slots.len() == rs.len(),
        forall|i: int|
            0 <= i < slots.len() ==> ((#[trigger] slots[i]) matches Some(e) && e.bytes@
                == data.subrange(rs[i].offset as int, rs[i].offset + rs[i].length)),
        1 <= k <= rs.len(),
    ensures
        assembled_bytes(slots.subrange(0, k)) == data.subrange(
            0,
            rs[k - 1].offset + rs[k - 1].length,
        ),
    decreases k,
{
    let c = chunk_size as int;
    crate::planner::lemma_range_end(rs, data.len() as u64, chunk_size, k - 1);
    let sub = slots.subrange(0, k);
    assert(sub.last() == slots[k - 1]);
    assert(slots[k - 1] is Some && slots[k - 1]->Some_0.bytes@ == data.subrange(
        rs[k - 1].offset as int,
        rs[k - 1].offset + rs[k - 1].length,
    ));
    let e = slots[k - 1]->Some_0;
    let end = rs[k - 1].offset + rs[k - 1].length;
    if k == 1 {
        assert(sub.drop_last() =~= Seq::<Option<SuccessEntry>>::empty());
        assert(assembled_bytes(sub.drop_last()) == Seq::<u8>::empty());
        assert(assembled_bytes(sub) == Seq::<u8>::empty() + e.bytes@);
        assert(rs[0].offset == 0 * c);
        assert(Seq::<u8>::empty() + e.bytes@ =~= e.bytes@);
    } else {
        crate::planner::lemma_range_end(rs, data.len() as u64, chunk_size, k - 2);
        lemma_reassembly_prefix(data, chunk_size, rs, slots, k - 1);
        assert(sub.drop_last() =~= slots.subrange(0, k - 1));
        // Contiguity: range k - 1 starts where range k - 2 ends, since
        // range k - 2 is full and offsets grow by one chunk per index.
        let mid = rs[k - 2].offset + rs[k - 2].length;
        assert(rs[k - 2].length == chunk_size);
        assert(rs[k - 2].offset == (k - 2) * c && rs[k - 1].offset == (k - 1) * c);
        assert((k - 1) * c == (k - 2) * c + 1 * c) by {
            vstd::arithmetic::mul::lemma_mul_is_distributive_add_other_way(c, k - 2, 1);
        }
        assert(mid == rs[k - 1].offset);
        assert(assembled_bytes(sub) == data.subrange(0, mid) + data.subrange(mid, end));
        assert(data.subrange(0, mid) + data.subrange(mid, end) =~= data.subrange(0, end));
    }
}

} // verus!
