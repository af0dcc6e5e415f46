//! Chunk planning: splitting `[0, total_size)` into fixed-size ranges.
//!
//! `plan` is a pure function. It rejects empty objects and plans whose
//! chunk count would exceed the configured ceiling; otherwise it returns
//! contiguous, non-overlapping ranges in ascending index order that
//! partition the object exactly.

use vstd::prelude::*;

use crate::errors::PlanError;

verus! {

/// Default chunk size in bytes: 10 MB.
pub const CHUNK_SIZE: u64 = 10_000_000;

/// Default ceiling on the number of chunks of one transfer.
pub const MAX_CHUNKS: u64 = 10_000;

/// Default bound on how many chunks transfer in parallel.
pub const CHUNKS_WORKERS: usize = 10;

/// Default attempts per chunk, first try included.
pub const CHUNKS_MAX_RETRY: u32 = 5;

/// The fixed configuration of one transfer.
#[derive(Clone, Copy, Debug)]
pub struct TransferSpec {
    /// Size of the object in bytes.
    pub total_size: u64,
    /// Size of every chunk but possibly the last, in bytes.
    pub chunk_size: u64,
    /// Ceiling on the number of chunks a plan may produce.
    pub max_chunks: u64,
    /// How many workers may transfer chunks at the same time.
    pub worker_budget: usize,
    /// Attempts allowed per chunk, first try included.
    pub max_retries: u32,
}

impl TransferSpec {
    /// The configuration invariant. Chunk indices are `u32`, so the
    /// chunk ceiling must fit one.
    pub open spec fn wf(self) -> bool {
        &&& self.chunk_size > 0
        &&& self.max_chunks <= u32::MAX
        &&& self.worker_budget >= 1
        &&& self.max_retries >= 1
    }
}

/// One contiguous byte sub-range of the object, transferred as one unit.
/// `index` is 0-based; the store's part number is `index + 1`.
#[derive(Clone, Copy, Debug, PartialEq, Eq, Structural)]
pub struct ChunkRange {
    pub index: u32,
    pub offset: u64,
    pub length: u64,
}

impl ChunkRange {
    /// The 1-based part number used by the store's multipart protocol.
    pub fn part_number(&self) -> (n: u32)
        requires
            self.index < u32::MAX,
        ensures
            n == self.index + 1,
    {
        self.index + 1
    }
}

/// `ceil(total_size / chunk_size)`: how many chunks a plan for this
/// object has.
pub open spec fn chunk_count_of(total_size: u64, chunk_size: u64) -> int
    recommends
        chunk_size > 0,
{
    if total_size % chunk_size == 0 {
        total_size as int / chunk_size as int
    } else {
        total_size as int / chunk_size as int + 1
    }
}

/// What a correct plan looks like: ascending contiguous indices, every
/// range but the last exactly `chunk_size` long, and the last one
/// reaching exactly to `total_size`.
pub open spec fn valid_plan(rs: Seq<ChunkRange>, total_size: u64, chunk_size: u64) -> bool {
    &&& rs.len() == chunk_count_of(total_size, chunk_size)
    &&& forall|i: int| 0 <= i < rs.len() ==> (#[trigger] rs[i]).index == i
    &&& forall|i: int| 0 <= i < rs.len() ==> (#[trigger] rs[i]).offset == i * chunk_size
    &&& forall|i: int| 0 <= i < rs.len() - 1 ==> (#[trigger] rs[i]).length == chunk_size
    &&& rs.len() > 0 ==> rs[rs.len() - 1].length == total_size - (rs.len() - 1) * chunk_size
}

/// Whether byte position `b` lies inside range `r`.
pub open spec fn in_range(r: ChunkRange, b: int) -> bool {
    r.offset <= b < r.offset + r.length
}

/// The chunk count is at least 1 and brackets the object size:
/// `count - 1` chunks are too few and `count` chunks suffice.
pub proof fn lemma_chunk_count_bounds(total_size: u64, chunk_size: u64)
    requires
        chunk_size > 0,
        total_size > 0,
    ensures
        1 <= chunk_count_of(total_size, chunk_size),
        (chunk_count_of(total_size, chunk_size) - 1) * chunk_size < total_size,
        total_size <= chunk_count_of(total_size, chunk_size) * chunk_size,
{
    let t = total_size as int;
    let c = chunk_size as int;
    let q = t / c;
    let r = t % c;
    vstd::arithmetic::div_mod::lemma_fundamental_div_mod(t, c);
    assert(t == c * q + r);
    vstd::arithmetic::div_mod::lemma_mod_bound(t, c);
    assert(0 <= r < c);
    assert(q >= 0) by {
        vstd::arithmetic::div_mod::lemma_div_pos_is_pos(t, c);
    }
    if r == 0 {
        assert(q >= 1) by {
            if q == 0 {
                assert(t == c * 0 + 0);
            }
        }
        assert((q - 1) * c == q * c - c) by {
            vstd::arithmetic::mul::lemma_mul_is_distributive_sub_other_way(c, q, 1);
        }
        assert(q * c == c * q) by {
            vstd::arithmetic::mul::lemma_mul_is_commutative(q, c);
        }
    } else {
        assert((q + 1 - 1) * c == c * q) by {
            vstd::arithmetic::mul::lemma_mul_is_commutative(q, c);
        }
        assert((q + 1) * c == q * c + c) by {
            vstd::arithmetic::mul::lemma_mul_is_distributive_add_other_way(c, q, 1);
        }
        assert(q * c == c * q) by {
            vstd::arithmetic::mul::lemma_mul_is_commutative(q, c);
        }
    }
}

/// Every length a valid plan assigns is positive and at most
/// `chunk_size`.
pub proof fn lemma_plan_lengths(rs: Seq<ChunkRange>, total_size: u64, chunk_size: u64)
    requires
        chunk_size > 0,
        total_size > 0,
        valid_plan(rs, total_size, chunk_size),
    ensures
        forall|i: int| 0 <= i < rs.len() ==> 0 < (#[trigger] rs[i]).length <= chunk_size,
{
    lemma_chunk_count_bounds(total_size, chunk_size);
    let n = rs.len() as int;
    assert(0 < rs[n - 1].length <= chunk_size) by {
        assert((n - 1) * chunk_size < total_size);
        assert(total_size <= n * chunk_size);
        assert(n * chunk_size == (n - 1) * chunk_size + chunk_size) by {
            vstd::arithmetic::mul::lemma_mul_is_distributive_add_other_way(
                chunk_size as int,
                n - 1,
                1,
            );
        }
    }
}

/// Each range of a valid plan ends inside the object; the last one ends
/// exactly at `total_size`.
pub proof fn lemma_range_end(rs: Seq<ChunkRange>, total_size: u64, chunk_size: u64, i: int)
    requires
        chunk_size > 0,
        total_size > 0,
        valid_plan(rs, total_size, chunk_size),
        0 <= i < rs.len(),
    ensures
        rs[i].offset + rs[i].length <= total_size,
        i == rs.len() - 1 ==> rs[i].offset + rs[i].length == total_size,
{
    lemma_chunk_count_bounds(total_size, chunk_size);
    let c = chunk_size as int;
    let n = rs.len() as int;
    if i == n - 1 {
        assert(rs[i].offset == (n - 1) * c);
        assert(rs[i].length == total_size - (n - 1) * c);
    } else {
        assert(rs[i].offset == i * c && rs[i].length == c);
        assert((i + 1) * c == i * c + 1 * c) by {
            vstd::arithmetic::mul::lemma_mul_is_distributive_add_other_way(c, i, 1);
        }
        assert((i + 1) * c <= (n - 1) * c) by {
            vstd::arithmetic::mul::lemma_mul_inequality(i + 1, n - 1, c);
        }
    }
}

/// The partition law: a valid plan's ranges tile `[0, total_size)` with
/// no gap and no overlap. Range 0 starts at 0, each range ends where the
/// next begins, and the last range ends at `total_size`.
pub proof fn lemma_plan_partitions(rs: Seq<ChunkRange>, total_size: u64, chunk_size: u64)
    requires
        chunk_size > 0,
        total_size > 0,
        valid_plan(rs, total_size, chunk_size),
    ensures
        rs.len() >= 1,
        rs[0].offset == 0,
        forall|i: int|
            0 <= i < rs.len() - 1 ==> (#[trigger] rs[i]).offset + rs[i].length == rs[i + 1].offset,
        rs[rs.len() - 1].offset + rs[rs.len() - 1].length == total_size,
        forall|i: int| 0 <= i < rs.len() ==> 0 < (#[trigger] rs[i]).length,
{
    lemma_chunk_count_bounds(total_size, chunk_size);
    lemma_plan_lengths(rs, total_size, chunk_size);
    let n = rs.len() as int;
    assert(rs[0].offset == 0 * chunk_size);
    assert forall|i: int|
        0 <= i < n - 1 implies (#[trigger] rs[i]).offset + rs[i].length == rs[i + 1].offset by {
        assert((i + 1) * chunk_size == i * chunk_size + chunk_size) by {
            vstd::arithmetic::mul::lemma_mul_is_distributive_add_other_way(
                chunk_size as int,
                i,
                1,
            );
        }
    }
}

/// Coverage and uniqueness: each byte position `b` of the object lies in
/// exactly one range, the one with index `b / chunk_size`.
pub proof fn lemma_plan_covers(rs: Seq<ChunkRange>, total_size: u64, chunk_size: u64, b: int)
    requires
        chunk_size > 0,
        total_size > 0,
        valid_plan(rs, total_size, chunk_size),
        0 <= b < total_size,
    ensures
        0 <= b / (chunk_size as int) < rs.len(),
        in_range(rs[b / (chunk_size as int)], b),
        forall|i: int| 0 <= i < rs.len() && in_range(#[trigger] rs[i], b) ==> i == b / (
        chunk_size as int),
{
    lemma_chunk_count_bounds(total_size, chunk_size);
    lemma_plan_lengths(rs, total_size, chunk_size);
    let c = chunk_size as int;
    let n = rs.len() as int;
    let q = b / c;
    let r = b % c;
    vstd::arithmetic::div_mod::lemma_fundamental_div_mod(b, c);
    vstd::arithmetic::div_mod::lemma_mod_bound(b, c);
    vstd::arithmetic::div_mod::lemma_div_pos_is_pos(b, c);
    assert(b == c * q + r && 0 <= r < c && q >= 0);
    assert(q * c == c * q) by {
        vstd::arithmetic::mul::lemma_mul_is_commutative(q, c);
    }
    // q < n: otherwise b >= q * c >= n * c >= total_size.
    assert(q < n) by {
        if q >= n {
            vstd::arithmetic::mul::lemma_mul_inequality(n, q, c);
        }
    }
    // b lies in range q.
    assert(in_range(rs[q], b)) by {
        assert(rs[q].offset == q * c);
        if q < n - 1 {
            assert(rs[q].length == c);
        } else {
            assert(rs[q].length == total_size - (n - 1) * c);
        }
    }
    // And in no other: inside range i, b == i * c + (b - i * c) with a
    // remainder below c, so i must be the quotient b / c.
    assert forall|i: int| 0 <= i < n && in_range(#[trigger] rs[i], b) implies i == q by {
        assert(rs[i].offset == i * c);
        assert(rs[i].length <= c);
        vstd::arithmetic::div_mod::lemma_fundamental_div_mod_converse(b, c, i, b - i * c);
    }
}

/// Compute the chunk count and ranges for one object, or say exactly why
/// no plan exists. Pure; no side effects.
pub fn plan(total_size: u64, chunk_size: u64, max_chunks: u64) -> (r: Result<
    Vec<ChunkRange>,
    PlanError,
>)
    requires
        chunk_size > 0,
        max_chunks <= u32::MAX,
    ensures
        (r matches Err(e) && e == PlanError::EmptyObject) <==> total_size == 0,
        (r matches Err(e) && e == PlanError::TooManyChunks) <==> (total_size > 0
            && chunk_count_of(total_size, chunk_size) > max_chunks),
        r is Ok <==> (total_size > 0 && chunk_count_of(total_size, chunk_size) <= max_chunks),
        r matches Ok(rs) ==> valid_plan(rs@, total_size, chunk_size),
{
    if total_size == 0 {
        return Err(PlanError::EmptyObject);
    }
    proof {
        lemma_chunk_count_bounds(total_size, chunk_size);
        // The count itself fits in u64: it is at most total_size.
        let cc = chunk_count_of(total_size, chunk_size);
        assert(1 * (cc - 1) <= chunk_size * (cc - 1)) by {
            vstd::arithmetic::mul::lemma_mul_inequality(1, chunk_size as int, cc - 1);
        }
        assert(chunk_size * (cc - 1) == (cc - 1) * chunk_size) by {
            vstd::arithmetic::mul::lemma_mul_is_commutative(chunk_size as int, cc - 1);
        }
    }
    let q: u64 = total_size / chunk_size;
    let chunk_count: u64 = if total_size % chunk_size == 0 {
        q
    } else {
        q + 1
    };
    if chunk_count > max_chunks {
        return Err(PlanError::TooManyChunks);
    }
    let mut ranges: Vec<ChunkRange> = Vec::new();
    let mut i: u64 = 0;
    while i < chunk_count
        invariant
            chunk_size > 0,
            total_size > 0,
            chunk_count == chunk_count_of(total_size, chunk_size),
            chunk_count <= max_chunks <= u32::MAX,
            0 <= i <= chunk_count,
            ranges@.len() == i,
            forall|j: int| 0 <= j < i ==> (#[trigger] ranges@[j]).index == j,
            forall|j: int| 0 <= j < i ==> (#[trigger] ranges@[j]).offset == j * chunk_size,
            forall|j: int| 0 <= j < i && j < chunk_count - 1 ==> (#[trigger] ranges@[j]).length
                == chunk_size,
            i == chunk_count && i > 0 ==> ranges@[i - 1].length == total_size - (i - 1)
                * chunk_size,
        decreases chunk_count - i,
    {
        proof {
            lemma_chunk_count_bounds(total_size, chunk_size);
            // The offset of range i stays strictly inside the object.
            assert(i * chunk_size <= (chunk_count - 1) * chunk_size) by {
                vstd::arithmetic::mul::lemma_mul_inequality(
                    i as int,
                    chunk_count - 1,
                    chunk_size as int,
                );
            }
        }
        let offset: u64 = i * chunk_size;
        let remaining: u64 = total_size - offset;
        let length: u64 = if remaining < chunk_size {
            remaining
        } else {
            chunk_size
        };
        proof {
            if i < chunk_count - 1 {
                // All but the last range are full: the next boundary is
                // still inside the object.
                assert((i + 1) * chunk_size <= (chunk_count - 1) * chunk_size) by {
                    vstd::arithmetic::mul::lemma_mul_inequality(
                        i + 1,
                        chunk_count - 1,
                        chunk_size as int,
                    );
                }
                assert((i + 1) * chunk_size == i * chunk_size + chunk_size) by {
                    vstd::arithmetic::mul::lemma_mul_is_distributive_add_other_way(
                        chunk_size as int,
                        i as int,
                        1,
                    );
                }
                assert(length == chunk_size);
            } else {
                // The last range reaches exactly to total_size.
                assert(chunk_count * chunk_size == (chunk_count - 1) * chunk_size + chunk_size)
                    by {
                    vstd::arithmetic::mul::lemma_mul_is_distributive_add_other_way(
                        chunk_size as int,
                        chunk_count - 1,
                        1,
                    );
                }
                assert(length == total_size - i * chunk_size);
            }
        }
        ranges.push(ChunkRange { index: i as u32, offset, length });
        i = i + 1;
    }
    Ok(ranges)
}

} // verus!
