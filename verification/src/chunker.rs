//! The work chunker: a pure partition of the interval list into fixed-size
//! contiguous batches, each labelled with the position of its first member,
//! for parallel dispatch.  Chunk index ranges are disjoint by construction,
//! so no two workers ever target the same output path.

use vstd::prelude::*;
use vstd::math::min;
use crate::cue::Interval;

verus! {

/// One batch of work: a contiguous run of intervals and the position of
/// its first member within the full interval list.  The position, not the
/// cue ordinal, names the output files, so distinct chunks write distinct
/// paths.
#[derive(Clone, Debug)]
pub struct Chunk {
    pub base: usize,
    pub items: Vec<Interval>,
}

/// How many chunks a list of `len` intervals yields at `size` per chunk:
/// full chunks plus one shorter final chunk for any remainder.
pub open spec fn chunk_count(len: int, size: int) -> int
    decreases len,
{
    if size <= 0 || len <= 0 {
        0
    } else if len <= size {
        1
    } else {
        1 + chunk_count(len - size, size)
    }
}

/// Splits `intervals` into contiguous chunks of `size`, in order; the last
/// chunk may be shorter.  Chunk `k` holds exactly the intervals from
/// position `k * size` on, and is labelled with that position.
pub fn chunk_intervals(intervals: &Vec<Interval>, size: usize) -> (r: Vec<Chunk>)
    requires
        size > 0,
    ensures
        r@.len() == chunk_count(intervals@.len() as int, size as int),
        forall|k: int|
            0 <= k < r@.len() ==> (#[trigger] r@[k]).base == k * size,
        forall|k: int|
            0 <= k < r@.len() ==> (#[trigger] r@[k]).base < intervals@.len(),
        forall|k: int|
            0 <= k < r@.len() ==> (#[trigger] r@[k]).items@ == intervals@.subrange(
                k * size,
                min(k * size + size, intervals@.len() as int),
            ),
{
    let len = intervals.len();
    let mut r: Vec<Chunk> = Vec::new();
    let mut base: usize = 0;
    proof {
        assert(r@.len() * size == 0) by (nonlinear_arith)
            requires
                r@.len() == 0,
        ;
    }
    while base < len
        invariant
            size > 0,
            len == intervals@.len(),
            base <= len,
            base == r@.len() * size || base == len,
            r@.len() + chunk_count(len - base, size as int) == chunk_count(
                len as int,
                size as int,
            ),
            forall|k: int|
                0 <= k < r@.len() ==> (#[trigger] r@[k]).base == k * size,
            forall|k: int|
                0 <= k < r@.len() ==> (#[trigger] r@[k]).base < len,
            forall|k: int|
                0 <= k < r@.len() ==> (#[trigger] r@[k]).items@ == intervals@.subrange(
                    k * size,
                    min(k * size + size, len as int),
                ),
        decreases len - base,
    {
        let remaining = len - base;
        let take = if remaining > size {
            size
        } else {
            remaining
        };
        let mut items: Vec<Interval> = Vec::new();
        let mut i: usize = 0;
        while i < take
            invariant
                base + take <= len,
                len == intervals@.len(),
                i <= take,
                items@.len() == i,
                forall|j: int| 0 <= j < i ==> items@[j] == intervals@[base + j],
            decreases take - i,
        {
            items.push(intervals[base + i]);
            i = i + 1;
        }
        proof {
            assert(base == r@.len() * size);
            assert(items@ =~= intervals@.subrange(
                base as int,
                min(base as int + size as int, len as int),
            ));
        }
        r.push(Chunk { base, items });
        proof {
            assert(r@.len() * size == (r@.len() - 1) * size + size) by (nonlinear_arith)
                requires
                    r@.len() >= 1,
            ;
        }
        base = base + take;
    }
    proof {
        assert(chunk_count(0, size as int) == 0);
    }
    r
}

/// The sum of the chunk lengths: how many intervals the chunks hold
/// together, and therefore how many processed-interval counts a full run
/// reports.
pub open spec fn total_items(chunks: Seq<Chunk>) -> int
    decreases chunks.len(),
{
    if chunks.len() == 0 {
        0
    } else {
        chunks.first().items@.len() + total_items(chunks.drop_first())
    }
}

/// The chunk count is never negative.
proof fn lemma_chunk_count_nonneg(len: int, size: int)
    ensures
        chunk_count(len, size) >= 0,
    decreases len,
{
    if size > 0 && len > size {
        lemma_chunk_count_nonneg(len - size, size);
    }
}

/// Law: a partition as `chunk_intervals` yields it — counted, positioned
/// and sliced as its contract states — holds every interval exactly once:
/// the chunk lengths sum to the length of the partitioned list.
pub proof fn lemma_partition_covers(chunks: Seq<Chunk>, intervals: Seq<Interval>, size: int)
    requires
        size > 0,
        chunks.len() == chunk_count(intervals.len() as int, size),
        forall|k: int| 0 <= k < chunks.len() ==> (#[trigger] chunks[k]).base == k * size,
        forall|k: int| 0 <= k < chunks.len() ==> (#[trigger] chunks[k]).base < intervals.len(),
        forall|k: int|
            0 <= k < chunks.len() ==> (#[trigger] chunks[k]).items@ == intervals.subrange(
                k * size,
                min(k * size + size, intervals.len() as int),
            ),
    ensures
        total_items(chunks) == intervals.len(),
{
    let n = intervals.len() as int;
    assert forall|k: int| 0 <= k < chunks.len() implies (#[trigger] chunks[k]).items@.len() == min(
        size,
        n - k * size,
    ) by {
        assert(chunks[k].base == k * size);
        assert(chunks[k].base < intervals.len());
        assert(0 <= k * size < n);
        assert(chunks[k].items@.len() == min(k * size + size, n) - k * size);
    }
    lemma_processed_counts_cover(chunks, n, size);
}

/// Law: a full, un-cancelled run processes every interval exactly once —
/// the chunk lengths of a partition sum to the length of the partitioned
/// list, so the processed counts reported across chunks add up to the
/// total cue count.
pub proof fn lemma_processed_counts_cover(chunks: Seq<Chunk>, n: int, size: int)
    requires
        n >= 0,
        size > 0,
        chunks.len() == chunk_count(n, size),
        forall|k: int|
            0 <= k < chunks.len() ==> (#[trigger] chunks[k]).items@.len() == min(
                size,
                n - k * size,
            ),
    ensures
        total_items(chunks) == n,
    decreases n,
{
    if n == 0 {
        assert(chunks.len() == 0);
    } else if n <= size {
        assert(chunks.len() == 1);
        assert(chunks[0].items@.len() == min(size, n));
        assert(total_items(chunks.drop_first()) == 0);
    } else {
        lemma_chunk_count_nonneg(n - size, size);
        assert(chunks.len() >= 1);
        let rest = chunks.drop_first();
        assert(chunks[0].items@.len() == min(size, n));
        assert forall|k: int| 0 <= k < rest.len() implies (#[trigger] rest[k]).items@.len() == min(
            size,
            (n - size) - k * size,
        ) by {
            assert(rest[k] == chunks[k + 1]);
            assert(chunks[k + 1].items@.len() == min(size, n - (k + 1) * size));
            assert((k + 1) * size == k * size + size) by (nonlinear_arith);
        }
        lemma_processed_counts_cover(rest, n - size, size);
    }
}

} // verus!
