//! The dispatcher's accounting: what a full run over the chunk list does
//! to the shared progress state.
//!
//! The parallel fan-out itself — worker pool, blocking subprocess calls —
//! belongs to the caller; chunks may really complete in any order.  The
//! cumulative counter is a sum of chunk lengths, and a sum does not
//! depend on the order of its parts, so the in-order tally modelled here
//! accounts for every schedule: once every chunk has been attempted the
//! counter holds exactly the total, and each status line carries one
//! partial sum.

use vstd::prelude::*;
use vstd::math::min;
use crate::builder::EmptyInputError;
use crate::builder::build;
use crate::builder::build_model;
use crate::builder::offsets_in_range;
use crate::builder::sorted_by_start;
use crate::chunker::Chunk;
use crate::chunker::chunk_count;
use crate::chunker::chunk_intervals;
use crate::chunker::lemma_partition_covers;
use crate::chunker::total_items;
use crate::cue::Cue;
use crate::cue::Interval;
use crate::cue::cue_views;
use crate::cue::interval_views;
use crate::progress::ProgressState;
use crate::text::progress_chars;

verus! {

/// Everything a run needs before the first chunk is dispatched: the
/// derived intervals, their partition into chunks, and a fresh progress
/// state whose total is the interval count.
#[derive(Debug)]
pub struct RunPlan {
    pub intervals: Vec<Interval>,
    pub chunks: Vec<Chunk>,
    pub state: ProgressState,
}

/// Prepares a full run: derives one interval per cue, partitions the
/// intervals into chunks of `chunk_size`, and opens the progress state.
/// The chunks hold every interval exactly once — their lengths sum to the
/// progress total — so a full tally ends exactly at the total.
pub fn plan_run(cues: &Vec<Cue>, offset: i32, chunk_size: usize) -> (r: Result<
    RunPlan,
    EmptyInputError,
>)
    requires
        chunk_size > 0,
        sorted_by_start(cue_views(cues@)),
        forall|i: int| 0 <= i < cues@.len() ==> (#[trigger] cues@[i]).wf(),
        offsets_in_range(cue_views(cues@), offset as int),
    ensures
        match r {
            Ok(p) => {
                &&& cues@.len() > 0
                &&& interval_views(p.intervals@) == build_model(cue_views(cues@), offset as int)
                &&& p.chunks@.len() == chunk_count(p.intervals@.len() as int, chunk_size as int)
                &&& forall|k: int|
                    0 <= k < p.chunks@.len() ==> (#[trigger] p.chunks@[k]).base == k * chunk_size
                &&& forall|k: int|
                    0 <= k < p.chunks@.len() ==> (#[trigger] p.chunks@[k]).items@
                        == p.intervals@.subrange(
                        k * chunk_size,
                        min(k * chunk_size + chunk_size, p.intervals@.len() as int),
                    )
                &&& total_items(p.chunks@) == p.intervals@.len()
                &&& p.state.completed == 0
                &&& !p.state.cancelled
                &&& p.state.total == p.intervals@.len()
            },
            Err(_) => cues@.len() == 0,
        },
{
    let intervals = match build(cues, offset) {
        Ok(ivs) => ivs,
        Err(e) => {
            return Err(e);
        },
    };
    let chunks = chunk_intervals(&intervals, chunk_size);
    proof {
        lemma_partition_covers(chunks@, intervals@, chunk_size as int);
    }
    let state = ProgressState::new(intervals.len());
    Ok(RunPlan { intervals, chunks, state })
}

/// The intervals held by the first `k` chunks together.
pub open spec fn total_items_upto(chunks: Seq<Chunk>, k: int) -> int
    decreases k,
{
    if k <= 0 {
        0
    } else {
        total_items_upto(chunks, k - 1) + chunks[k - 1].items@.len()
    }
}

/// Prefix sums can be taken from the front.
proof fn lemma_upto_shift(chunks: Seq<Chunk>, k: int)
    requires
        1 <= k <= chunks.len(),
    ensures
        total_items_upto(chunks, k) == chunks[0].items@.len() + total_items_upto(
            chunks.drop_first(),
            k - 1,
        ),
    decreases k,
{
    if k == 1 {
        assert(total_items_upto(chunks, 1) == total_items_upto(chunks, 0)
            + chunks[0].items@.len());
        assert(total_items_upto(chunks.drop_first(), 0) == 0);
    } else {
        lemma_upto_shift(chunks, k - 1);
        assert(chunks.drop_first()[k - 2] == chunks[k - 1]);
        assert(total_items_upto(chunks.drop_first(), k - 1) == total_items_upto(
            chunks.drop_first(),
            k - 2,
        ) + chunks.drop_first()[k - 2].items@.len());
    }
}

/// The full prefix sum is the sum of all chunk lengths.
pub proof fn lemma_total_items_is_upto(chunks: Seq<Chunk>)
    ensures
        total_items(chunks) == total_items_upto(chunks, chunks.len() as int),
    decreases chunks.len(),
{
    if chunks.len() > 0 {
        lemma_total_items_is_upto(chunks.drop_first());
        lemma_upto_shift(chunks, chunks.len() as int);
    }
}

/// A prefix of the chunks never holds more intervals than all of them.
proof fn lemma_upto_le_total(chunks: Seq<Chunk>, k: int)
    requires
        0 <= k <= chunks.len(),
    ensures
        total_items_upto(chunks, k) <= total_items_upto(chunks, chunks.len() as int),
    decreases chunks.len() - k,
{
    if k < chunks.len() {
        lemma_upto_le_total(chunks, k + 1);
    }
}

/// Tallies a full, un-cancelled run: every chunk is attempted once, in
/// order, and reported.  The counter ends at exactly the total, and the
/// `k`-th status line reports the sum of the first `k + 1` chunk lengths
/// over the total.
pub fn tally_full_run(chunks: &Vec<Chunk>, state: &mut ProgressState) -> (msgs: Vec<String>)
    requires
        old(state).completed == 0,
        !old(state).cancelled,
        old(state).total == total_items(chunks@),
    ensures
        final(state).completed == final(state).total,
        final(state).total == old(state).total,
        !final(state).cancelled,
        msgs@.len() == chunks@.len(),
        forall|k: int|
            0 <= k < chunks@.len() ==> (#[trigger] msgs@[k])@ == progress_chars(
                total_items_upto(chunks@, k + 1),
                old(state).total as int,
            ),
{
    proof {
        lemma_total_items_is_upto(chunks@);
    }
    let n = chunks.len();
    let mut msgs: Vec<String> = Vec::new();
    for i in 0..n
        invariant
            n == chunks@.len(),
            state.total == total_items_upto(chunks@, n as int),
            state.completed == total_items_upto(chunks@, i as int),
            !state.cancelled,
            state.wf(),
            msgs@.len() == i,
            forall|k: int|
                0 <= k < i ==> (#[trigger] msgs@[k])@ == progress_chars(
                    total_items_upto(chunks@, k + 1),
                    state.total as int,
                ),
    {
        proof {
            lemma_upto_le_total(chunks@, i as int + 1);
        }
        if state.may_start_chunk() {
            let line = state.record_chunk(chunks[i].items.len());
            msgs.push(line);
        }
    }
    msgs
}

} // verus!
