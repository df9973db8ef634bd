//! The interval builder: ordered cues plus a signed millisecond offset give
//! ordered playback intervals, one per cue.
//!
//! Every interval but the last is gap-closed — its end is pulled forward to
//! the next cue's offset-corrected start, so no audio between adjacent
//! clips is dropped — and its start receives the offset only when the cue
//! starts more than the offset's magnitude into the recording, which keeps
//! corrected starts away from the recording's zero point.  The interval of
//! the last cue keeps that cue's own start and end verbatim.

use vstd::prelude::*;
use vstd::math::abs;
use crate::cue::Cue;
use crate::cue::CueView;
use crate::cue::Interval;
use crate::cue::IntervalView;
use crate::cue::cue_views;
use crate::cue::interval_views;
use crate::timestamp::MAX_TIMESTAMP_MILLIS;

verus! {

/// The error for a run over an empty cue list: with no last cue there is
/// nothing to build.
#[derive(Clone, Copy, Debug, PartialEq, Eq, Structural)]
pub struct EmptyInputError;

/// The offset-corrected start boundary: the offset applies only when the
/// original start exceeds the offset's magnitude.
pub open spec fn corrected_start(start: int, offset: int) -> int {
    if start > abs(offset) {
        start + offset
    } else {
        start
    }
}

/// The interval derived from cue `i`: gap-closed and offset-corrected for
/// every cue but the last, verbatim for the last.
pub open spec fn built_interval(cues: Seq<CueView>, offset: int, i: int) -> IntervalView {
    if i == cues.len() - 1 {
        IntervalView { num: cues[i].num, start: cues[i].start, end: cues[i].end }
    } else {
        IntervalView {
            num: cues[i].num,
            start: corrected_start(cues[i].start, offset),
            end: cues[i + 1].start + offset,
        }
    }
}

/// The full interval list derived from `cues` under `offset`.
pub open spec fn build_model(cues: Seq<CueView>, offset: int) -> Seq<IntervalView> {
    Seq::new(cues.len(), |i: int| built_interval(cues, offset, i))
}

/// Cues sorted ascending by start timestamp.
pub open spec fn sorted_by_start(cues: Seq<CueView>) -> bool {
    forall|i: int, j: int| 0 <= i <= j < cues.len() ==> cues[i].start <= cues[j].start
}

/// Every boundary the builder computes stays on the recording.  These are
/// exactly the sums the correction forms: the guarded start of the first
/// cue, and the unconditionally shifted start of every later cue.
pub open spec fn offsets_in_range(cues: Seq<CueView>, offset: int) -> bool {
    &&& forall|i: int|
        1 <= i < cues.len() ==> 0 <= (#[trigger] cues[i]).start + offset <= MAX_TIMESTAMP_MILLIS
    &&& (cues.len() > 0 && cues[0].start > abs(offset) ==> cues[0].start + offset
        <= MAX_TIMESTAMP_MILLIS)
}

/// The magnitude of the signed offset, in milliseconds.
fn offset_magnitude(offset: i32) -> (m: u32)
    ensures
        m == abs(offset as int),
{
    if offset < 0 {
        (-(offset as i64)) as u32
    } else {
        offset as u32
    }
}

/// Derives one playback interval per cue.
///
/// The cues must be sorted ascending by start timestamp; an empty list is
/// rejected.  The result follows `build_model` exactly: every interval but
/// the last starts at its cue's guarded, offset-corrected start and ends at
/// the next cue's start plus the offset; the last interval repeats the last
/// cue's own boundaries untouched.
pub fn build(cues: &Vec<Cue>, offset: i32) -> (r: Result<Vec<Interval>, EmptyInputError>)
    requires
        sorted_by_start(cue_views(cues@)),
        forall|i: int| 0 <= i < cues@.len() ==> (#[trigger] cues@[i]).wf(),
        offsets_in_range(cue_views(cues@), offset as int),
    ensures
        match r {
            Ok(ivs) => {
                &&& cues@.len() > 0
                &&& interval_views(ivs@) == build_model(cue_views(cues@), offset as int)
                &&& forall|i: int| 0 <= i < ivs@.len() ==> (#[trigger] ivs@[i]).wf()
            },
            Err(_) => cues@.len() == 0,
        },
{
    if cues.len() == 0 {
        return Err(EmptyInputError);
    }
    let ghost cv = cue_views(cues@);
    let magnitude = offset_magnitude(offset);
    let last = cues.len() - 1;
    let mut out: Vec<Interval> = Vec::new();
    for i in 0..last
        invariant
            last == cues@.len() - 1,
            cues@.len() > 0,
            magnitude == abs(offset as int),
            cv == cue_views(cues@),
            sorted_by_start(cv),
            offsets_in_range(cv, offset as int),
            forall|k: int| 0 <= k < cues@.len() ==> (#[trigger] cues@[k]).wf(),
            out@.len() == i,
            forall|k: int| 0 <= k < i ==> (#[trigger] out@[k])@ == built_interval(
                cv,
                offset as int,
                k,
            ),
            forall|k: int| 0 <= k < i ==> (#[trigger] out@[k]).wf(),
    {
        proof {
            assert(cv[i as int] == cues@[i as int]@);
            assert(cv[i as int + 1] == cues@[i as int + 1]@);
        }
        let cue = &cues[i];
        let mut start = cue.start;
        if start.millis() > magnitude {
            start.add_milliseconds(offset);
        }
        let mut end = cues[i + 1].start;
        end.add_milliseconds(offset);
        out.push(Interval { num: cue.num, start, end });
    }
    let last_cue = &cues[last];
    out.push(Interval { num: last_cue.num, start: last_cue.start, end: last_cue.end });
    proof {
        assert(interval_views(out@) =~= build_model(cv, offset as int));
    }
    Ok(out)
}

/// Law: the builder yields exactly one interval per cue, and each keeps
/// its cue's ordinal, in the cue's place.
pub proof fn lemma_build_preserves_count(cues: Seq<CueView>, offset: int)
    requires
        cues.len() > 0,
        sorted_by_start(cues),
    ensures
        build_model(cues, offset).len() == cues.len(),
        forall|i: int|
            0 <= i < cues.len() ==> (#[trigger] build_model(cues, offset)[i]).num == cues[i].num,
{
}

/// Law: every non-terminal interval is gap-closed — it ends exactly at the
/// next cue's start plus the offset.
pub proof fn lemma_gap_closed(cues: Seq<CueView>, offset: int, i: int)
    requires
        sorted_by_start(cues),
        0 <= i < cues.len() - 1,
    ensures
        build_model(cues, offset)[i].end == cues[i + 1].start + offset,
{
}

/// Law: the last interval repeats the last cue's own start and end, whatever
/// the offset; two runs with different offsets agree on it.
pub proof fn lemma_last_interval_verbatim(cues: Seq<CueView>, offset1: int, offset2: int)
    requires
        cues.len() > 0,
        sorted_by_start(cues),
    ensures
        build_model(cues, offset1).last().start == cues.last().start,
        build_model(cues, offset1).last().end == cues.last().end,
        build_model(cues, offset1).last() == build_model(cues, offset2).last(),
{
}

/// Law: the start boundary takes the offset exactly when the originating
/// cue starts more than the offset's magnitude into the recording — except
/// for the last cue, whose interval keeps its start verbatim even beyond
/// the guard.
pub proof fn lemma_start_offset_guard(cues: Seq<CueView>, offset: int, i: int)
    requires
        sorted_by_start(cues),
        0 <= i < cues.len(),
    ensures
        cues[i].start <= abs(offset) ==> build_model(cues, offset)[i].start == cues[i].start,
        i < cues.len() - 1 && cues[i].start > abs(offset) ==> build_model(cues, offset)[i].start
            == cues[i].start + offset,
        i == cues.len() - 1 ==> build_model(cues, offset)[i].start == cues[i].start,
{
}

} // verus!
