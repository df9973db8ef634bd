//! The segment executor: runs the planner over every interval of one
//! chunk and turns the decisions into work the caller can carry out — the
//! placeholder paths to write directly, and the argument list of the one
//! batched trim invocation that serves every surviving interval of the
//! chunk.
//!
//! Batching amortizes the external tool's startup and decode cost over the
//! chunk; a chunk whose argument list is empty needs no invocation at all,
//! which is what makes a re-run over complete output free.

use vstd::prelude::*;
use crate::chunker::Chunk;
use crate::cue::IntervalView;
use crate::cue::interval_views;
use crate::planner::ActionView;
use crate::planner::PlannedAction;
use crate::planner::planned_action;
use crate::planner::plan;
use crate::text::clip_path;
use crate::text::clip_path_chars;
use crate::text::str_views;

verus! {

/// The planner's decision for member `i` of a chunk whose first member
/// stands at `base`: the output path is `{dir}/{prefix}-{base + i}.mp3`.
pub open spec fn chunk_action(
    items: Seq<IntervalView>,
    exists: Seq<bool>,
    base: int,
    dir: Seq<char>,
    prefix: Seq<char>,
    i: int,
) -> ActionView {
    planned_action(items[i], exists[i], clip_path_chars(dir, prefix, base + i))
}

/// The arguments one trim request contributes to the batched invocation:
/// a copy-codec trim from `start` to `end` into `path`; other decisions
/// contribute nothing.
pub open spec fn trim_args_of(a: ActionView) -> Seq<Seq<char>> {
    match a {
        ActionView::RequestTrim { start, end, path } => seq![
            "-c"@,
            "copy"@,
            "-ss"@,
            start,
            "-to"@,
            end,
            path,
        ],
        _ => Seq::empty(),
    }
}

/// The batched trim arguments contributed by the first `i` members of a
/// chunk, in order.
pub open spec fn trim_args_upto(
    items: Seq<IntervalView>,
    exists: Seq<bool>,
    base: int,
    dir: Seq<char>,
    prefix: Seq<char>,
    i: int,
) -> Seq<Seq<char>>
    decreases i,
{
    if i <= 0 {
        Seq::empty()
    } else {
        trim_args_upto(items, exists, base, dir, prefix, i - 1) + trim_args_of(
            chunk_action(items, exists, base, dir, prefix, i - 1),
        )
    }
}

/// The output paths that get the placeholder blob, among the first `i`
/// members of a chunk, in order.
pub open spec fn placeholder_paths_upto(
    items: Seq<IntervalView>,
    exists: Seq<bool>,
    base: int,
    dir: Seq<char>,
    prefix: Seq<char>,
    i: int,
) -> Seq<Seq<char>>
    decreases i,
{
    if i <= 0 {
        Seq::empty()
    } else {
        placeholder_paths_upto(items, exists, base, dir, prefix, i - 1) + (if chunk_action(
            items,
            exists,
            base,
            dir,
            prefix,
            i - 1,
        ) is WritePlaceholder {
            seq![clip_path_chars(dir, prefix, base + i - 1)]
        } else {
            Seq::empty()
        })
    }
}

/// One chunk's worth of planned work: the per-interval decisions in chunk
/// order, the paths owed the placeholder blob, and the argument list of
/// the single batched trim invocation.
#[derive(Debug)]
pub struct ChunkPlan {
    pub actions: Vec<PlannedAction>,
    pub placeholder_paths: Vec<String>,
    pub trim_args: Vec<String>,
}

/// Plans one chunk.  `exists[i]` reports whether the output path of member
/// `i` is already occupied.  The result follows the planner exactly: every
/// member gets its decision, every degenerate member without output its
/// placeholder path, and every trim request its seven arguments, all in
/// chunk order.
pub fn plan_chunk(chunk: &Chunk, exists: &Vec<bool>, output_dir: &str, prefix: &str) -> (p:
    ChunkPlan)
    requires
        exists@.len() == chunk.items@.len(),
        chunk.base + chunk.items@.len() <= usize::MAX,
        forall|i: int| 0 <= i < chunk.items@.len() ==> (#[trigger] chunk.items@[i]).wf(),
    ensures
        p.actions@.len() == chunk.items@.len(),
        forall|i: int|
            0 <= i < chunk.items@.len() ==> (#[trigger] p.actions@[i])@ == chunk_action(
                interval_views(chunk.items@),
                exists@,
                chunk.base as int,
                output_dir@,
                prefix@,
                i,
            ),
        str_views(p.trim_args@) == trim_args_upto(
            interval_views(chunk.items@),
            exists@,
            chunk.base as int,
            output_dir@,
            prefix@,
            chunk.items@.len() as int,
        ),
        str_views(p.placeholder_paths@) == placeholder_paths_upto(
            interval_views(chunk.items@),
            exists@,
            chunk.base as int,
            output_dir@,
            prefix@,
            chunk.items@.len() as int,
        ),
{
    let ghost ivs = interval_views(chunk.items@);
    let n = chunk.items.len();
    let mut actions: Vec<PlannedAction> = Vec::new();
    let mut placeholder_paths: Vec<String> = Vec::new();
    let mut trim_args: Vec<String> = Vec::new();
    for i in 0..n
        invariant
            n == chunk.items@.len(),
            exists@.len() == n,
            chunk.base + n <= usize::MAX,
            ivs == interval_views(chunk.items@),
            forall|k: int| 0 <= k < n ==> (#[trigger] chunk.items@[k]).wf(),
            actions@.len() == i,
            forall|k: int|
                0 <= k < i ==> (#[trigger] actions@[k])@ == chunk_action(
                    ivs,
                    exists@,
                    chunk.base as int,
                    output_dir@,
                    prefix@,
                    k,
                ),
            str_views(trim_args@) == trim_args_upto(
                ivs,
                exists@,
                chunk.base as int,
                output_dir@,
                prefix@,
                i as int,
            ),
            str_views(placeholder_paths@) == placeholder_paths_upto(
                ivs,
                exists@,
                chunk.base as int,
                output_dir@,
                prefix@,
                i as int,
            ),
    {
        proof {
            assert(ivs[i as int] == chunk.items@[i as int]@);
        }
        let path = clip_path(output_dir, prefix, (chunk.base + i) as u64);
        let item = chunk.items[i];
        let a = plan(&item, exists[i], path.clone());
        match &a {
            PlannedAction::Skip => {},
            PlannedAction::WritePlaceholder => {
                placeholder_paths.push(path);
            },
            PlannedAction::RequestTrim { start, end, path: dest } => {
                trim_args.push(String::from_str("-c"));
                trim_args.push(String::from_str("copy"));
                trim_args.push(String::from_str("-ss"));
                trim_args.push(start.clone());
                trim_args.push(String::from_str("-to"));
                trim_args.push(end.clone());
                trim_args.push(dest.clone());
            },
        }
        actions.push(a);
        proof {
            assert(str_views(trim_args@) =~= trim_args_upto(
                ivs,
                exists@,
                chunk.base as int,
                output_dir@,
                prefix@,
                i as int + 1,
            ));
            assert(str_views(placeholder_paths@) =~= placeholder_paths_upto(
                ivs,
                exists@,
                chunk.base as int,
                output_dir@,
                prefix@,
                i as int + 1,
            ));
        }
    }
    ChunkPlan { actions, placeholder_paths, trim_args }
}

/// Whether the chunk still needs the external tool at all: a plan without
/// trim requests — every member skipped or answered with the placeholder —
/// is complete without any invocation.
pub fn needs_invocation(p: &ChunkPlan) -> (r: bool)
    ensures
        r == (p.trim_args@.len() > 0),
{
    p.trim_args.len() > 0
}

/// The fixed arguments that precede the trim requests in the batched
/// invocation: quiet output, no video, overwrite, and the shared audio
/// source.
pub open spec fn invocation_prefix(audiobook: Seq<char>) -> Seq<Seq<char>> {
    seq!["-hide_banner"@, "-loglevel"@, "error"@, "-vn"@, "-y"@, "-i"@, audiobook]
}

/// The full argument list of one batched trim invocation against the
/// shared audio source.
pub fn invocation_args(audiobook: &str, trim_args: Vec<String>) -> (r: Vec<String>)
    ensures
        str_views(r@) == invocation_prefix(audiobook@) + str_views(trim_args@),
{
    let mut r: Vec<String> = Vec::new();
    r.push(String::from_str("-hide_banner"));
    r.push(String::from_str("-loglevel"));
    r.push(String::from_str("error"));
    r.push(String::from_str("-vn"));
    r.push(String::from_str("-y"));
    r.push(String::from_str("-i"));
    r.push(String::from_str(audiobook));
    let mut rest = trim_args;
    let ghost given = rest@;
    r.append(&mut rest);
    proof {
        assert(str_views(r@) =~= invocation_prefix(audiobook@) + str_views(given));
    }
    r
}

/// Why one interval's output failed to appear.
#[derive(Clone, Copy, Debug, PartialEq, Eq, Structural)]
pub enum FailureReason {
    /// The batched trim invocation failed to spawn or exited non-zero.
    ExternalTool,
    /// The placeholder blob could not be written.
    PlaceholderWrite,
}

/// What one interval came to: output already present and left alone, the
/// placeholder written, the external tool invoked successfully, or a
/// recorded failure.  Every interval of an executed chunk yields exactly
/// one outcome.
#[derive(Clone, Copy, Debug, PartialEq, Eq, Structural)]
pub enum SegmentOutcome {
    Skipped,
    Placeholder,
    Trimmed,
    Failed(FailureReason),
}

/// The outcome a decision comes to once the chunk has run: `tool_ok`
/// reports the batched invocation, `write_ok` the interval's own
/// placeholder write.
pub open spec fn outcome_of(a: ActionView, tool_ok: bool, write_ok: bool) -> SegmentOutcome {
    match a {
        ActionView::Skip => SegmentOutcome::Skipped,
        ActionView::WritePlaceholder => if write_ok {
            SegmentOutcome::Placeholder
        } else {
            SegmentOutcome::Failed(FailureReason::PlaceholderWrite)
        },
        ActionView::RequestTrim { .. } => if tool_ok {
            SegmentOutcome::Trimmed
        } else {
            SegmentOutcome::Failed(FailureReason::ExternalTool)
        },
    }
}

/// Settles every decision of a chunk once the caller has acted on it.
/// One failed batched invocation fails every trim request of the chunk
/// and nothing else; a failed placeholder write fails only its own
/// interval.  The outcome list is the error report of the chunk.
pub fn chunk_outcomes(actions: &Vec<PlannedAction>, tool_ok: bool, write_ok: &Vec<bool>) -> (o:
    Vec<SegmentOutcome>)
    requires
        write_ok@.len() == actions@.len(),
    ensures
        o@.len() == actions@.len(),
        forall|i: int|
            0 <= i < actions@.len() ==> o@[i] == outcome_of(
                (#[trigger] actions@[i])@,
                tool_ok,
                write_ok@[i],
            ),
{
    let n = actions.len();
    let mut o: Vec<SegmentOutcome> = Vec::new();
    for i in 0..n
        invariant
            n == actions@.len(),
            write_ok@.len() == n,
            o@.len() == i,
            forall|k: int|
                0 <= k < i ==> o@[k] == outcome_of(
                    (#[trigger] actions@[k])@,
                    tool_ok,
                    write_ok@[k],
                ),
    {
        let next = match &actions[i] {
            PlannedAction::Skip => SegmentOutcome::Skipped,
            PlannedAction::WritePlaceholder => if write_ok[i] {
                SegmentOutcome::Placeholder
            } else {
                SegmentOutcome::Failed(FailureReason::PlaceholderWrite)
            },
            PlannedAction::RequestTrim { .. } => if tool_ok {
                SegmentOutcome::Trimmed
            } else {
                SegmentOutcome::Failed(FailureReason::ExternalTool)
            },
        };
        o.push(next);
    }
    o
}

/// Law: over output that already exists in full — every flag set, as after
/// a completed run over the same arguments — the executor plans no work at
/// all: no trim arguments, no placeholder writes, every member skipped.
/// A second run therefore performs zero additional tool invocations.
pub proof fn lemma_rerun_plans_no_work(
    items: Seq<IntervalView>,
    exists: Seq<bool>,
    base: int,
    dir: Seq<char>,
    prefix: Seq<char>,
    n: int,
)
    requires
        0 <= n,
        forall|k: int| 0 <= k < n ==> #[trigger] exists[k],
    ensures
        trim_args_upto(items, exists, base, dir, prefix, n) == Seq::<Seq<char>>::empty(),
        placeholder_paths_upto(items, exists, base, dir, prefix, n) == Seq::<Seq<char>>::empty(),
        forall|k: int|
            0 <= k < n ==> chunk_action(items, exists, base, dir, prefix, k) == ActionView::Skip,
    decreases n,
{
    if n > 0 {
        lemma_rerun_plans_no_work(items, exists, base, dir, prefix, n - 1);
        assert(trim_args_upto(items, exists, base, dir, prefix, n) =~= Seq::<
            Seq<char>,
        >::empty());
        assert(placeholder_paths_upto(items, exists, base, dir, prefix, n) =~= Seq::<
            Seq<char>,
        >::empty());
    }
}

} // verus!
