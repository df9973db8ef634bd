//! The segment planner: the per-interval decision between skipping output
//! that already exists, writing the embedded silent placeholder for a
//! degenerate interval, and requesting one trim from the external media
//! tool.
//!
//! The planner itself performs no side effect: the caller reports whether
//! the output path is already occupied, and acts on the returned decision.

use vstd::prelude::*;
use crate::cue::Interval;
use crate::cue::IntervalView;
use crate::text::timestamp_chars;
use crate::text::timestamp_string;

verus! {

/// The decision for one interval.  A trim request carries the corrected
/// boundaries already rendered for the external tool — decimal point, not
/// the comma of the cue source format — and the destination path.
#[derive(Clone, Debug, PartialEq, Eq)]
pub enum PlannedAction {
    Skip,
    WritePlaceholder,
    RequestTrim { start: String, end: String, path: String },
}

/// The mathematical value of a decision, with rendered text as character
/// sequences.
pub ghost enum ActionView {
    Skip,
    WritePlaceholder,
    RequestTrim { start: Seq<char>, end: Seq<char>, path: Seq<char> },
}

impl View for PlannedAction {
    type V = ActionView;

    open spec fn view(&self) -> ActionView {
        match self {
            PlannedAction::Skip => ActionView::Skip,
            PlannedAction::WritePlaceholder => ActionView::WritePlaceholder,
            PlannedAction::RequestTrim { start, end, path } => ActionView::RequestTrim {
                start: start@,
                end: end@,
                path: path@,
            },
        }
    }
}

/// The decision for interval `iv` whose output path is `path`: skip when
/// the path is already occupied, substitute the placeholder when the
/// interval is degenerate, request a trim otherwise.
pub open spec fn planned_action(iv: IntervalView, exists: bool, path: Seq<char>) -> ActionView {
    if exists {
        ActionView::Skip
    } else if iv.start >= iv.end {
        ActionView::WritePlaceholder
    } else {
        ActionView::RequestTrim {
            start: timestamp_chars(iv.start),
            end: timestamp_chars(iv.end),
            path,
        }
    }
}

/// Decides what to do for one interval.  `exists` reports whether
/// `output_path` is already occupied by a prior run.
pub fn plan(interval: &Interval, exists: bool, output_path: String) -> (a: PlannedAction)
    requires
        interval.wf(),
    ensures
        a@ == planned_action(interval@, exists, output_path@),
{
    if exists {
        PlannedAction::Skip
    } else if interval.start.is_at_or_after(&interval.end) {
        PlannedAction::WritePlaceholder
    } else {
        PlannedAction::RequestTrim {
            start: timestamp_string(&interval.start),
            end: timestamp_string(&interval.end),
            path: output_path,
        }
    }
}

/// The embedded placeholder asset: one short silent MPEG audio frame,
/// written verbatim — never decoded — wherever an interval is degenerate.
pub open spec fn placeholder_blob() -> Seq<u8> {
    Seq::<u8>::empty().push(0xff).push(0xf3).push(0x14).push(0xc4).push(0x00).push(0x00).push(
        0x00,
    ).push(0x03).push(0x48).push(0x00).push(0x00).push(0x00).push(0x00).push(0x4c).push(
        0x41,
    ).push(0x4d).push(0x45).push(0x33).push(0x2e).push(0x31).push(0x30).push(0x30).push(
        0x55,
    ).push(0x55).push(0x55).push(0x55).push(0x55).push(0x55).push(0x55).push(0x55).push(
        0x55,
    ).push(0x55).push(0x55).push(0x55).push(0x55)
}

/// The placeholder asset as bytes ready to write.
pub fn placeholder_bytes() -> (r: Vec<u8>)
    ensures
        r@ == placeholder_blob(),
{
    let mut v: Vec<u8> = Vec::new();
    v.push(0xff);
    v.push(0xf3);
    v.push(0x14);
    v.push(0xc4);
    v.push(0x00);
    v.push(0x00);
    v.push(0x00);
    v.push(0x03);
    v.push(0x48);
    v.push(0x00);
    v.push(0x00);
    v.push(0x00);
    v.push(0x00);
    v.push(0x4c);
    v.push(0x41);
    v.push(0x4d);
    v.push(0x45);
    v.push(0x33);
    v.push(0x2e);
    v.push(0x31);
    v.push(0x30);
    v.push(0x30);
    v.push(0x55);
    v.push(0x55);
    v.push(0x55);
    v.push(0x55);
    v.push(0x55);
    v.push(0x55);
    v.push(0x55);
    v.push(0x55);
    v.push(0x55);
    v.push(0x55);
    v.push(0x55);
    v.push(0x55);
    v.push(0x55);
    proof {
        assert(v@ =~= placeholder_blob());
    }
    v
}

/// Law: a degenerate interval whose output does not exist yet is always
/// answered with the placeholder — independent of the offset correction or
/// of any surrounding cue, since the decision reads the one interval alone.
pub proof fn lemma_degenerate_gets_placeholder(iv: IntervalView, path: Seq<char>)
    requires
        iv.start >= iv.end,
    ensures
        planned_action(iv, false, path) == ActionView::WritePlaceholder,
{
}

/// Law: an occupied output path is always skipped, whatever the interval
/// holds; a second run over complete output plans no work.
pub proof fn lemma_existing_output_skipped(iv: IntervalView, path: Seq<char>)
    ensures
        planned_action(iv, true, path) == ActionView::Skip,
{
}

} // verus!
