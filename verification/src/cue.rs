//! The engine's data model: timed text cues as the caller hands them in,
//! and the playback intervals derived from them.

use vstd::prelude::*;
use crate::timestamp::Timestamp;

verus! {

/// One timed text entry of the transcript: its 1-based ordinal position in
/// the source, its start and end timestamps, and its text.  Cues are owned
/// by the caller and never changed by the engine.
#[derive(Clone, Debug)]
pub struct Cue {
    pub num: usize,
    pub start: Timestamp,
    pub end: Timestamp,
    pub text: String,
}

/// The mathematical value of a cue: ordinal and boundaries in milliseconds,
/// text as a character sequence.
pub ghost struct CueView {
    pub num: int,
    pub start: int,
    pub end: int,
    pub text: Seq<char>,
}

impl View for Cue {
    type V = CueView;

    open spec fn view(&self) -> CueView {
        CueView { num: self.num as int, start: self.start@, end: self.end@, text: self.text@ }
    }
}

impl Cue {
    /// Both boundaries lie on the recording.
    pub open spec fn wf(&self) -> bool {
        self.start.wf() && self.end.wf()
    }
}

/// One playback interval, derived from exactly one cue: the cue's ordinal
/// and the corrected start and end timestamps.  Built once, never mutated.
#[derive(Clone, Copy, Debug, PartialEq, Eq, Structural)]
pub struct Interval {
    pub num: usize,
    pub start: Timestamp,
    pub end: Timestamp,
}

/// The mathematical value of an interval: ordinal and boundaries in
/// milliseconds.
pub ghost struct IntervalView {
    pub num: int,
    pub start: int,
    pub end: int,
}

impl View for Interval {
    type V = IntervalView;

    open spec fn view(&self) -> IntervalView {
        IntervalView { num: self.num as int, start: self.start@, end: self.end@ }
    }
}

impl Interval {
    /// Both boundaries lie on the recording.
    pub open spec fn wf(&self) -> bool {
        self.start.wf() && self.end.wf()
    }

    /// An interval is degenerate when its start does not lie strictly
    /// before its end; such an interval gets a placeholder instead of a
    /// trim request.
    pub open spec fn is_degenerate(&self) -> bool {
        self@.start >= self@.end
    }
}

/// The values of a sequence of cues.
pub open spec fn cue_views(cues: Seq<Cue>) -> Seq<CueView> {
    cues.map_values(|c: Cue| c@)
}

/// The values of a sequence of intervals.
pub open spec fn interval_views(ivs: Seq<Interval>) -> Seq<IntervalView> {
    ivs.map_values(|iv: Interval| iv@)
}

} // verus!
