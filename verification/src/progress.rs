//! The progress protocol: a completed-interval counter bounded by the
//! total, a cancellation flag checked once per chunk, and the cumulative
//! status line sent to the caller after every chunk.
//!
//! The counter only ever grows, and over a full, un-cancelled run it
//! reaches the total exactly.  The caller shares one `ProgressState`
//! across its workers and sends each returned line on its channel; the
//! consumer of that channel is outside the engine.

use vstd::prelude::*;
use crate::text::progress_chars;
use crate::text::progress_line;

verus! {

/// The run-wide shared state: how many intervals are done, how many there
/// are in all, and whether an external shutdown request has asked the
/// remaining chunks to be skipped.
#[derive(Clone, Copy, Debug, PartialEq, Eq, Structural)]
pub struct ProgressState {
    pub completed: usize,
    pub total: usize,
    pub cancelled: bool,
}

impl ProgressState {
    /// The counter never passes the total.
    pub open spec fn wf(&self) -> bool {
        self.completed <= self.total
    }

    /// A fresh state for a run over `total` intervals: nothing done, not
    /// cancelled.
    pub fn new(total: usize) -> (s: ProgressState)
        ensures
            s.completed == 0,
            s.total == total,
            !s.cancelled,
            s.wf(),
    {
        ProgressState { completed: 0, total, cancelled: false }
    }

    /// Whether a worker may start its next chunk: cancellation is
    /// cooperative and coarse — checked here, once, before each chunk.
    pub fn may_start_chunk(&self) -> (r: bool)
        ensures
            r == !self.cancelled,
    {
        !self.cancelled
    }

    /// Requests cooperative shutdown: chunks not yet started are skipped,
    /// chunks already running finish.  Leaves the counters untouched.
    pub fn cancel(&mut self)
        ensures
            final(self).cancelled,
            final(self).completed == old(self).completed,
            final(self).total == old(self).total,
    {
        self.cancelled = true;
    }

    /// Records one finished chunk of `delta` intervals and returns the
    /// cumulative status line `{completed}/{total} completed!\n` with the
    /// post-increment count.  The counter grows by exactly `delta` and
    /// stays bounded by the total.
    pub fn record_chunk(&mut self, delta: usize) -> (msg: String)
        requires
            old(self).wf(),
            old(self).completed + delta <= old(self).total,
        ensures
            final(self).completed == old(self).completed + delta,
            final(self).total == old(self).total,
            final(self).cancelled == old(self).cancelled,
            final(self).wf(),
            msg@ == progress_chars(final(self).completed as int, final(self).total as int),
    {
        self.completed = self.completed + delta;
        progress_line(self.completed, self.total)
    }
}

} // verus!
