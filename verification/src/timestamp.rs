//! Points in the recording, at millisecond resolution.

use vstd::prelude::*;

verus! {

/// The largest representable time: 255 hours, 59 minutes, 59 seconds and
/// 999 milliseconds, counted in milliseconds.
pub const MAX_TIMESTAMP_MILLIS: u32 = 921_599_999;

/// A point in the recording.  The view of a timestamp is its distance from
/// the recording's start, in milliseconds.
#[derive(Clone, Copy, Debug, PartialEq, Eq, Structural)]
pub struct Timestamp {
    millis: u32,
}

impl View for Timestamp {
    type V = int;

    closed spec fn view(&self) -> int {
        self.millis as int
    }
}

impl Timestamp {
    /// A timestamp stays below the largest representable time.
    pub open spec fn wf(&self) -> bool {
        self@ <= MAX_TIMESTAMP_MILLIS
    }

    /// The timestamp `milliseconds` past the recording's start.
    pub fn from_milliseconds(millis: u32) -> (t: Timestamp)
        requires
            millis <= MAX_TIMESTAMP_MILLIS,
        ensures
            t@ == millis,
            t.wf(),
    {
        Timestamp { millis }
    }

    /// The timestamp at the given clock reading.
    pub fn new(hours: u8, minutes: u8, seconds: u8, milliseconds: u16) -> (t: Timestamp)
        requires
            minutes < 60,
            seconds < 60,
            milliseconds < 1000,
        ensures
            t@ == ((hours * 60 + minutes) * 60 + seconds) * 1000 + milliseconds,
            t.wf(),
    {
        let millis: u32 = ((hours as u32 * 60 + minutes as u32) * 60 + seconds as u32) * 1000
            + milliseconds as u32;
        Timestamp { millis }
    }

    /// The distance from the recording's start, in milliseconds.
    pub fn millis(&self) -> (m: u32)
        ensures
            m == self@,
    {
        self.millis
    }

    /// Moves the timestamp `delta` milliseconds forward (backward when
    /// `delta` is negative).  The caller keeps the result on the recording.
    pub fn add_milliseconds(&mut self, delta: i32)
        requires
            0 <= old(self)@ + delta <= MAX_TIMESTAMP_MILLIS,
        ensures
            final(self)@ == old(self)@ + delta,
            final(self).wf(),
    {
        let moved: i64 = self.millis as i64 + delta as i64;
        self.millis = moved as u32;
    }

    /// Whether this timestamp lies strictly after `other`.
    pub fn is_after(&self, other: &Timestamp) -> (r: bool)
        ensures
            r == (self@ > other@),
    {
        self.millis > other.millis
    }

    /// Whether this timestamp lies at or after `other`.
    pub fn is_at_or_after(&self, other: &Timestamp) -> (r: bool)
        ensures
            r == (self@ >= other@),
    {
        self.millis >= other.millis
    }
}

} // verus!
