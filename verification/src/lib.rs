//! Timed audio segmentation engine.
//!
//! Turns an ordered list of timed text cues plus one long audio recording
//! into a plan for cutting the recording into one small clip per cue:
//! gap-closed, offset-corrected playback intervals; fixed-size chunks for
//! parallel dispatch; a per-interval decision to skip existing output,
//! substitute a silent placeholder, or request an external trim; and a
//! cumulative progress protocol.  All file system access, subprocess
//! invocation and threading stay with the caller: the library computes
//! decisions, argument lists and messages from plain values.

pub mod builder;
pub mod chunker;
pub mod cue;
pub mod dispatcher;
pub mod executor;
pub mod planner;
pub mod progress;
pub mod text;
pub mod timestamp;
pub mod worker;

pub use timestamp::Timestamp;
pub use timestamp::MAX_TIMESTAMP_MILLIS;
