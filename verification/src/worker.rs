//! The background worker's decision logic: which job each request names,
//! which follow-up event it reports when done, and the argument lists of
//! the media-tool invocations it issues.  The worker's event loop, its
//! subprocesses and its message channel live with the caller; the
//! decisions here are pure.

use vstd::prelude::*;
use crate::text::str_views;

verus! {

/// Relies on std's `String::push`: it appends exactly the one character
/// to the end of the string.  vstd gives `push` no specification of its
/// own.
pub assume_specification[ String::push ](s: &mut String, c: char)
    ensures
        final(s)@ == old(s)@.push(c),
;

/// The arguments of one segmentation run.  One signed millisecond offset
/// corrects both boundaries of every non-terminal interval; a separate
/// end-side offset is deliberately not part of the engine, so that every
/// accepted input drives the correction.
#[derive(Clone, Debug)]
pub struct MyArgs {
    /// Path of the continuous audio source; never mutated.
    pub audiobook: String,
    /// Path of the timed-cue source file.
    pub subtitle: String,
    /// Name stem of every output clip.
    pub prefix: String,
    /// Signed millisecond offset applied to interval boundaries.
    pub start_offset: i32,
}

/// A request to the background worker.
#[derive(Clone, Debug)]
pub enum AsyncHandlerInMsg {
    /// Extract a cover image from the audio container: source path and
    /// output name stem.
    GenImage(String, String),
    /// Assemble the distributable package: name stem and cue source path.
    GenDeck(String, String),
    /// Re-encode the audio source to a format the trim tool copies from:
    /// source path.
    ConvertMP3(String),
    /// Run the segmentation engine: run arguments and audio source path.
    SplitAudio(MyArgs, String),
}

/// The event the worker reports to its caller after finishing a request,
/// driving the next stage of the pipeline.
#[derive(Clone, Copy, Debug, PartialEq, Eq, Structural)]
pub enum FollowUp {
    StartConversion,
    StartAudioSplit,
    StartGenDeck,
}

/// A name stem with every space replaced by an underscore, so that it can
/// stand in file names and tool arguments unquoted.
pub open spec fn sanitized(s: Seq<char>) -> Seq<char> {
    s.map_values(|c: char| if c == ' ' { '_' } else { c })
}

/// Replaces every space of the chosen name stem with an underscore.
pub fn sanitize_prefix(prefix: &str) -> (r: String)
    ensures
        r@ == sanitized(prefix@),
{
    let n = prefix.unicode_len();
    let mut out = String::new();
    for i in 0..n
        invariant
            n == prefix@.len(),
            out@ == sanitized(prefix@.take(i as int)),
    {
        let c = prefix.get_char(i);
        if c == ' ' {
            out.push('_');
        } else {
            out.push(c);
        }
        proof {
            assert(out@ =~= sanitized(prefix@.take(i as int + 1)));
        }
    }
    proof {
        assert(prefix@.take(n as int) =~= prefix@);
    }
    out
}

/// Whether every field a run needs has been supplied: a non-empty name
/// stem and both source paths.
pub fn fields_complete(prefix: &str, audio: &str, subtitle: &str) -> (r: bool)
    ensures
        r == (prefix@.len() > 0 && audio@.len() > 0 && subtitle@.len() > 0),
{
    !prefix.is_empty() && !audio.is_empty() && !subtitle.is_empty()
}

/// A path that names an `m4b` audio container: it ends in `.m4b`.
pub open spec fn is_m4b(path: Seq<char>) -> bool {
    path.len() >= 4 && path.subrange(path.len() - 4, path.len() as int) == ".m4b"@
}

/// The path such a container is re-encoded to: the same name with the
/// extension replaced by `mp3`.
pub open spec fn converted_path(path: Seq<char>) -> Seq<char> {
    path.subrange(0, path.len() - 3) + "mp3"@
}

/// The background worker.  It owns no state: each request is handled in
/// full before the next, and everything it decides is a function of the
/// request alone.
pub struct AsyncHandler;

impl AsyncHandler {
    /// The stage each finished request triggers: a fresh cover image
    /// starts the audio conversion, a converted source starts the split,
    /// a finished split starts the package build, and a finished package
    /// ends the pipeline.
    pub fn follow_up(msg: &AsyncHandlerInMsg) -> (r: Option<FollowUp>)
        ensures
            r == match msg {
                AsyncHandlerInMsg::GenImage(..) => Some(FollowUp::StartConversion),
                AsyncHandlerInMsg::ConvertMP3(..) => Some(FollowUp::StartAudioSplit),
                AsyncHandlerInMsg::SplitAudio(..) => Some(FollowUp::StartGenDeck),
                AsyncHandlerInMsg::GenDeck(..) => None::<FollowUp>,
            },
    {
        match msg {
            AsyncHandlerInMsg::GenImage(..) => Some(FollowUp::StartConversion),
            AsyncHandlerInMsg::ConvertMP3(..) => Some(FollowUp::StartAudioSplit),
            AsyncHandlerInMsg::SplitAudio(..) => Some(FollowUp::StartGenDeck),
            AsyncHandlerInMsg::GenDeck(..) => None,
        }
    }

    /// The media-tool arguments that copy the embedded cover art of
    /// `audio` to `{prefix}.jpg` without touching the audio streams.
    pub fn cover_args(audio: &str, prefix: &str) -> (r: Vec<String>)
        ensures
            str_views(r@) == seq![
                "-y"@,
                "-i"@,
                audio@,
                "-an"@,
                "-vcodec"@,
                "copy"@,
                prefix@ + ".jpg"@,
            ],
    {
        let mut r: Vec<String> = Vec::new();
        r.push(String::from_str("-y"));
        r.push(String::from_str("-i"));
        r.push(String::from_str(audio));
        r.push(String::from_str("-an"));
        r.push(String::from_str("-vcodec"));
        r.push(String::from_str("copy"));
        let cover = String::from_str(prefix);
        r.push(cover.concat(".jpg"));
        proof {
            assert(str_views(r@) =~= seq![
                "-y"@,
                "-i"@,
                audio@,
                "-an"@,
                "-vcodec"@,
                "copy"@,
                prefix@ + ".jpg"@,
            ]);
        }
        r
    }

    /// The media-tool arguments that re-encode `input` into `output`
    /// quietly, audio only, refusing to overwrite existing output.
    pub fn transcode_args(input: &str, output: &str) -> (r: Vec<String>)
        ensures
            str_views(r@) == seq![
                "-stats"@,
                "-v"@,
                "quiet"@,
                "-n"@,
                "-i"@,
                input@,
                "-vn"@,
                "-acodec"@,
                "libmp3lame"@,
                output@,
            ],
    {
        let mut r: Vec<String> = Vec::new();
        r.push(String::from_str("-stats"));
        r.push(String::from_str("-v"));
        r.push(String::from_str("quiet"));
        r.push(String::from_str("-n"));
        r.push(String::from_str("-i"));
        r.push(String::from_str(input));
        r.push(String::from_str("-vn"));
        r.push(String::from_str("-acodec"));
        r.push(String::from_str("libmp3lame"));
        r.push(String::from_str(output));
        proof {
            assert(str_views(r@) =~= seq![
                "-stats"@,
                "-v"@,
                "quiet"@,
                "-n"@,
                "-i"@,
                input@,
                "-vn"@,
                "-acodec"@,
                "libmp3lame"@,
                output@,
            ]);
        }
        r
    }

    /// Whether `path` names an `m4b` container that must be re-encoded
    /// before the trim tool can copy from it.
    pub fn needs_conversion(path: &str) -> (r: bool)
        ensures
            r == is_m4b(path@),
    {
        proof {
            reveal_strlit(".m4b");
        }
        let n = path.unicode_len();
        if n < 4 {
            return false;
        }
        let r = path.get_char(n - 4) == '.' && path.get_char(n - 3) == 'm' && path.get_char(n - 2)
            == '4' && path.get_char(n - 1) == 'b';
        proof {
            let s = path@.subrange(path@.len() - 4, path@.len() as int);
            if r {
                assert(s =~= ".m4b"@);
            } else {
                assert(s[0] == path@[path@.len() - 4]);
                assert(s[1] == path@[path@.len() - 3]);
                assert(s[2] == path@[path@.len() - 2]);
                assert(s[3] == path@[path@.len() - 1]);
                if s == ".m4b"@ {
                    assert(s[0] == '.' && s[1] == 'm' && s[2] == '4' && s[3] == 'b');
                    assert(false);
                }
            }
        }
        r
    }

    /// The audio path the split runs against: the re-encoded `mp3`
    /// counterpart for an `m4b` container, the path itself otherwise.
    pub fn effective_audio_path(path: &str) -> (r: String)
        ensures
            is_m4b(path@) ==> r@ == converted_path(path@),
            !is_m4b(path@) ==> r@ == path@,
    {
        if AsyncHandler::needs_conversion(path) {
            proof {
                reveal_strlit("mp3");
            }
            let n = path.unicode_len();
            let stem = path.substring_char(0, n - 3);
            let out = String::from_str(stem);
            out.concat("mp3")
        } else {
            String::from_str(path)
        }
    }
}

} // verus!
