use audiobook2srs::worker::{
    fields_complete, sanitize_prefix, AsyncHandler, AsyncHandlerInMsg, FollowUp, MyArgs,
};

fn args() -> MyArgs {
    MyArgs {
        audiobook: "book.mp3".to_string(),
        subtitle: "book.srt".to_string(),
        prefix: "book".to_string(),
        start_offset: -200,
    }
}

#[test]
fn requests_drive_the_pipeline_in_order() {
    let gen_image = AsyncHandlerInMsg::GenImage("book.m4b".to_string(), "book".to_string());
    assert_eq!(AsyncHandler::follow_up(&gen_image), Some(FollowUp::StartConversion));
    let convert = AsyncHandlerInMsg::ConvertMP3("book.m4b".to_string());
    assert_eq!(AsyncHandler::follow_up(&convert), Some(FollowUp::StartAudioSplit));
    let split = AsyncHandlerInMsg::SplitAudio(args(), "book.mp3".to_string());
    assert_eq!(AsyncHandler::follow_up(&split), Some(FollowUp::StartGenDeck));
    let deck = AsyncHandlerInMsg::GenDeck("book".to_string(), "book.srt".to_string());
    assert_eq!(AsyncHandler::follow_up(&deck), None);
}

#[test]
fn cover_extraction_arguments() {
    assert_eq!(
        AsyncHandler::cover_args("book.m4b", "book"),
        vec![
            "-y".to_string(),
            "-i".to_string(),
            "book.m4b".to_string(),
            "-an".to_string(),
            "-vcodec".to_string(),
            "copy".to_string(),
            "book.jpg".to_string(),
        ]
    );
}

#[test]
fn transcode_arguments() {
    assert_eq!(
        AsyncHandler::transcode_args("book.m4b", "book.mp3"),
        vec![
            "-stats".to_string(),
            "-v".to_string(),
            "quiet".to_string(),
            "-n".to_string(),
            "-i".to_string(),
            "book.m4b".to_string(),
            "-vn".to_string(),
            "-acodec".to_string(),
            "libmp3lame".to_string(),
            "book.mp3".to_string(),
        ]
    );
}

#[test]
fn only_m4b_needs_conversion() {
    assert!(AsyncHandler::needs_conversion("book.m4b"));
    assert!(!AsyncHandler::needs_conversion("book.mp3"));
    assert!(!AsyncHandler::needs_conversion("m4b"));
    assert!(!AsyncHandler::needs_conversion(""));
}

#[test]
fn prefix_spaces_become_underscores() {
    assert_eq!(sanitize_prefix("My Audiobook"), "My_Audiobook");
    assert_eq!(sanitize_prefix("one two three"), "one_two_three");
    assert_eq!(sanitize_prefix("plain"), "plain");
    assert_eq!(sanitize_prefix(""), "");
}

#[test]
fn mandatory_fields_gate_the_run() {
    assert!(fields_complete("book", "book.mp3", "book.srt"));
    assert!(!fields_complete("", "book.mp3", "book.srt"));
    assert!(!fields_complete("book", "", "book.srt"));
    assert!(!fields_complete("book", "book.mp3", ""));
}

#[test]
fn split_runs_against_converted_container() {
    assert_eq!(AsyncHandler::effective_audio_path("tale.m4b"), "tale.mp3");
    assert_eq!(AsyncHandler::effective_audio_path("tale.mp3"), "tale.mp3");
    assert_eq!(AsyncHandler::effective_audio_path("dir/x.m4b"), "dir/x.mp3");
}
