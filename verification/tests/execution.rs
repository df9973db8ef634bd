use audiobook2srs::chunker::Chunk;
use audiobook2srs::cue::Interval;
use audiobook2srs::executor::{
    chunk_outcomes, invocation_args, needs_invocation, plan_chunk, FailureReason, SegmentOutcome,
};
use audiobook2srs::planner::PlannedAction;
use audiobook2srs::timestamp::Timestamp;

fn interval(num: usize, start: u32, end: u32) -> Interval {
    Interval {
        num,
        start: Timestamp::from_milliseconds(start),
        end: Timestamp::from_milliseconds(end),
    }
}

fn mixed_chunk() -> Chunk {
    Chunk {
        base: 4,
        items: vec![
            interval(5, 1000, 2000),
            interval(6, 5000, 4000),
            interval(7, 6000, 7000),
        ],
    }
}

#[test]
fn mixed_chunk_plan() {
    let chunk = mixed_chunk();
    // The first member's output already exists; the second is degenerate.
    let exists = vec![true, false, false];
    let p = plan_chunk(&chunk, &exists, "./gen/b", "b");
    assert_eq!(p.actions.len(), 3);
    assert_eq!(p.actions[0], PlannedAction::Skip);
    assert_eq!(p.actions[1], PlannedAction::WritePlaceholder);
    assert_eq!(
        p.actions[2],
        PlannedAction::RequestTrim {
            start: "00:00:06.000".to_string(),
            end: "00:00:07.000".to_string(),
            path: "./gen/b/b-6.mp3".to_string(),
        }
    );
    // The degenerate member's path is owed the placeholder blob.
    assert_eq!(p.placeholder_paths, vec!["./gen/b/b-5.mp3".to_string()]);
    // The surviving member contributes one seven-argument trim request.
    assert_eq!(
        p.trim_args,
        vec![
            "-c".to_string(),
            "copy".to_string(),
            "-ss".to_string(),
            "00:00:06.000".to_string(),
            "-to".to_string(),
            "00:00:07.000".to_string(),
            "./gen/b/b-6.mp3".to_string(),
        ]
    );
    assert!(needs_invocation(&p));
}

#[test]
fn complete_output_plans_no_work() {
    let chunk = mixed_chunk();
    let exists = vec![true, true, true];
    let p = plan_chunk(&chunk, &exists, "./gen/b", "b");
    assert_eq!(p.actions, vec![PlannedAction::Skip, PlannedAction::Skip, PlannedAction::Skip]);
    assert!(p.placeholder_paths.is_empty());
    assert!(p.trim_args.is_empty());
    assert!(!needs_invocation(&p));
}

#[test]
fn rerun_after_full_run_is_free() {
    // Planning, "performing" every action, then planning again with every
    // output present leaves nothing to do the second time.
    let chunk = mixed_chunk();
    let first = plan_chunk(&chunk, &vec![false, false, false], "./gen/b", "b");
    assert!(needs_invocation(&first));
    // After the first run every member's output exists.
    let second = plan_chunk(&chunk, &vec![true, true, true], "./gen/b", "b");
    assert!(!needs_invocation(&second));
    assert!(second.placeholder_paths.is_empty());
}

#[test]
fn invocation_argument_order() {
    let args = invocation_args(
        "book.mp3",
        vec!["-c".to_string(), "copy".to_string()],
    );
    assert_eq!(
        args,
        vec![
            "-hide_banner".to_string(),
            "-loglevel".to_string(),
            "error".to_string(),
            "-vn".to_string(),
            "-y".to_string(),
            "-i".to_string(),
            "book.mp3".to_string(),
            "-c".to_string(),
            "copy".to_string(),
        ]
    );
}

#[test]
fn outcomes_after_successful_run() {
    let chunk = mixed_chunk();
    let p = plan_chunk(&chunk, &vec![true, false, false], "./gen/b", "b");
    let o = chunk_outcomes(&p.actions, true, &vec![true, true, true]);
    assert_eq!(
        o,
        vec![SegmentOutcome::Skipped, SegmentOutcome::Placeholder, SegmentOutcome::Trimmed]
    );
}

#[test]
fn failed_invocation_fails_only_trims() {
    let chunk = mixed_chunk();
    let p = plan_chunk(&chunk, &vec![true, false, false], "./gen/b", "b");
    let o = chunk_outcomes(&p.actions, false, &vec![true, true, true]);
    assert_eq!(
        o,
        vec![
            SegmentOutcome::Skipped,
            SegmentOutcome::Placeholder,
            SegmentOutcome::Failed(FailureReason::ExternalTool),
        ]
    );
}

#[test]
fn failed_placeholder_write_fails_its_interval() {
    let chunk = mixed_chunk();
    let p = plan_chunk(&chunk, &vec![true, false, false], "./gen/b", "b");
    let o = chunk_outcomes(&p.actions, true, &vec![true, false, true]);
    assert_eq!(
        o,
        vec![
            SegmentOutcome::Skipped,
            SegmentOutcome::Failed(FailureReason::PlaceholderWrite),
            SegmentOutcome::Trimmed,
        ]
    );
}
