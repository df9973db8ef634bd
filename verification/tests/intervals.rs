use audiobook2srs::builder::{build, EmptyInputError};
use audiobook2srs::cue::Cue;
use audiobook2srs::planner::{plan, PlannedAction};
use audiobook2srs::timestamp::Timestamp;

fn cue(num: usize, start: u32, end: u32, text: &str) -> Cue {
    Cue {
        num,
        start: Timestamp::from_milliseconds(start),
        end: Timestamp::from_milliseconds(end),
        text: text.to_string(),
    }
}

#[test]
fn three_cue_scenario() {
    // Cues at 1.000-2.000, 2.000-3.500 and a degenerate 5.000-4.000, with
    // an offset of -200 ms.
    let cues = vec![
        Cue {
            num: 1,
            start: Timestamp::new(0, 0, 1, 0),
            end: Timestamp::new(0, 0, 2, 0),
            text: "one".to_string(),
        },
        Cue {
            num: 2,
            start: Timestamp::new(0, 0, 2, 0),
            end: Timestamp::new(0, 0, 3, 500),
            text: "two".to_string(),
        },
        Cue {
            num: 3,
            start: Timestamp::new(0, 0, 5, 0),
            end: Timestamp::new(0, 0, 4, 0),
            text: "three".to_string(),
        },
    ];
    let ivs = build(&cues, -200).unwrap();
    assert_eq!(ivs.len(), 3);
    // #1: guard not triggered since 1.000 > 0.200; [0.800, 1.800].
    assert_eq!(ivs[0].num, 1);
    assert_eq!(ivs[0].start.millis(), 800);
    assert_eq!(ivs[0].end.millis(), 1800);
    // #2: [1.800, 4.800].
    assert_eq!(ivs[1].num, 2);
    assert_eq!(ivs[1].start.millis(), 1800);
    assert_eq!(ivs[1].end.millis(), 4800);
    // #3: last cue verbatim, degenerate.
    assert_eq!(ivs[2].num, 3);
    assert_eq!(ivs[2].start.millis(), 5000);
    assert_eq!(ivs[2].end.millis(), 4000);
    // The degenerate interval gets the placeholder.
    let action = plan(&ivs[2], false, "./gen/p/p-2.mp3".to_string());
    assert_eq!(action, PlannedAction::WritePlaceholder);
}

#[test]
fn one_interval_per_cue() {
    let cues = vec![
        cue(1, 0, 1000, "a"),
        cue(2, 1000, 2000, "b"),
        cue(3, 2500, 2600, "c"),
        cue(4, 4000, 4100, "d"),
    ];
    let ivs = build(&cues, 150).unwrap();
    assert_eq!(ivs.len(), cues.len());
}

#[test]
fn gap_closed_to_next_start() {
    let cues = vec![cue(1, 1000, 1500, "a"), cue(2, 3000, 3500, "b"), cue(3, 6000, 6500, "c")];
    let ivs = build(&cues, 250).unwrap();
    assert_eq!(ivs[0].end.millis(), 3000 + 250);
    assert_eq!(ivs[1].end.millis(), 6000 + 250);
}

#[test]
fn last_interval_ignores_offset() {
    let cues = vec![cue(1, 1000, 1500, "a"), cue(2, 3000, 3500, "b")];
    let a = build(&cues, -200).unwrap();
    let b = build(&cues, 300).unwrap();
    assert_eq!(a[1], b[1]);
    assert_eq!(a[1].start.millis(), 3000);
    assert_eq!(a[1].end.millis(), 3500);
}

#[test]
fn start_guard_boundary() {
    // With offset -200 the guard threshold is 200 ms: a cue starting at
    // exactly 200 ms keeps its start, one at 201 ms is corrected.
    let cues = vec![cue(1, 200, 300, "a"), cue(2, 201, 400, "b"), cue(3, 1000, 1200, "c")];
    let ivs = build(&cues, -200).unwrap();
    assert_eq!(ivs[0].start.millis(), 200);
    assert_eq!(ivs[1].start.millis(), 1);
}

#[test]
fn positive_offset_guard() {
    // With offset +100 the guard threshold is 100 ms: a start of 100 ms is
    // kept, a start of 150 ms moves to 250 ms.
    let cues = vec![cue(1, 100, 200, "a"), cue(2, 150, 400, "b"), cue(3, 1000, 1200, "c")];
    let ivs = build(&cues, 100).unwrap();
    assert_eq!(ivs[0].start.millis(), 100);
    assert_eq!(ivs[0].end.millis(), 250);
    assert_eq!(ivs[1].start.millis(), 250);
}

#[test]
fn equal_starts_are_accepted() {
    // Two cues may share a start timestamp; the earlier one's interval
    // then closes its gap to that same start.
    let cues = vec![cue(1, 2000, 2400, "a"), cue(2, 2000, 2800, "b"), cue(3, 4000, 4500, "c")];
    let ivs = build(&cues, 100).unwrap();
    assert_eq!(ivs[0].start.millis(), 2100);
    assert_eq!(ivs[0].end.millis(), 2100);
    assert_eq!(ivs[1].start.millis(), 2100);
    assert_eq!(ivs[1].end.millis(), 4100);
}

#[test]
fn single_cue_is_verbatim() {
    // With one cue there is no next start to close a gap to: the one
    // interval repeats the cue, whatever the offset.
    let cues = vec![cue(1, 5000, 6500, "only")];
    let ivs = build(&cues, -450).unwrap();
    assert_eq!(ivs.len(), 1);
    assert_eq!(ivs[0].num, 1);
    assert_eq!(ivs[0].start.millis(), 5000);
    assert_eq!(ivs[0].end.millis(), 6500);
}

#[test]
fn ordinals_are_preserved() {
    let cues = vec![cue(7, 1000, 1500, "a"), cue(8, 3000, 3500, "b"), cue(9, 6000, 6500, "c")];
    let ivs = build(&cues, 100).unwrap();
    assert_eq!(ivs.iter().map(|iv| iv.num).collect::<Vec<_>>(), vec![7, 8, 9]);
}

#[test]
fn empty_input_rejected() {
    let cues: Vec<Cue> = Vec::new();
    assert_eq!(build(&cues, 0), Err(EmptyInputError));
}
