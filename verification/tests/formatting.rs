use audiobook2srs::text::{clip_path, decimal_string, progress_line, timestamp_string};
use audiobook2srs::timestamp::Timestamp;

#[test]
fn decimal_plain() {
    assert_eq!(decimal_string(0), "0");
    assert_eq!(decimal_string(7), "7");
    assert_eq!(decimal_string(25), "25");
    assert_eq!(decimal_string(1234567), "1234567");
}

#[test]
fn timestamp_uses_decimal_point() {
    let t = Timestamp::new(1, 2, 3, 45);
    assert_eq!(timestamp_string(&t), "01:02:03.045");
}

#[test]
fn timestamp_pads_every_field() {
    assert_eq!(timestamp_string(&Timestamp::new(0, 0, 0, 0)), "00:00:00.000");
    assert_eq!(timestamp_string(&Timestamp::new(0, 0, 0, 800)), "00:00:00.800");
    assert_eq!(timestamp_string(&Timestamp::new(0, 0, 4, 800)), "00:00:04.800");
    assert_eq!(timestamp_string(&Timestamp::new(12, 34, 56, 789)), "12:34:56.789");
}

#[test]
fn timestamp_wide_hours() {
    // Hours are padded to two places but may take three.
    assert_eq!(timestamp_string(&Timestamp::new(255, 59, 59, 999)), "255:59:59.999");
}

#[test]
fn clip_path_layout() {
    assert_eq!(clip_path("./gen/book", "book", 0), "./gen/book/book-0.mp3");
    assert_eq!(clip_path("./gen/book", "book", 137), "./gen/book/book-137.mp3");
}

#[test]
fn progress_line_text() {
    assert_eq!(progress_line(5, 120), "5/120 completed!\n");
    assert_eq!(progress_line(120, 120), "120/120 completed!\n");
}
