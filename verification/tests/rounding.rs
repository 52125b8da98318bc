use sndio_host::decimal::append_decimal;
use sndio_host::rounding::{can_round_frame_count, round_frame_count, DEFAULT_ROUND_MULTIPLE};

#[test]
fn frame_counts_are_rounded_up() {
    assert_eq!(round_frame_count(1, 480), 480);
    assert_eq!(round_frame_count(479, 480), 480);
    assert_eq!(round_frame_count(480, 480), 480);
    assert_eq!(round_frame_count(481, 480), 960);
    assert_eq!(round_frame_count(1000, 480), 1440);
    assert_eq!(round_frame_count(7, 1), 7);
}

#[test]
fn no_frame_comes_to_one_round() {
    assert_eq!(round_frame_count(0, 480), 480);
    assert_eq!(round_frame_count(0, 0), 0);
}

#[test]
fn the_largest_request_is_rounded() {
    assert_eq!(round_frame_count(u32::MAX, 1), u32::MAX as usize);
    assert_eq!(
        round_frame_count(u32::MAX, u32::MAX as usize),
        u32::MAX as usize
    );
}

#[test]
fn rounding_twice_changes_nothing() {
    for requested in [0, 1, 479, 480, 481, 5000] {
        let once = round_frame_count(requested, 480);
        assert_eq!(round_frame_count(once as u32, 480), once);
        assert_eq!(once % 480, 0);
        assert!(once >= requested as usize);
    }
}

#[test]
fn nothing_is_a_multiple_of_no_frames() {
    assert!(!can_round_frame_count(1, 0));
    assert!(can_round_frame_count(0, 0));
    assert!(can_round_frame_count(1, 480));
    assert_eq!(DEFAULT_ROUND_MULTIPLE, 2);
}

#[test]
fn numbers_are_written_in_decimal() {
    for n in [0, 1, 9, 10, 24, 100, 48000, u32::MAX] {
        let mut text = "n=".to_string();
        append_decimal(&mut text, n);
        assert_eq!(text, format!("n={}", n));
    }
}
