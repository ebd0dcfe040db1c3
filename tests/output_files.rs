use m3u8_dl::output::{format_filename, join_path, OutputFile, StartStamp};

fn stamp() -> StartStamp {
    StartStamp { year: 2024, month: 3, day: 5, hour: 9, minute: 7 }
}

#[test]
fn file_names_carry_start_and_index() {
    assert_eq!(format_filename(&stamp(), 0, "ts"), "2024_03_05-09_07_0.ts");
    assert_eq!(format_filename(&stamp(), 12, "mp4"), "2024_03_05-09_07_12.mp4");
    let late = StartStamp { year: 2031, month: 12, day: 31, hour: 23, minute: 59 };
    assert_eq!(format_filename(&late, 3, "ts"), "2031_12_31-23_59_3.ts");
}

#[test]
fn paths_join_with_one_slash() {
    assert_eq!(join_path("out", "a.ts"), "out/a.ts");
    assert_eq!(join_path("out/", "a.ts"), "out/a.ts");
    assert_eq!(join_path("", "a.ts"), "a.ts");
    assert_eq!(join_path("/", "a.ts"), "/a.ts");
}

#[test]
fn rotation_is_time_triggered_and_indices_have_no_gaps() {
    let mut out = OutputFile::new("ts".to_string(), "rec".to_string(), 1000, stamp(), 4, 0);
    assert_eq!(out.current_path(), "rec/2024_03_05-09_07_4.ts");
    out.write(&[1, 2, 3]);
    assert_eq!(out.maybe_rotate(999), None);
    assert_eq!(out.maybe_rotate(1000), Some("rec/2024_03_05-09_07_4.ts".to_string()));
    assert_eq!(out.segment_index(), 5);
    // the window restarted at 1000
    assert_eq!(out.maybe_rotate(1999), None);
    out.write(&[4; 10]);
    assert_eq!(out.maybe_rotate(2500), Some("rec/2024_03_05-09_07_5.ts".to_string()));
    assert_eq!(out.segment_index(), 6);
    assert_eq!(out.current_path(), "rec/2024_03_05-09_07_6.ts");
    assert_eq!(out.total_bytes(), 13);
}

#[test]
fn zero_duration_rotates_on_every_check() {
    let mut out = OutputFile::new("ts".to_string(), "".to_string(), 0, stamp(), 0, 50);
    assert!(out.maybe_rotate(50).is_some());
    assert!(out.maybe_rotate(50).is_some());
    assert_eq!(out.segment_index(), 2);
}

#[test]
fn finalize_is_idempotent() {
    let mut out = OutputFile::new("ts".to_string(), "d".to_string(), 60000, stamp(), 0, 0);
    out.write(&[0; 100]);
    assert!(!out.finalized());
    let first = out.finalize();
    let second = out.finalize();
    assert_eq!(first, "d/2024_03_05-09_07_0.ts");
    assert_eq!(first, second);
    assert!(out.finalized());
    assert_eq!(out.total_bytes(), 100);
}

#[test]
fn years_past_four_digits_carry_a_sign() {
    let far = StartStamp { year: 12345, month: 1, day: 2, hour: 3, minute: 4 };
    assert_eq!(format_filename(&far, 0, "ts"), "+12345_01_02-03_04_0.ts");
    let early = StartStamp { year: 987, month: 1, day: 2, hour: 3, minute: 4 };
    assert_eq!(format_filename(&early, 0, "ts"), "0987_01_02-03_04_0.ts");
}
