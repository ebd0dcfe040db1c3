use m3u8_dl::commands::{
    dir_label, exit_command_line, format_bytes, format_duration, segment_command_line,
};

fn parts(p: &[&str]) -> Vec<String> {
    p.iter().map(|s| s.to_string()).collect()
}

#[test]
fn exit_hook_renders_directory_time_and_size() {
    let dir = parts(&["/", "data", "rec", "show1"]);
    assert_eq!(
        exit_command_line("%d %t %s", 3725, 1572864, &dir),
        "rec/show1 1:02:05 1.50 MB"
    );
}

#[test]
fn exit_hook_raw_bytes_and_mebibytes() {
    let dir = parts(&["out"]);
    assert_eq!(
        exit_command_line("%b/%m in %d after %t", 59, 5 * 1048576 + 7, &dir),
        "5242887/5 in out after 0:59"
    );
}

#[test]
fn exit_hook_without_directory_components() {
    assert_eq!(exit_command_line("[%d]", 0, 0, &Vec::new()), "[.]");
}

#[test]
fn dir_label_cases() {
    assert_eq!(dir_label(&parts(&["a", "b", "c"])), "b/c");
    assert_eq!(dir_label(&parts(&["only"])), "only");
    assert_eq!(dir_label(&Vec::new()), ".");
}

#[test]
fn bytes_in_binary_units() {
    assert_eq!(format_bytes(0), "0 B");
    assert_eq!(format_bytes(1023), "1023 B");
    assert_eq!(format_bytes(1024), "1.00 KB");
    assert_eq!(format_bytes(1536), "1.50 KB");
    assert_eq!(format_bytes(1572864), "1.50 MB");
    assert_eq!(format_bytes(1073741824), "1.00 GB");
    assert_eq!(format_bytes(3 * 1073741824 + 1073741824 / 4), "3.25 GB");
}

#[test]
fn bytes_round_to_hundredths() {
    // 1.12890625 KB
    assert_eq!(format_bytes(1156), "1.13 KB");
    // 1.0009765625 KB
    assert_eq!(format_bytes(1025), "1.00 KB");
    // exactly 1.125 KB: the tie goes to the even hundredth
    assert_eq!(format_bytes(1152), "1.12 KB");
    assert_eq!(format_bytes(u64::MAX), "17179869184.00 GB");
}

#[test]
fn durations() {
    assert_eq!(format_duration(0), "0:00");
    assert_eq!(format_duration(59), "0:59");
    assert_eq!(format_duration(61), "1:01");
    assert_eq!(format_duration(3599), "59:59");
    assert_eq!(format_duration(3600), "1:00:00");
    assert_eq!(format_duration(3725), "1:02:05");
    assert_eq!(format_duration(100 * 3600 + 5), "100:00:05");
}

#[test]
fn segment_hook_replaces_every_placeholder() {
    assert_eq!(
        segment_command_line("cp {} /archive/{}", "/rec/a_0.ts"),
        "cp /rec/a_0.ts /archive//rec/a_0.ts"
    );
    assert_eq!(segment_command_line("echo done", "/x"), "echo done");
    assert_eq!(segment_command_line("{{}}", "p"), "{p}");
}
