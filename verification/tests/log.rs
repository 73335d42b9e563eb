use desktop_music_widget::log::{
    fmt_padded, format_line, level_tag, log_path, needs_rotation, rotated_path, stamp_text, wide,
    Level, MAX_BYTES,
};

#[test]
fn wide_strings_are_null_terminated() {
    let w = wide("hi");
    assert_eq!(w, vec![b'h' as u16, b'i' as u16, 0]);
}

#[test]
fn wide_strings_use_surrogate_pairs() {
    assert_eq!(wide("é𝄞"), vec![0xE9, 0xD834, 0xDD1E, 0]);
    assert_eq!(wide(""), vec![0]);
}

#[test]
fn stamps_are_zero_padded() {
    assert_eq!(stamp_text(2024, 3, 7, 9, 5, 2, 45), "2024-03-07 09:05:02.045");
    assert_eq!(stamp_text(12345, 12, 31, 23, 59, 59, 999), "12345-12-31 23:59:59.999");
    assert_eq!(fmt_padded(7, 3), "007");
    assert_eq!(fmt_padded(1234, 2), "1234");
    assert_eq!(fmt_padded(0, 0), "0");
}

#[test]
fn lines_carry_a_fixed_width_tag() {
    assert_eq!(
        format_line("2024-01-01 00:00:00.000", Level::Warn, "disk full"),
        "2024-01-01 00:00:00.000 WARN  disk full\n"
    );
    assert_eq!(level_tag(Level::Info).len(), level_tag(Level::Error).len());
}

#[test]
fn log_lives_in_the_config_directory_and_rotates_past_a_mebibyte() {
    assert_eq!(log_path("C:\\cfg"), "C:\\cfg\\widget.log");
    assert_eq!(rotated_path("C:\\cfg"), "C:\\cfg\\widget.log.1");
    assert!(log_path("C:\\cfg").ends_with("widget.log"));
    assert!(!needs_rotation(MAX_BYTES));
    assert!(needs_rotation(MAX_BYTES + 1));
}
