use desktop_music_widget::autostart::{
    check, delete_outcome, ensure, from_le_bytes, run_value_for, to_le_bytes, trim_nuls,
    LEGACY_VALUE_NAME, RUN_KEY, VALUE_NAME,
};
use desktop_music_widget::text::wide;

#[test]
fn run_value_is_quoted_so_spaces_survive() {
    let v = run_value_for(r"C:\Program Files\DesktopMusicWidget\app.exe");
    assert_eq!(
        v, r#""C:\Program Files\DesktopMusicWidget\app.exe""#,
        "an unquoted path with spaces would not launch"
    );
}

#[test]
fn value_names_are_the_public_and_legacy_ones() {
    assert_eq!(VALUE_NAME, "DesktopMusicWidget");
    assert_eq!(LEGACY_VALUE_NAME, "HorizMusicWidget");
    assert_eq!(RUN_KEY, r"Software\Microsoft\Windows\CurrentVersion\Run");
}

#[test]
fn error_code_zero_is_success() {
    assert!(check(0).is_ok());
    assert!(check(5).is_err());
    assert_eq!(check(5), Err(5));
}

#[test]
fn disabled_autostart_never_touches_the_registry() {
    // Nothing is written when off, whatever the registry holds.
    assert_eq!(ensure(false, None, r"C:\a.exe"), None);
    assert_eq!(ensure(false, Some("stale"), r"C:\a.exe"), None);
}

#[test]
fn enabled_autostart_adds_or_repairs_the_entry() {
    assert_eq!(ensure(true, None, r"C:\a.exe"), Some(r#""C:\a.exe""#.to_string()));
    assert_eq!(ensure(true, Some(r#""D:\old.exe""#), r"C:\a.exe"), Some(r#""C:\a.exe""#.to_string()));
    assert_eq!(ensure(true, Some(r#""C:\a.exe""#), r"C:\a.exe"), None);
}

#[test]
fn deleting_a_missing_value_succeeds() {
    assert!(delete_outcome(0).is_ok());
    assert!(delete_outcome(2).is_ok());
    assert_eq!(delete_outcome(5), Err(5));
}

#[test]
fn registry_text_round_trips_through_bytes() {
    let words = wide("ab€");
    let bytes = to_le_bytes(&words);
    assert_eq!(bytes, vec![b'a', 0, b'b', 0, 0xAC, 0x20, 0, 0]);
    assert_eq!(from_le_bytes(&bytes), words);
    let mut odd = bytes.clone();
    odd.push(7);
    assert_eq!(from_le_bytes(&odd), words, "a dangling byte is ignored");
    let text = String::from_utf16_lossy(&from_le_bytes(&bytes));
    assert_eq!(trim_nuls(&text), "ab€");
    assert_eq!(trim_nuls("x\0\0"), "x");
    assert_eq!(trim_nuls("\0"), "");
}
