use desktop_music_widget::config::{self, Config};
use desktop_music_widget::library::ScanOptions;
use desktop_music_widget::screen::Rect;
use desktop_music_widget::settings::{
    combo_result, combo_selection, defaults_keeping_folders, index_of, join_warnings, list_result,
    monitor_selection, option_at, preview_label, range_text, read_int, read_numbers,
    should_restart_preview, PreviewLabel,
};

#[test]
fn index_lookup_is_total() {
    assert_eq!(index_of(&config::PLAY_MODES, "shuffle"), 1);
    assert_eq!(index_of(&config::MODES, "topmost"), 1);
    assert_eq!(index_of(&config::LANGUAGES, "nonsense"), 0);
    assert_eq!(index_of(&[], "anything"), 0);
}

#[test]
fn every_combo_source_matches_its_config_list() {
    // The combos index into these lists, so a mismatch would silently write
    // the wrong value.
    assert_eq!(config::PLAY_MODES.len(), 3);
    assert_eq!(config::SHOW_CONTROLS.len(), 2);
    assert_eq!(config::MODES.len(), 2);
    assert_eq!(config::LANGUAGES.len(), 3);
    assert_eq!(config::HOTKEY_PRESETS.len(), 2);
}

#[test]
fn invalid_range_message_names_the_bounds() {
    let message = range_text(200, 900);
    assert!(message.contains("200..900"), "got {message}");
    assert_eq!(range_text(-1, 64), "-1..64");
}

#[test]
fn combo_replies_are_clamped() {
    assert_eq!(combo_selection(3, 7), 2);
    assert_eq!(combo_selection(3, 1), 1);
    assert_eq!(combo_selection(0, 1), 0);
    assert_eq!(combo_result(-1), 0);
    assert_eq!(combo_result(2), 2);
    assert_eq!(list_result(-1), None);
    assert_eq!(list_result(4), Some(4));
    assert_eq!(option_at(&config::MODES, 9), "topmost");
    assert_eq!(option_at(&config::MODES, 0), "bottom");
}

#[test]
fn numbers_are_read_with_the_offending_range() {
    assert_eq!(read_int(" 42 "), Some(42));
    assert_eq!(read_int("-7"), Some(-7));
    assert_eq!(read_int("4x"), None);
    assert_eq!(read_numbers("340", "96", "14"), Ok((340, 96, 14)));
    assert_eq!(read_numbers("wide", "96", "14"), Err((200, 900)));
    assert_eq!(read_numbers("340", "", "14"), Err((64, 400)));
    assert_eq!(read_numbers("340", "96", "1.5"), Err((0, 200)));
}

#[test]
fn monitor_combo_selects_the_configured_screen() {
    let all = vec![
        Rect { left: -1920, top: 0, right: 0, bottom: 1080 },
        Rect { left: 0, top: 0, right: 1920, bottom: 1080 },
    ];
    assert_eq!(monitor_selection(&all, -1), 1);
    assert_eq!(monitor_selection(&all, 0), 0);
    assert_eq!(monitor_selection(&all, 9), 1);
    assert_eq!(monitor_selection(&Vec::new(), 3), 0);
}

#[test]
fn defaults_keep_the_folders() {
    let mut draft = Config::default();
    draft.library = vec!["C:\\M".into()];
    draft.exclude_dirs = vec!["Skip".into()];
    draft.width = 500;
    let reset = defaults_keeping_folders(&draft);
    assert_eq!(reset.library, draft.library);
    assert_eq!(reset.exclude_dirs, draft.exclude_dirs);
    assert_eq!(reset.width, 340);
}

#[test]
fn preview_label_and_restart() {
    assert_eq!(preview_label(true, false, 3), PreviewLabel::Scanning);
    assert_eq!(preview_label(false, true, 3), PreviewLabel::NoLibrary);
    assert_eq!(preview_label(false, false, 3), PreviewLabel::Found(3));
    let a = ScanOptions::from_config(&Config::default());
    let mut b = ScanOptions::from_config(&Config::default());
    assert!(!should_restart_preview(&a, &b, true));
    assert!(should_restart_preview(&a, &b, false));
    b.recursive = false;
    assert!(should_restart_preview(&a, &b, true));
}

#[test]
fn warnings_are_joined_with_semicolons() {
    assert_eq!(join_warnings(&vec![]), "");
    assert_eq!(join_warnings(&vec!["a".into()]), "a");
    assert_eq!(join_warnings(&vec!["a".into(), "b".into(), "c".into()]), "a; b; c");
}
