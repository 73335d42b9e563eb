use desktop_music_widget::config::{
    choose_dir, config_path, invalid_enum_message, is_blank,
    respelled_enum_message, legacy_config_path, load_source, migrate, migrate_with,
    needs_rewrite, normalized_extensions, validate, validate_rest, validate_shape, Config, LoadNote,
    CONFIG_VERSION, DEFAULT_EXTENSIONS, HEIGHT_RANGE, WIDTH_RANGE,
};

fn strings(v: &[&str]) -> Vec<String> {
    v.iter().map(|s| s.to_string()).collect()
}

#[test]
fn defaults_round_trip_unchanged() {
    let cfg = Config::default();
    let mut copy = cfg.clone();
    assert_eq!(validate(&mut copy), Vec::<String>::new());
    assert_eq!(copy.extensions, cfg.extensions);
    assert_eq!(copy.play_mode, cfg.play_mode);
    assert_eq!(copy.width, cfg.width);
}

#[test]
fn default_library_is_empty_not_a_personal_path() {
    let cfg = Config::default();
    assert!(cfg.library.is_empty(), "must not ship a hardcoded folder");
    assert!(cfg.needs_library_setup());
}

#[test]
fn default_extensions_match_the_compiled_decoders() {
    let cfg = Config::default();
    assert!(cfg.extensions.contains(&"m4a".to_string()));
    assert!(cfg.extensions.contains(&"aiff".to_string()));
    // The decoders cannot handle these, so they must not be advertised.
    assert!(!cfg.extensions.contains(&"opus".to_string()));
    assert!(!cfg.extensions.contains(&"wma".to_string()));
}

#[test]
fn v1_shuffle_true_becomes_shuffle_mode() {
    let v1 = r#"
            library = ['F:\Music']
            mode = "bottom"
            anchor = "top-center"
            offset_x = 0
            offset_y = 24
            width = 340
            height = 96
            corner_radius = 14.0
            card_opacity = 0.78
            shuffle = true
            volume = 35
            show_controls = "hover"
        "#;
    let parsed = Config {
        config_version: 0,
        library: strings(&["F:\\Music"]),
        volume: 35,
        play_mode: "sequential".to_string(),
        ..Config::default()
    };
    let cfg = migrate(parsed, v1);
    assert_eq!(cfg.config_version, CONFIG_VERSION);
    assert_eq!(cfg.play_mode, "shuffle");
    assert_eq!(cfg.library, vec!["F:\\Music".to_string()]);
    assert_eq!(cfg.volume, 35, "other v1 fields must survive");
    assert!(cfg.autoplay, "autoplay is new and defaults to on");
}

#[test]
fn v1_shuffle_false_becomes_sequential() {
    let v1 = "shuffle = false\n";
    let parsed = Config {
        config_version: 0,
        ..Config::default()
    };
    assert_eq!(
        parsed.config_version, 0,
        "a file without config_version must be recognised as v1"
    );
    assert_eq!(migrate(parsed, v1).play_mode, "sequential");
}

#[test]
fn v1_without_shuffle_keeps_the_old_default_of_on() {
    let v1 = "library = ['C:\\M']\n";
    let parsed = Config {
        config_version: 0,
        library: strings(&["C:\\M"]),
        ..Config::default()
    };
    assert_eq!(migrate(parsed, v1).play_mode, "shuffle");
}

#[test]
fn already_current_config_is_not_migrated_again() {
    let text = "config_version = 2\nplay_mode = \"repeat-one\"\n\nshuffle = true\n";
    let parsed = Config {
        play_mode: "repeat-one".into(),
        ..Config::default()
    };
    // Even with a stray legacy key present, v2 must be left alone.
    assert_eq!(migrate(parsed, text).play_mode, "repeat-one");
}

#[test]
fn unreadable_text_leaves_the_play_mode_alone() {
    let parsed = Config {
        config_version: 1,
        play_mode: "repeat-one".into(),
        ..Config::default()
    };
    let cfg = migrate(parsed, "this is = = not toml");
    assert_eq!(cfg.play_mode, "repeat-one");
    assert_eq!(cfg.config_version, CONFIG_VERSION);
    let nested = Config {
        config_version: 0,
        play_mode: "sequential".into(),
        ..Config::default()
    };
    // Only a top-level key counts.
    assert_eq!(migrate(nested, "[theme]\nshuffle = true\n").play_mode, "sequential");
}

#[test]
fn migrate_with_a_flag_already_read() {
    let old = Config {
        config_version: 1,
        ..Config::default()
    };
    assert_eq!(migrate_with(old.clone(), Some(false)).play_mode, "sequential");
    assert_eq!(migrate_with(old.clone(), Some(true)).play_mode, "shuffle");
    assert_eq!(migrate_with(old, None).play_mode, "shuffle");
    let current = Config {
        play_mode: "repeat-one".into(),
        ..Config::default()
    };
    assert_eq!(migrate_with(current, Some(true)).play_mode, "repeat-one");
}

#[test]
fn invalid_enum_falls_back_and_is_reported() {
    let mut cfg = Config {
        play_mode: "party".into(),
        mode: "floating".into(),
        anchor: "middle".into(),
        show_controls: "sometimes".into(),
        language: "fr".into(),
        hotkey_preset: "vim".into(),
        ..Config::default()
    };
    let w = validate(&mut cfg);
    assert_eq!(w.len(), 6, "each bad enum reports once: {w:?}");
    assert_eq!(cfg.play_mode, "shuffle");
    assert_eq!(cfg.mode, "bottom");
    assert_eq!(cfg.anchor, "top-center");
    assert_eq!(cfg.show_controls, "hover");
    assert_eq!(cfg.language, "auto");
    assert_eq!(cfg.hotkey_preset, "ctrl-alt");
    assert_eq!(w[0], "language = \"fr\" 无效，已改为 \"auto\"");
}

#[test]
fn enum_spelling_is_made_canonical() {
    let mut cfg = Config {
        language: " ZH-cn ".into(),
        play_mode: "Repeat-One".into(),
        mode: "TOPMOST".into(),
        ..Config::default()
    };
    let w = validate(&mut cfg);
    assert_eq!(
        w,
        vec![
            "language = \" ZH-cn \" 已改为 \"zh-CN\"".to_string(),
            "play_mode = \"Repeat-One\" 已改为 \"repeat-one\"".to_string(),
            "mode = \"TOPMOST\" 已改为 \"topmost\"".to_string(),
        ]
    );
    assert_eq!(cfg.language, "zh-CN");
    assert_eq!(cfg.play_mode, "repeat-one");
    assert_eq!(cfg.mode, "topmost");
}

#[test]
fn numbers_are_clamped_into_range() {
    let mut cfg = Config {
        width: 99999,
        height: 1,
        volume: 500,
        monitor: -7,
        ..Config::default()
    };
    let w = validate(&mut cfg);
    assert_eq!(cfg.width, WIDTH_RANGE.1);
    assert_eq!(cfg.height, HEIGHT_RANGE.0);
    assert_eq!(cfg.volume, 100);
    assert_eq!(cfg.monitor, -1);
    assert!(!w.is_empty());
    assert_eq!(w[0], "width = 99999 超出范围 200..=900，已改为 900");
    assert_eq!(w[1], "height = 1 超出范围 64..=400，已改为 64");
    assert_eq!(w[2], "monitor = -7 超出范围 -1..=64，已改为 -1");
    assert_eq!(w[3], "volume = 500 超出 0..100，已改为 100");
}

#[test]
fn extensions_are_normalised() {
    let mut cfg = Config {
        extensions: vec![" .MP3 ".into(), "flac".into(), "mp3".into(), "".into()],
        ..Config::default()
    };
    validate(&mut cfg);
    assert_eq!(cfg.extensions, vec!["mp3".to_string(), "flac".to_string()]);
}

#[test]
fn empty_extension_list_is_restored() {
    let mut cfg = Config {
        extensions: vec!["  ".into()],
        ..Config::default()
    };
    let w = validate(&mut cfg);
    assert!(!cfg.extensions.is_empty());
    assert!(w.iter().any(|m| m.contains("extensions")));
    assert_eq!(cfg.extensions, strings(&DEFAULT_EXTENSIONS));
}

#[test]
fn library_blanks_and_duplicates_are_cleaned() {
    let mut cfg = Config {
        library: vec!["C:\\M".into(), "  ".into(), "C:\\M".into(), "D:\\N".into()],
        ..Config::default()
    };
    let w = validate(&mut cfg);
    assert_eq!(cfg.library, vec!["C:\\M".to_string(), "D:\\N".to_string()]);
    assert_eq!(w, vec!["library 中的空白或重复项已清理".to_string()]);
}

#[test]
fn unreachable_library_folders_are_kept() {
    let mut cfg = Config {
        library: vec!["Z:\\definitely\\not\\here".into()],
        ..Config::default()
    };
    validate(&mut cfg);
    assert_eq!(cfg.library.len(), 1);
}

#[test]
fn blank_font_and_excludes_are_repaired() {
    let mut cfg = Config {
        font_family: " \t ".into(),
        exclude_dirs: vec![" Podcasts ".into(), "".into(), "Podcasts".into()],
        ..Config::default()
    };
    let w = validate(&mut cfg);
    assert_eq!(cfg.font_family, "Segoe UI");
    assert_eq!(cfg.exclude_dirs, vec!["Podcasts".to_string()]);
    assert_eq!(
        w,
        vec![
            "font_family 为空，已改为 Segoe UI".to_string(),
            "exclude_dirs 中的空白或重复项已清理".to_string(),
        ]
    );
}

#[test]
fn the_two_halves_make_the_whole() {
    let start = Config {
        width: 10,
        volume: 101,
        anchor: "FREE".into(),
        ..Config::default()
    };
    let mut whole = start.clone();
    let w = validate(&mut whole);
    let mut halves = start;
    let mut w2 = validate_shape(&mut halves);
    w2.extend(validate_rest(&mut halves));
    assert_eq!(w, w2);
    assert_eq!(whole.anchor, "free");
    assert_eq!(halves.anchor, "free");
    assert_eq!(whole.width, halves.width);
    assert_eq!(whole.volume, halves.volume);
}

#[test]
fn normalising_extensions_drops_blanks() {
    let v = strings(&["..OGG", " ", "Flac"]);
    assert_eq!(normalized_extensions(&v), strings(&["ogg", "flac"]));
}

#[test]
fn dir_precedence_is_flag_then_portable_then_env_then_exe_then_appdata() {
    let exe = "C:\\app";
    let appdata = "C:\\Users\\x\\AppData\\Roaming";
    let flag = "C:\\flag";

    assert_eq!(
        choose_dir(Some(flag), true, Some("C:\\env"), exe, false, appdata),
        "C:\\flag"
    );
    assert_eq!(
        choose_dir(None, true, Some("C:\\env"), exe, false, appdata),
        "C:\\app",
        "--portable wins over the env var"
    );
    assert_eq!(
        choose_dir(None, false, Some("C:\\env"), exe, false, appdata),
        "C:\\env"
    );
    assert_eq!(
        choose_dir(None, false, Some("   "), exe, false, appdata),
        "C:\\Users\\x\\AppData\\Roaming\\DesktopMusicWidget",
        "a blank env var is ignored"
    );
    assert_eq!(
        choose_dir(None, false, None, exe, false, appdata),
        "C:\\Users\\x\\AppData\\Roaming\\DesktopMusicWidget",
        "no config.toml next to the exe means %APPDATA%"
    );
    assert_eq!(
        choose_dir(None, false, None, exe, true, appdata),
        "C:\\app",
        "a config.toml next to the exe means portable"
    );
    assert_eq!(
        choose_dir(None, false, Some("  D:\\cfg  "), exe, true, appdata),
        "D:\\cfg"
    );
}

#[test]
fn legacy_path_is_under_the_old_app_name() {
    let p = legacy_config_path("C:\\Users\\x\\AppData\\Roaming");
    assert!(p.contains("HorizMusicWidget"));
    assert!(p.contains("config.toml"));
    assert_eq!(p, "C:\\Users\\x\\AppData\\Roaming\\HorizMusicWidget\\config.toml");
}

#[test]
fn config_file_sits_in_its_directory() {
    assert_eq!(config_path("C:\\cfg"), "C:\\cfg\\config.toml");
    assert_eq!(config_path("C:\\cfg\\"), "C:\\cfg\\config.toml");
    assert_eq!(config_path("C:"), "C:config.toml");
    assert_eq!(config_path("."), ".\\config.toml");
}

#[test]
fn loading_prefers_the_current_file_then_the_legacy_one() {
    let (t, n) = load_source(Some("a = 1".into()), Some("b = 2".into()));
    assert_eq!((t.as_str(), n), ("a = 1", LoadNote::Loaded));
    let (t, n) = load_source(None, Some("b = 2".into()));
    assert_eq!((t.as_str(), n), ("b = 2", LoadNote::MigratedLegacy));
    let (t, n) = load_source(None, None);
    assert_eq!((t.as_str(), n), ("", LoadNote::Fresh));
    assert!(is_blank(" \n\t"));
    assert!(!is_blank(" x "));
    assert!(!needs_rewrite(LoadNote::Loaded, false));
    assert!(needs_rewrite(LoadNote::Loaded, true));
    assert!(needs_rewrite(LoadNote::Fresh, false));
    assert!(needs_rewrite(LoadNote::RecoveredFromBadFile, false));
}

#[test]
fn enum_warnings_quote_both_values() {
    assert_eq!(
        invalid_enum_message("mode", "\"x\"", "\"bottom\""),
        "mode = \"x\" 无效，已改为 \"bottom\""
    );
    let mut cfg = Config {
        mode: "say \"hi\"".into(),
        ..Config::default()
    };
    let w = validate(&mut cfg);
    assert_eq!(w, vec!["mode = \"say \\\"hi\\\"\" 无效，已改为 \"bottom\"".to_string()]);
}

#[test]
fn a_clean_config_passes_unchanged() {
    let start = Config {
        language: "zh-CN".into(),
        play_mode: "sequential".into(),
        anchor: "free".into(),
        width: 900,
        height: 64,
        monitor: 3,
        volume: 0,
        library: vec!["D:\\Music".into(), "E:\\More".into()],
        exclude_dirs: vec!["Podcasts".into()],
        extensions: vec!["flac".into(), "ogg".into()],
        ..Config::default()
    };
    let mut cfg = start.clone();
    assert!(validate(&mut cfg).is_empty());
    assert_eq!(cfg.language, start.language);
    assert_eq!(cfg.library, start.library);
    assert_eq!(cfg.extensions, start.extensions);
    assert_eq!((cfg.width, cfg.height, cfg.monitor), (900, 64, 3));
}

#[test]
fn migrating_twice_changes_nothing_more() {
    let v1 = Config {
        config_version: 0,
        ..Config::default()
    };
    let once = migrate(v1, "shuffle = false\n");
    assert_eq!(once.play_mode, "sequential");
    let twice = migrate(once.clone(), "shuffle = true\n");
    assert_eq!(twice.play_mode, "sequential");
    assert_eq!(twice.config_version, CONFIG_VERSION);
}

#[test]
fn a_respelled_play_mode_is_reported() {
    let mut cfg = Config {
        play_mode: "Shuffle".into(),
        ..Config::default()
    };
    let w = validate(&mut cfg);
    assert_eq!(cfg.play_mode, "shuffle");
    assert_eq!(w, vec!["play_mode = \"Shuffle\" 已改为 \"shuffle\"".to_string()]);
    assert_eq!(
        respelled_enum_message("mode", "\"TOP\"", "\"top\""),
        "mode = \"TOP\" 已改为 \"top\""
    );
}

#[test]
fn rewritten_extensions_are_reported() {
    let mut cfg = Config {
        extensions: vec![" .MP3 ".into(), "flac".into(), "mp3".into(), "".into()],
        ..Config::default()
    };
    let w = validate(&mut cfg);
    assert_eq!(cfg.extensions, vec!["mp3".to_string(), "flac".to_string()]);
    assert_eq!(w, vec!["extensions 中的大小写、点号、空白或重复项已规范".to_string()]);
}

#[test]
fn a_trimmed_library_entry_is_reported() {
    let mut cfg = Config {
        library: vec![" D:\\Music ".into()],
        ..Config::default()
    };
    let w = validate(&mut cfg);
    assert_eq!(cfg.library, vec!["D:\\Music".to_string()]);
    assert_eq!(w, vec!["library 中的空白或重复项已清理".to_string()]);
}

#[test]
fn no_warnings_means_no_change() {
    let samples = vec![
        Config::default(),
        Config {
            play_mode: "Shuffle".into(),
            ..Config::default()
        },
        Config {
            exclude_dirs: vec!["a".into(), "a".into()],
            ..Config::default()
        },
        Config {
            extensions: vec!["MP3".into()],
            ..Config::default()
        },
        Config {
            library: vec!["C:\\M".into()],
            width: 900,
            ..Config::default()
        },
    ];
    for start in samples {
        let mut cfg = start.clone();
        let w = validate(&mut cfg);
        assert_eq!(w.is_empty(), format!("{cfg:?}") == format!("{start:?}"), "{w:?}");
    }
}
