use desktop_music_widget::cli::{parse, usage, Args};

fn p(v: &[&str]) -> Result<Args, String> {
    parse(&v.iter().map(|s| s.to_string()).collect::<Vec<_>>())
}

#[test]
fn defaults_are_inert() {
    let a = p(&[]).unwrap();
    assert!(!a.help && !a.version && !a.count_tracks);
    assert!(a.play.is_empty());
    assert!(a.config_dir.is_none());
}

#[test]
fn value_can_be_inline_or_separate() {
    assert_eq!(
        p(&["--config-dir", "C:\\x"]).unwrap().config_dir,
        Some("C:\\x".to_string())
    );
    assert_eq!(
        p(&["--config-dir=C:\\y"]).unwrap().config_dir,
        Some("C:\\y".to_string())
    );
}

#[test]
fn missing_value_is_an_error() {
    assert!(p(&["--config-dir"]).is_err());
}

#[test]
fn play_swallows_paths_until_the_next_flag() {
    let a = p(&["--play", "a.mp3", "b.mp3", "--verbose"]).unwrap();
    assert_eq!(a.play, vec!["a.mp3".to_string(), "b.mp3".to_string()]);
    assert!(a.verbose, "the flag after --play must still be parsed");
}

#[test]
fn play_accepts_an_inline_first_path() {
    let a = p(&["--play=a.mp3", "b.mp3"]).unwrap();
    assert_eq!(a.play, vec!["a.mp3".to_string(), "b.mp3".to_string()]);
}

#[test]
fn unknown_flags_are_rejected() {
    assert!(p(&["--nope"]).is_err());
}

#[test]
fn autoplay_overrides_are_independent() {
    assert_eq!(p(&["--no-autoplay"]).unwrap().autoplay, Some(false));
    assert_eq!(p(&["--autoplay"]).unwrap().autoplay, Some(true));
    assert_eq!(p(&[]).unwrap().autoplay, None);
}

#[test]
fn usage_mentions_every_flag() {
    let u = usage();
    for flag in [
        "--config-dir",
        "--portable",
        "--lang",
        "--count-tracks",
        "--play",
        "--install-autostart",
        "--remove-autostart",
        "--dump-config",
        "--verbose",
    ] {
        assert!(u.contains(flag), "usage() omits {flag}");
    }
}

#[test]
fn error_messages_name_the_flag() {
    assert_eq!(
        p(&["--lang"]).unwrap_err(),
        "--lang 缺少参数 / --lang needs a value"
    );
    assert_eq!(
        p(&["--nope=3"]).unwrap_err(),
        "未知参数 / unknown argument: --nope"
    );
}

#[test]
fn flags_after_play_and_values_combine() {
    let a = p(&["--lang", "en", "--play", "x.flac", "-V", "--dir=D:\\m", "-v"]).unwrap();
    assert_eq!(a.lang, Some("en".to_string()));
    assert_eq!(a.play, vec!["x.flac".to_string()]);
    assert!(a.version && a.verbose);
    assert_eq!(a.dir, Some("D:\\m".to_string()));
    // A non-flag argument outside --play is rejected.
    assert!(p(&["stray"]).is_err());
}

#[test]
fn usage_starts_with_name_and_version() {
    assert!(usage().starts_with("DesktopMusicWidget 1.0.5\n\nUSAGE / 用法:\n  desktop-music-widget [OPTIONS]\n"));
}

#[test]
fn a_lone_argument_fails_only_when_unknown_or_missing_its_value() {
    for flag in [
        "-h", "--help", "-V", "--version", "--portable", "--dump-config", "--count-tracks",
        "--install-autostart", "--remove-autostart", "--reset-config", "--verbose", "-v",
        "--autoplay", "--no-autoplay", "--open-config", "--open-settings", "--play",
        "--play=x.mp3", "--config-dir=C:\\x", "--lang=en", "--dir=D:\\m",
    ] {
        assert!(p(&[flag]).is_ok(), "{flag}");
    }
    for flag in ["--config-dir", "--lang", "--dir"] {
        assert_eq!(p(&[flag]).unwrap_err(), format!("{flag} 缺少参数 / {flag} needs a value"));
    }
    assert_eq!(p(&["--help=1"]).unwrap().help, true);
    assert_eq!(p(&["-x"]).unwrap_err(), "未知参数 / unknown argument: -x");
}

#[test]
fn a_value_may_hold_an_equals_sign_or_a_dash() {
    assert_eq!(p(&["--dir=a=b"]).unwrap().dir, Some("a=b".to_string()));
    assert_eq!(p(&["--dir", "a=b"]).unwrap().dir, Some("a=b".to_string()));
    assert_eq!(p(&["--lang", "-x"]).unwrap().lang, Some("-x".to_string()));
    assert_eq!(p(&["--lang=-x"]).unwrap().lang, Some("-x".to_string()));
}

#[test]
fn what_follows_the_paths_is_parsed_as_on_its_own() {
    assert_eq!(
        p(&["--play", "a.mp3", "--nope"]).unwrap_err(),
        p(&["--nope"]).unwrap_err()
    );
    let a = p(&["--play=a", "b", "--play", "c", "--dir", "d"]).unwrap();
    assert_eq!(a.play, vec!["a".to_string(), "b".to_string(), "c".to_string()]);
    assert_eq!(a.dir, Some("d".to_string()));
}
