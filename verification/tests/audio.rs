use desktop_music_widget::audio::{
    clamp_volume, is_mp3_name, pick, resume_position, track_text, Engine, NowPlaying, PlayMode,
    PlayerState, HISTORY_LIMIT,
};
use std::path::PathBuf;
use std::sync::atomic::Ordering;

#[test]
fn play_mode_maps_from_and_to_config_strings() {
    for mode in [PlayMode::Sequential, PlayMode::Shuffle, PlayMode::RepeatOne] {
        assert_eq!(PlayMode::from_config(mode.as_str()), mode);
    }
    // Unknown values fall back to the historical default.
    assert_eq!(PlayMode::from_config("nonsense"), PlayMode::Shuffle);
    assert_eq!(PlayMode::from_config(""), PlayMode::Shuffle);
}

#[test]
fn sequential_pick_wraps_around() {
    let pool = vec![PathBuf::from("a"), PathBuf::from("b")];
    let mut pos = 0usize;
    let mut rng = rand::rng();
    let mut next = || {
        pick(&pool, PlayMode::Sequential, &mut pos, None, &mut rng)
            .unwrap()
            .to_string_lossy()
            .to_string()
    };
    assert_eq!(next(), "a");
    assert_eq!(next(), "b");
    assert_eq!(next(), "a", "wraps instead of ending");
}

#[test]
fn repeat_one_replays_the_current_track() {
    let pool = vec![PathBuf::from("a"), PathBuf::from("b")];
    let mut pos = 0usize;
    let mut rng = rand::rng();
    let current = PathBuf::from("b");
    for _ in 0..3 {
        let got = pick(
            &pool,
            PlayMode::RepeatOne,
            &mut pos,
            Some(&current),
            &mut rng,
        )
        .unwrap();
        assert_eq!(got, current);
    }
}

#[test]
fn repeat_one_falls_back_to_sequential_without_a_current_track() {
    let pool = vec![PathBuf::from("a"), PathBuf::from("b")];
    let mut pos = 0usize;
    let mut rng = rand::rng();
    assert_eq!(
        pick(&pool, PlayMode::RepeatOne, &mut pos, None, &mut rng).unwrap(),
        PathBuf::from("a")
    );
    assert_eq!(
        pos, 1,
        "the cursor advances so the first pick is not repeated"
    );
}

#[test]
fn empty_pool_picks_nothing() {
    let mut pos = 0usize;
    let mut rng = rand::rng();
    for mode in [PlayMode::Sequential, PlayMode::Shuffle, PlayMode::RepeatOne] {
        let empty: [PathBuf; 0] = [];
        assert!(pick(&empty, mode, &mut pos, None, &mut rng).is_none());
    }
}

#[test]
fn shuffle_only_returns_tracks_from_the_pool() {
    let pool = vec![PathBuf::from("a"), PathBuf::from("b")];
    let mut pos = 0usize;
    let mut rng = rand::rng();
    for _ in 0..50 {
        let got = pick(&pool, PlayMode::Shuffle, &mut pos, None, &mut rng).unwrap();
        assert!(pool.contains(&got));
    }
}

#[test]
fn sequential_cursor_past_the_end_wraps() {
    let pool = vec![1u32, 2, 3];
    let mut pos = 7usize;
    let mut rng = rand::rng();
    assert_eq!(pick(&pool, PlayMode::Sequential, &mut pos, None, &mut rng), Some(2));
    assert_eq!(pos, 2);
    assert_eq!(pick(&pool, PlayMode::Shuffle, &mut pos, None, &mut rng).map(|_| pos), Some(2));
}

#[test]
fn now_playing_starts_empty() {
    let n = NowPlaying::default();
    assert!(n.path.is_empty() && n.title.is_empty() && n.artist.is_empty());
}

#[test]
fn untagged_tracks_fall_back_to_the_file_name() {
    let t = |stem, title, artist| track_text(stem, title, artist, "Unknown track");
    assert_eq!(t("01 Intro", None, None), ("01 Intro".to_string(), String::new()));
    assert_eq!(t("", None, None), ("Unknown track".to_string(), String::new()));
    assert_eq!(t("x", Some("  Song "), Some(" Band ")), ("Song".to_string(), "Band".to_string()));
    assert_eq!(t("x", Some("   "), Some("")), ("x".to_string(), String::new()));
}

#[test]
fn mp3_detection_ignores_case() {
    assert!(is_mp3_name("a.MP3"));
    assert!(is_mp3_name("a.b.mp3"));
    assert!(!is_mp3_name("mp3"));
    assert!(!is_mp3_name("a.mp4"));
}

#[test]
fn resuming_stays_a_second_short_of_the_end() {
    assert_eq!(resume_position(5_000, 200_000), 5_000);
    assert_eq!(resume_position(199_500, 200_000), 199_000);
    assert_eq!(resume_position(300, 800), 0);
    assert_eq!(resume_position(7_000, 0), 7_000);
    assert_eq!(clamp_volume(250), 100);
    assert_eq!(clamp_volume(42), 42);
}

#[test]
fn player_state_starts_silent_at_a_capped_volume() {
    let s = PlayerState::new(180);
    assert_eq!(s.volume.load(Ordering::Relaxed), 100);
    assert!(!s.playing.load(Ordering::Relaxed));
    assert_eq!(s.now.lock().unwrap().title, "");
}

#[test]
fn previous_after_next_replays_the_skipped_track() {
    let mut e: Engine<String, u32> = Engine::new();
    e.set_queue(vec!["a".into(), "b".into(), "c".into()]);
    e.mode = PlayMode::Sequential;
    let mut rng = rand::rng();
    let first = e.next_track(&mut rng).unwrap();
    assert_eq!(first, "a");
    e.appended_track(first, 10);
    assert!(e.promote_first());
    assert_eq!(e.current, Some(("a".to_string(), 10)));
    e.next();
    assert_eq!(e.history, vec!["a".to_string()]);
    assert!(e.prev());
    assert_eq!(e.next_track(&mut rng), Some("a".to_string()));
    assert!(e.history.is_empty());
    assert!(!e.prev(), "nothing further back");
}

#[test]
fn stepping_back_twice_returns_to_the_track_that_was_playing() {
    let mut e: Engine<String, u32> = Engine::new();
    e.history = vec!["x".into(), "y".into()];
    e.current = Some(("z".into(), 3));
    assert!(e.prev());
    assert_eq!(e.override_next, Some("y".to_string()));
    assert!(e.prev());
    assert_eq!(e.override_next, Some("z".to_string()));
    assert_eq!(e.history, vec!["x".to_string()]);
}

#[test]
fn hand_off_moves_the_queue_on_and_bounds_the_history() {
    let mut e: Engine<String, u32> = Engine::new();
    e.history = (0..HISTORY_LIMIT).map(|i| i.to_string()).collect();
    e.current = Some(("cur".into(), 1));
    e.appended_track("next".into(), 2);
    assert!(!e.hand_off(2), "both still queued");
    assert!(e.hand_off(1));
    assert_eq!(e.current, Some(("next".to_string(), 2)));
    assert_eq!(e.history.len(), HISTORY_LIMIT);
    assert_eq!(e.history.last().map(String::as_str), Some("cur"));
    assert_eq!(e.history[0], "1");
}

#[test]
fn autoplay_gates_the_first_start() {
    let mut e: Engine<String, u32> = Engine::new();
    e.set_autoplay(false);
    e.set_queue(vec!["a".into()]);
    assert!(!e.start_if_due(1), "autoplay off never starts on its own");
    let resume = e.restart_on_new_device(true);
    assert_eq!(resume, None);
    assert!(e.start_if_due(1), "a device change resumes what was playing");
    assert!(!e.start_if_due(1));
}
