use desktop_music_widget::library::{
    DirEntry, ScanOptions, ScanTarget, RETRIES, STATE_EMPTY, STATE_NO_DIRS, STATE_READY, STATE_SCANNING,
};
use desktop_music_widget::scan::{ScanAction, ScanEvent, ScanRun, RETRY_WAIT_MS};

fn strings(v: &[&str]) -> Vec<String> {
    v.iter().map(|s| s.to_string()).collect()
}

fn opts(dirs: &[&str]) -> ScanOptions {
    ScanOptions {
        dirs: strings(dirs),
        recursive: true,
        excludes: Vec::new(),
        extensions: strings(&["mp3", "flac"]),
    }
}

fn entry(name: &str, full: &str, is_dir: bool) -> DirEntry {
    DirEntry { name: name.into(), full: full.into(), is_dir, is_file: !is_dir }
}

fn status(a: ScanAction) -> (u32, usize) {
    match a {
        ScanAction::SetStatus { state, count } => (state, count),
        other => panic!("expected a status, got {other:?}"),
    }
}

fn walk(a: ScanAction) -> (Vec<String>, bool) {
    match a {
        ScanAction::Walk { dirs, report } => (dirs, report),
        other => panic!("expected a walk, got {other:?}"),
    }
}

#[test]
fn no_folders_shows_no_dirs_and_stops() {
    let mut rng = rand::rng();
    let mut s = ScanRun::new(&opts(&[]), ScanTarget::Play);
    assert_eq!(status(s.step(ScanEvent::Go, &mut rng)), (STATE_NO_DIRS, 0));
    assert!(matches!(s.step(ScanEvent::Go, &mut rng), ScanAction::Stop));
}

#[test]
fn a_rescan_replaces_the_pool() {
    let mut rng = rand::rng();
    let mut s = ScanRun::new(&opts(&["C:\\lib"]), ScanTarget::Pool);
    assert_eq!(status(s.step(ScanEvent::Go, &mut rng)), (STATE_SCANNING, 0));
    assert_eq!(walk(s.step(ScanEvent::Go, &mut rng)), (strings(&["C:\\lib"]), true));
    match s.step(ScanEvent::Walked(strings(&["C:\\lib\\a.mp3"])), &mut rng) {
        ScanAction::SetPool { state, count, tracks } => {
            assert_eq!((state, count), (STATE_READY, 1));
            assert_eq!(tracks, strings(&["C:\\lib\\a.mp3"]));
        }
        other => panic!("{other:?}"),
    }
    assert!(matches!(s.step(ScanEvent::Go, &mut rng), ScanAction::Stop));
}

#[test]
fn the_starter_plays_first_and_is_not_queued_again() {
    let mut rng = rand::rng();
    let mut s = ScanRun::new(&opts(&["C:\\lib"]), ScanTarget::Play);
    status(s.step(ScanEvent::Go, &mut rng));
    assert!(matches!(s.step(ScanEvent::Go, &mut rng), ScanAction::ListRoots));
    let listed = vec![entry("x.mp3", "C:\\lib\\x.mp3", false), entry("Album", "C:\\lib\\Album", true)];
    // The only folder is the starter.
    assert_eq!(walk(s.step(ScanEvent::Listed(listed), &mut rng)), (strings(&["C:\\lib\\Album"]), false));
    match s.step(ScanEvent::Walked(strings(&["C:\\lib\\Album\\1.mp3"])), &mut rng) {
        ScanAction::Queue(t) => assert_eq!(t, strings(&["C:\\lib\\Album\\1.mp3"])),
        other => panic!("{other:?}"),
    }
    assert_eq!(s.starter(), &strings(&["C:\\lib\\Album\\1.mp3"]));
    assert_eq!(walk(s.step(ScanEvent::Go, &mut rng)), (strings(&["C:\\lib"]), true));
    let all = strings(&["C:\\lib\\Album\\1.mp3", "C:\\lib\\x.mp3"]);
    match s.step(ScanEvent::Walked(all), &mut rng) {
        ScanAction::Enqueue { state, count, tracks } => {
            assert_eq!((state, count), (STATE_READY, 2));
            assert_eq!(tracks, strings(&["C:\\lib\\x.mp3"]));
        }
        other => panic!("{other:?}"),
    }
    assert!(matches!(s.step(ScanEvent::Go, &mut rng), ScanAction::Stop));
}

#[test]
fn an_empty_starter_falls_back_to_loose_tracks() {
    let mut rng = rand::rng();
    let mut s = ScanRun::new(&opts(&["C:\\lib"]), ScanTarget::Play);
    status(s.step(ScanEvent::Go, &mut rng));
    s.step(ScanEvent::Go, &mut rng);
    let listed = vec![entry("x.mp3", "C:\\lib\\x.mp3", false), entry("notes.txt", "C:\\lib\\notes.txt", false)];
    let (dirs, report) = walk(s.step(ScanEvent::Listed(listed), &mut rng));
    assert_eq!(dirs.len(), 1);
    assert!(!report);
    match s.step(ScanEvent::Walked(Vec::new()), &mut rng) {
        ScanAction::Queue(t) => assert_eq!(t, strings(&["C:\\lib\\x.mp3"])),
        other => panic!("{other:?}"),
    }
}

#[test]
fn nothing_listed_means_no_starter() {
    let mut rng = rand::rng();
    let mut s = ScanRun::new(&opts(&["C:\\lib"]), ScanTarget::Play);
    status(s.step(ScanEvent::Go, &mut rng));
    s.step(ScanEvent::Go, &mut rng);
    assert_eq!(walk(s.step(ScanEvent::Listed(Vec::new()), &mut rng)), (strings(&["C:\\lib"]), true));
    assert!(s.starter().is_empty());
}

#[test]
fn an_empty_library_is_walked_retries_times_then_shown_empty() {
    let mut rng = rand::rng();
    let mut s = ScanRun::new(&opts(&["C:\\lib"]), ScanTarget::Play);
    status(s.step(ScanEvent::Go, &mut rng));
    s.step(ScanEvent::Go, &mut rng);
    walk(s.step(ScanEvent::Listed(Vec::new()), &mut rng));
    let mut walks = 1;
    loop {
        match s.step(ScanEvent::Walked(Vec::new()), &mut rng) {
            ScanAction::Wait { millis } => assert_eq!(millis, RETRY_WAIT_MS),
            other => panic!("{other:?}"),
        }
        match s.step(ScanEvent::Go, &mut rng) {
            ScanAction::Walk { .. } => walks += 1,
            ScanAction::Enqueue { state, count, tracks } => {
                assert_eq!((state, count), (STATE_EMPTY, 0));
                assert!(tracks.is_empty());
                break;
            }
            other => panic!("{other:?}"),
        }
    }
    assert_eq!(walks, RETRIES);
}

#[test]
fn after_listing_walks_the_chosen_entry() {
    let mut rng = rand::rng();
    let mut s = ScanRun::new(&opts(&["C:\\lib"]), ScanTarget::Play);
    status(s.step(ScanEvent::Go, &mut rng));
    s.step(ScanEvent::Go, &mut rng);
    let vis = vec![entry("A", "C:\\lib\\A", true), entry("B", "C:\\lib\\B", true)];
    assert_eq!(walk(s.after_listing(vis, Some(1))), (strings(&["C:\\lib\\B"]), false));
}

#[test]
fn an_event_out_of_turn_stops() {
    let mut rng = rand::rng();
    let mut s = ScanRun::new(&opts(&["C:\\lib"]), ScanTarget::Play);
    assert!(matches!(s.step(ScanEvent::Walked(Vec::new()), &mut rng), ScanAction::Stop));
    assert_eq!(status(s.step(ScanEvent::Go, &mut rng)), (STATE_SCANNING, 0));
}
