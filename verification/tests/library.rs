use std::collections::HashMap;

use desktop_music_widget::config::DEFAULT_EXTENSIONS;
use desktop_music_widget::library::{
    choose_starter, covers, depth_allowed, preview_finished_at_once, entry_action, extension, finished_state, is_audio, is_excluded,
    is_excluded_lowered, nonblank,
    loose_tracks, should_publish, status_from, visible_entries, without_starter, DirEntry,
    EntryAction, Prepared, PreviewState, ScanOptions, ScanState, ScanStatus, Walk, WalkStep,
    MAX_DEPTH, STATE_EMPTY, STATE_IDLE, STATE_NO_DIRS, STATE_READY, STATE_SCANNING,
};

/// A folder tree held in memory: folder path to its listing.
struct Tree {
    dirs: HashMap<String, Vec<DirEntry>>,
}

impl Tree {
    fn new() -> Self {
        Tree { dirs: HashMap::new() }
    }

    fn dir(&mut self, path: &str) {
        self.dirs.entry(path.to_string()).or_default();
        if let Some((parent, name)) = path.rsplit_once('\\') {
            if self.dirs.contains_key(parent) {
                self.push(parent, name, path, true);
            }
        }
    }

    fn file(&mut self, path: &str) {
        let (parent, name) = path.rsplit_once('\\').unwrap();
        self.push(parent, name, path, false);
    }

    fn push(&mut self, parent: &str, name: &str, full: &str, is_dir: bool) {
        self.dirs.get_mut(parent).unwrap().push(DirEntry {
            name: name.to_string(),
            full: full.to_string(),
            is_dir,
            is_file: !is_dir,
        });
    }

    fn list(&self, path: &str) -> Option<Vec<DirEntry>> {
        self.dirs.get(path).cloned()
    }
}

/// Runs a walk to the end over `tree`, returning the tracks and the progress
/// reports.
fn run(opts: &ScanOptions, tree: &Tree) -> (Vec<String>, Vec<usize>) {
    let mut walk = Walk::new(opts);
    let mut reports = Vec::new();
    loop {
        match walk.step() {
            WalkStep::Read { path, .. } => walk.feed(tree.list(&path)),
            WalkStep::Progress { found } => reports.push(found),
            WalkStep::Continue => {}
            WalkStep::Done => break,
        }
    }
    (walk.into_found(), reports)
}

fn count_tracks(opts: &ScanOptions, tree: &Tree) -> usize {
    run(opts, tree).0.len()
}

const ROOT: &str = "C:\\lib";

/// loose.mp3, notes.txt, Album\one.mp3, Album\two.FLAC, Skip\three.mp3
fn fixture() -> Tree {
    let mut t = Tree::new();
    t.dir(ROOT);
    t.dir("C:\\lib\\Album");
    t.dir("C:\\lib\\Skip");
    t.file("C:\\lib\\loose.mp3");
    t.file("C:\\lib\\notes.txt");
    t.file("C:\\lib\\Album\\one.mp3");
    t.file("C:\\lib\\Album\\two.FLAC");
    t.file("C:\\lib\\Skip\\three.mp3");
    t
}

fn opts(root: &str) -> ScanOptions {
    ScanOptions {
        dirs: vec![root.to_string()],
        recursive: true,
        excludes: Vec::new(),
        extensions: DEFAULT_EXTENSIONS.iter().map(|s| s.to_string()).collect(),
    }
}

#[test]
fn finds_audio_recursively_and_ignores_other_files() {
    let (found, _) = run(&opts(ROOT), &fixture());
    assert_eq!(
        found,
        vec![
            "C:\\lib\\Album\\one.mp3",
            "C:\\lib\\Album\\two.FLAC",
            "C:\\lib\\Skip\\three.mp3",
            "C:\\lib\\loose.mp3"
        ]
    );
}

#[test]
fn non_recursive_stops_at_the_top_level() {
    let mut o = opts(ROOT);
    o.recursive = false;
    assert_eq!(count_tracks(&o, &fixture()), 1, "only loose.mp3");
}

#[test]
fn exclusion_by_folder_name_is_case_insensitive() {
    let mut o = opts(ROOT);
    o.excludes = vec!["skip".into()];
    assert_eq!(count_tracks(&o, &fixture()), 3);
}

#[test]
fn exclusion_by_absolute_path_works() {
    let mut o = opts(ROOT);
    o.excludes = vec!["C:\\lib\\Skip".into()];
    assert_eq!(count_tracks(&o, &fixture()), 3);
}

#[test]
fn exclusion_by_path_covers_subfolders() {
    let mut o = opts(ROOT);
    // Excluding the root itself removes everything below it.
    o.excludes = vec![ROOT.to_string()];
    assert_eq!(count_tracks(&o, &fixture()), 0);
}

#[test]
fn extension_filter_is_applied() {
    let mut o = opts(ROOT);
    o.extensions = vec!["MP3".into()]; // normalised to lower case
    assert_eq!(count_tracks(&o, &fixture()), 3);
    o.extensions = vec!["flac".into()];
    assert_eq!(count_tracks(&o, &fixture()), 1);
}

#[test]
fn empty_configuration_yields_nothing() {
    let o = ScanOptions {
        dirs: Vec::new(),
        recursive: true,
        excludes: Vec::new(),
        extensions: vec!["mp3".into()],
    };
    assert_eq!(count_tracks(&o, &Tree::new()), 0);
    assert!(!o.has_dirs());
}

#[test]
fn missing_directories_are_skipped_not_fatal() {
    let o = ScanOptions {
        dirs: vec!["Z:\\nope\\nowhere".to_string()],
        recursive: true,
        excludes: Vec::new(),
        extensions: vec!["mp3".into()],
    };
    assert_eq!(count_tracks(&o, &Tree::new()), 0);
}

#[test]
fn bare_name_excludes_do_not_match_paths() {
    // A name-only exclude must not swallow an unrelated path that merely
    // begins with the same letters.
    let mut o = opts(ROOT);
    o.excludes = vec!["ski".into()];
    assert_eq!(count_tracks(&o, &fixture()), 4, "'ski' is not the folder name 'Skip'");
}

#[test]
fn scan_state_reports_progress_and_completion() {
    let state = ScanState::new();
    assert_eq!(state.status(), ScanStatus::Idle);
    state.set(STATE_SCANNING, 0);
    state.report(512);
    assert_eq!(state.status(), ScanStatus::Scanning { found: 512 });
    state.set(STATE_READY, 900);
    assert_eq!(state.status(), ScanStatus::Ready { total: 900 });
    state.set(STATE_EMPTY, 0);
    assert_eq!(state.status(), ScanStatus::Empty);
    state.set(STATE_NO_DIRS, 0);
    assert_eq!(state.status(), ScanStatus::NoDirs);
}

#[test]
fn preview_without_folders_completes_immediately() {
    let state = PreviewState::for_options(&ScanOptions {
        dirs: Vec::new(),
        recursive: true,
        excludes: Vec::new(),
        extensions: vec!["mp3".into()],
    });
    assert!(state.done());
    assert_eq!(state.count(), 0);
}

#[test]
fn preview_finishes_and_counts() {
    let state = PreviewState::for_options(&opts(ROOT));
    assert!(state.running() && !state.done());
    let n = count_tracks(&opts(ROOT), &fixture());
    state.publish(1);
    assert_eq!(state.count(), 1);
    state.finish(n);
    assert!(state.done(), "preview must finish");
    assert!(!state.running());
    assert_eq!(state.count(), 4);
}

#[test]
fn unknown_state_codes_read_as_idle() {
    assert_eq!(status_from(STATE_IDLE, 5), ScanStatus::Idle);
    assert_eq!(status_from(99, 5), ScanStatus::Idle);
    assert_eq!(finished_state(0), STATE_EMPTY);
    assert_eq!(finished_state(3), STATE_READY);
}

#[test]
fn progress_is_reported_every_256_tracks() {
    let mut t = Tree::new();
    t.dir(ROOT);
    for i in 0..600 {
        t.file(&format!("C:\\lib\\t{i}.mp3"));
    }
    let (found, reports) = run(&opts(ROOT), &t);
    assert_eq!(found.len(), 600);
    assert_eq!(reports, vec![256, 512]);
    assert!(should_publish(256) && !should_publish(257));
}

#[test]
fn the_walk_stops_at_the_depth_limit() {
    let mut t = Tree::new();
    t.dir(ROOT);
    let mut path = ROOT.to_string();
    for level in 0..(MAX_DEPTH + 5) {
        path = format!("{path}\\d{level}");
        t.dir(&path);
        t.file(&format!("{path}\\x.mp3"));
    }
    // Folders down to depth MAX_DEPTH are read; each holds one track.
    assert_eq!(count_tracks(&opts(ROOT), &t), MAX_DEPTH);
    assert!(depth_allowed(MAX_DEPTH));
    assert!(!depth_allowed(MAX_DEPTH + 1));
}

#[test]
fn roots_are_walked_in_order() {
    let mut t = Tree::new();
    t.dir("D:\\b");
    t.file("D:\\b\\1.ogg");
    t.dir("D:\\a");
    t.file("D:\\a\\2.ogg");
    let mut o = opts("D:\\b");
    o.dirs.push("D:\\missing".into());
    o.dirs.push("D:\\a".into());
    let (found, _) = run(&o, &t);
    assert_eq!(found, vec!["D:\\b\\1.ogg", "D:\\a\\2.ogg"]);
}

#[test]
fn extensions_follow_path_rules() {
    assert_eq!(extension("song.MP3").as_deref(), Some("MP3"));
    assert_eq!(extension("a.tar.gz").as_deref(), Some("gz"));
    assert_eq!(extension(".hidden"), None);
    assert_eq!(extension("noext"), None);
    assert_eq!(extension("trailing."), Some(String::new()));
    let p = Prepared::new(&opts(ROOT));
    assert!(is_audio("x.Flac", &p));
    assert!(!is_audio("x.txt", &p));
    assert!(!is_audio(".mp3", &p));
}

#[test]
fn exclusions_match_names_and_path_prefixes() {
    let mut o = opts(ROOT);
    o.excludes = vec![" Podcasts ".into(), "d:\\Rips".into(), "".into()];
    let p = Prepared::new(&o);
    assert_eq!(p.excludes, vec!["podcasts".to_string(), "d:\\rips".to_string()]);
    assert!(is_excluded("PODCASTS", "E:\\x\\PODCASTS", &p));
    assert!(is_excluded("album", "D:\\RIPS\\album", &p));
    assert!(!is_excluded("album", "D:\\Music\\album", &p));
    assert_eq!(entry_action(true, false, "PODCASTS", "E:\\PODCASTS", &p), EntryAction::Skip);
    assert_eq!(entry_action(true, false, "Jazz", "E:\\Jazz", &p), EntryAction::Descend);
    assert_eq!(entry_action(false, true, "a.mp3", "E:\\a.mp3", &p), EntryAction::Collect);
    assert_eq!(entry_action(false, false, "a.mp3", "E:\\a.mp3", &p), EntryAction::Skip);
}

#[test]
fn starter_prefers_folders() {
    let mut rng = rand::rng();
    for _ in 0..50 {
        let pick = choose_starter(&mut rng, &[false, true, false, true]).unwrap();
        assert!(pick == 1 || pick == 3);
        let pick = choose_starter(&mut rng, &[false, false]).unwrap();
        assert!(pick < 2);
    }
    assert_eq!(choose_starter(&mut rng, &[]), None);
}

#[test]
fn starter_helpers_filter_and_fall_back() {
    let t = fixture();
    let mut o = opts(ROOT);
    o.excludes = vec!["skip".into()];
    let p = Prepared::new(&o);
    let top = visible_entries(&t.list(ROOT).unwrap(), &p);
    let names: Vec<&str> = top.iter().map(|e| e.name.as_str()).collect();
    assert_eq!(names, vec!["Album", "loose.mp3", "notes.txt"]);
    assert_eq!(loose_tracks(&top, &p), vec!["C:\\lib\\loose.mp3".to_string()]);
    let all: Vec<String> = vec!["a".into(), "b".into(), "c".into(), "b".into()];
    let starter: Vec<String> = vec!["b".into()];
    assert_eq!(without_starter(&all, &starter), vec!["a".to_string(), "c".to_string()]);
}

#[test]
fn lowered_exclusions_compare_as_given() {
    let mut o = opts(ROOT);
    o.excludes = vec!["Rips".into(), "e:\\old".into()];
    let p = Prepared::new(&o);
    assert!(is_excluded_lowered("rips", "d:\\rips", &p));
    assert!(!is_excluded_lowered("RIPS", "D:\\RIPS", &p), "no case folding of its own");
    assert!(is_excluded_lowered("x", "e:\\old\\x", &p));
    assert_eq!(nonblank(&vec!["a".into(), "".into(), " ".into()]), vec!["a".to_string(), " ".to_string()]);
}

#[test]
fn a_path_exclusion_covers_that_folder_and_what_is_under_it() {
    let mut o = opts(ROOT);
    o.excludes = vec!["C:/M/Skip".into()];
    let p = Prepared::new(&o);
    assert!(is_excluded("Skip", "C:/M/Skip", &p));
    assert!(is_excluded("a.mp3", "c:/m/skip/a.mp3", &p));
    assert!(is_excluded("a.mp3", "C:/M/Skip\\a.mp3", &p));
    assert!(!is_excluded("Skipper", "C:/M/Skipper", &p));
    assert!(!is_excluded("a.mp3", "C:/M/Skipper/a.mp3", &p));
}

#[test]
fn a_path_exclusion_ends_at_a_separator() {
    assert!(covers("c:/m/skip", "c:/m/skip"));
    assert!(covers("c:/m/skip/x", "c:/m/skip"));
    assert!(covers("c:/m/skip/x", "c:/m/skip/"));
    assert!(covers("d:\\rips\\a", "d:\\rips\\"));
    assert!(covers("d:\\rips", "d:"));
    assert!(!covers("d:rips", "d:"));
    assert!(!covers("c:/m/skipper", "c:/m/skip"));
    assert!(!covers("c:/m", "c:/m/skip"));
}

#[test]
fn a_preview_without_folders_is_finished_at_once() {
    let mut o = opts(ROOT);
    assert!(!preview_finished_at_once(&o));
    o.dirs.clear();
    assert!(preview_finished_at_once(&o));
}
