use desktop_music_widget::audio::PlayMode;
use desktop_music_widget::config;
use desktop_music_widget::menu::{
    action, all_ids, build, check_radio, index_of, play_mode_index, play_mode_label, Action, Label,
    MenuOp, MenuState, CONTROLS, CONTROLS_IDS, ID_EXIT, ID_OPEN_FOLDER, ID_PLAYPAUSE, MODES,
    MODE_IDS, MONITOR_FIRST, MONITOR_LIMIT, PLAY_MODES, PLAY_MODE_IDS,
};
use desktop_music_widget::screen::Rect;

fn state(monitors: usize) -> MenuState {
    MenuState {
        playing: true,
        play_mode: PlayMode::RepeatOne,
        library_empty: false,
        scan_recursive: true,
        autostart: false,
        autoplay: true,
        show_controls: "always".into(),
        mode: "bottom".into(),
        monitors: (0..monitors)
            .map(|i| Rect { left: 1920 * i as i32, top: 0, right: 1920 * (i as i32 + 1), bottom: 1080 })
            .collect(),
        monitor: -1,
        moving: false,
    }
}

#[test]
fn no_two_menu_entries_share_an_id() {
    let mut ids = all_ids();
    let total = ids.len();
    ids.sort_unstable();
    ids.dedup();
    assert_eq!(ids.len(), total, "duplicate menu id");
}

#[test]
fn radio_groups_are_contiguous() {
    // The radio mark takes a first/last id range, so each group must be
    // consecutive with no gaps and no foreign ids inside.
    for (name, group) in [
        ("play mode", PLAY_MODE_IDS.as_slice()),
        ("controls", CONTROLS_IDS.as_slice()),
        ("window layer", MODE_IDS.as_slice()),
    ] {
        for pair in group.windows(2) {
            assert_eq!(pair[1], pair[0] + 1, "{name} group is not contiguous");
        }
    }
}

#[test]
fn groups_do_not_overlap_each_other() {
    let ranges = [
        (PLAY_MODE_IDS[0], *PLAY_MODE_IDS.last().unwrap()),
        (CONTROLS_IDS[0], *CONTROLS_IDS.last().unwrap()),
        (MODE_IDS[0], *MODE_IDS.last().unwrap()),
        (MONITOR_FIRST, MONITOR_FIRST + MONITOR_LIMIT - 1),
    ];
    for (i, (a_start, a_end)) in ranges.iter().enumerate() {
        for (b_start, b_end) in ranges.iter().skip(i + 1) {
            assert!(
                a_end < b_start || b_end < a_start,
                "id ranges overlap: {a_start}..{a_end} and {b_start}..{b_end}"
            );
        }
    }
}

#[test]
fn groups_cover_every_configured_value() {
    assert_eq!(PLAY_MODES.len(), config::PLAY_MODES.len());
    assert_eq!(PLAY_MODE_IDS.len(), PLAY_MODES.len());
    assert_eq!(CONTROLS.len(), config::SHOW_CONTROLS.len());
    assert_eq!(MODE_IDS.len(), MODES.len());
    for c in CONTROLS {
        assert!(config::SHOW_CONTROLS.contains(&c), "{c} is not valid");
    }
    for m in MODES {
        assert!(config::MODES.contains(&m), "{m} is not valid");
    }
}

#[test]
fn every_play_mode_has_a_label() {
    let labels: Vec<Label> = PLAY_MODES.iter().map(|m| play_mode_label(*m)).collect();
    assert_eq!(
        labels,
        vec![Label::PlayModeSequential, Label::PlayModeShuffle, Label::PlayModeRepeatOne]
    );
}

#[test]
fn selection_falls_back_to_the_first_entry_for_unknown_values() {
    assert_eq!(play_mode_index(PlayMode::RepeatOne), 2);
    assert_eq!(play_mode_index(PlayMode::Sequential), 0);
    assert_eq!(index_of(&CONTROLS, "nonsense"), 0);
    assert_eq!(index_of(&MODES, "topmost"), 1);
}

#[test]
fn check_radio_tolerates_an_out_of_range_selection() {
    // Must not panic or index past the group.
    let mut ops = Vec::new();
    check_radio(&mut ops, 5, &MODE_IDS, 99);
    check_radio(&mut ops, 5, &[], 0);
    assert_eq!(ops, vec![MenuOp::Radio { menu: 5, first: 1060, last: 1061, check: 1061 }]);
}

#[test]
fn every_built_entry_dispatches_to_its_action() {
    for n in [0, 1, 3, 20] {
        let ops = build(&state(n));
        for op in &ops {
            match op {
                MenuOp::Item { id, action: a, .. } | MenuOp::Checked { id, action: a, .. } => {
                    assert_eq!(action(&ops, *id), Some(*a));
                }
                _ => {}
            }
        }
        assert_eq!(action(&ops, 0), None, "a dismissed menu does nothing");
        assert_eq!(action(&ops, ID_EXIT), Some(Action::Exit));
    }
}

#[test]
fn the_menu_reflects_the_state() {
    let ops = build(&state(3));
    assert_eq!(
        ops[0],
        MenuOp::Item { menu: 0, label: Label::MenuPause, id: ID_PLAYPAUSE, action: Action::TogglePlay }
    );
    assert!(ops.contains(&MenuOp::Radio { menu: 1, first: 1010, last: 1012, check: 1012 }));
    assert!(ops.contains(&MenuOp::Radio { menu: 4, first: 1050, last: 1051, check: 1051 }));
    assert!(ops.contains(&MenuOp::Radio { menu: 6, first: 1070, last: 1072, check: 1070 }));
    assert_eq!(action(&ops, MONITOR_FIRST + 2), Some(Action::Monitor(2)));
    let mut empty = state(1);
    empty.library_empty = true;
    let ops = build(&empty);
    assert!(ops.contains(&MenuOp::Disabled { menu: 2, label: Label::MenuOpenFolder, id: ID_OPEN_FOLDER }));
    assert_eq!(action(&ops, ID_OPEN_FOLDER), None, "a greyed-out entry does nothing");
    assert!(ops.contains(&MenuOp::Disabled { menu: 6, label: Label::MonitorItem(1), id: MONITOR_FIRST }));
    let many = build(&state(20));
    assert_eq!(action(&many, MONITOR_FIRST + MONITOR_LIMIT - 1), Some(Action::Monitor(15)));
    assert_eq!(action(&many, MONITOR_FIRST + MONITOR_LIMIT), None);
}
