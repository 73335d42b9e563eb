use desktop_music_widget::hotkeys::{
    action_for, HotkeyAction, Preset, Registration, COMBOS, HK_NEXT, HK_PLAYPAUSE, HK_PREV,
    HK_VOLDOWN, HK_VOLUP, MOD_ALT, MOD_CONTROL, MOD_SHIFT, MOD_WIN,
};

#[test]
fn presets_round_trip_through_config_strings() {
    for preset in [Preset::CtrlAlt, Preset::CtrlShiftAlt] {
        assert_eq!(Preset::from_config(preset.as_str()), preset);
    }
    // Unknown values fall back to the historical default.
    assert_eq!(Preset::from_config("nonsense"), Preset::CtrlAlt);
}

#[test]
fn never_uses_the_windows_key() {
    // Combinations with the Windows key are reserved by the shell and are
    // silently dropped, which would look like a broken hotkey.
    for preset in [Preset::CtrlAlt, Preset::CtrlShiftAlt] {
        let m = preset.modifiers();
        assert_eq!(m & 0x0008, 0, "MOD_WIN must not be used");
        assert!(m & 0x0002 != 0, "every preset must include Ctrl");
        assert!(m & 0x0001 != 0, "every preset must include Alt");
    }
}

#[test]
fn shifted_preset_is_a_superset() {
    let base = Preset::CtrlAlt.modifiers();
    let shifted = Preset::CtrlShiftAlt.modifiers();
    assert_eq!(shifted & base, base, "the fallback must add to, not replace");
    assert!(shifted & 0x0004 != 0, "the fallback adds Shift");
}

#[test]
fn combo_ids_are_unique() {
    let mut ids: Vec<i32> = COMBOS.iter().map(|(id, _, _)| *id).collect();
    ids.sort_unstable();
    ids.dedup();
    assert_eq!(ids.len(), COMBOS.len());
}

#[test]
fn every_combo_id_resolves_to_an_action() {
    for (id, _, _) in COMBOS {
        assert!(action_for(id).is_some(), "hotkey id {id} has no handler registered");
    }
    assert!(action_for(999).is_none());
}

#[test]
fn ids_map_to_their_actions() {
    assert_eq!(action_for(HK_PLAYPAUSE), Some(HotkeyAction::TogglePause));
    assert_eq!(action_for(HK_NEXT), Some(HotkeyAction::Next));
    assert_eq!(action_for(HK_PREV), Some(HotkeyAction::Prev));
    assert_eq!(action_for(HK_VOLUP), Some(HotkeyAction::VolumeUp));
    assert_eq!(action_for(HK_VOLDOWN), Some(HotkeyAction::VolumeDown));
    assert_eq!(action_for(0), None);
}

#[test]
fn modifier_values_are_the_system_ones() {
    assert_eq!(Preset::CtrlAlt.modifiers(), MOD_CONTROL | MOD_ALT);
    assert_eq!(Preset::CtrlShiftAlt.modifiers(), MOD_CONTROL | MOD_ALT | MOD_SHIFT);
    assert_eq!(MOD_WIN, 8);
    assert_eq!(Preset::from_config("CTRL-SHIFT-ALT"), Preset::CtrlAlt);
}

#[test]
fn registration_counts_and_names_failures() {
    let mut r = Registration::default();
    assert!(!r.any_registered());
    r.record(true, "Space");
    r.record(false, "Right");
    r.record(true, "Left");
    assert_eq!(r.registered, 2);
    assert_eq!(r.failed, vec!["Right"]);
    assert!(r.any_registered());
}
