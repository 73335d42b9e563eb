use desktop_music_widget::app::{
    autostart_after, perform, PlayerCommand, Step, add_unique, hotkey_effect, plan_changes, remove_at, status_line, stepped_volume, tray_response,
    tray_tip, wheel_steps, HotkeyChange, HotkeyEffect, StatusKey, Tip, TrayResponse, WM_APP,
    WM_CONTEXTMENU, WM_LBUTTONDBLCLK, WM_LBUTTONUP, WM_RBUTTONUP, WM_TRAY,
};
use desktop_music_widget::config::Config;
use desktop_music_widget::audio::PlayMode;
use desktop_music_widget::hotkeys::{HotkeyAction, Preset};
use desktop_music_widget::menu::Action;
use desktop_music_widget::library::ScanStatus;
use desktop_music_widget::text::fill_wide;

#[test]
fn wide_buffers_are_nul_terminated_and_truncated() {
    let mut buf = [1u16; 8];
    fill_wide(&mut buf, "abc");
    assert_eq!(&buf[..4], &[b'a' as u16, b'b' as u16, b'c' as u16, 0]);
    assert!(buf[4..].iter().all(|c| *c == 0), "tail must be zeroed");

    let mut small = [1u16; 4];
    fill_wide(&mut small, "abcdef");
    assert_eq!(small[3], 0, "must stay terminated when truncated");
}

#[test]
fn tray_callback_is_a_wm_app_range_message() {
    // The tray callback must be a WM_APP-range message so it cannot be
    // confused with a system message delivered to the same window procedure.
    let callback: u32 = WM_TRAY;
    let wm_app_base: u32 = 0x8000;
    assert!(callback >= wm_app_base, "tray callback must be WM_APP based");
    assert_eq!(callback, WM_APP + 1);
}

#[test]
fn volume_steps_by_five_and_stays_in_range() {
    assert_eq!(stepped_volume(70, 1), 75);
    assert_eq!(stepped_volume(70, -2), 60);
    assert_eq!(stepped_volume(98, 1), 100);
    assert_eq!(stepped_volume(3, -1), 0);
    assert_eq!(stepped_volume(500, 0), 100);
    assert_eq!(wheel_steps(120), 1);
    assert_eq!(wheel_steps(-240), -2);
    assert_eq!(wheel_steps(60), 0);
    assert_eq!(wheel_steps(-60), 0);
    assert_eq!(hotkey_effect(HotkeyAction::VolumeUp, 70), HotkeyEffect::SetVolume(75));
    assert_eq!(hotkey_effect(HotkeyAction::VolumeDown, 0), HotkeyEffect::SetVolume(0));
    assert_eq!(hotkey_effect(HotkeyAction::Next, 10), HotkeyEffect::Next);
}

#[test]
fn tray_clicks_map_to_responses() {
    assert_eq!(tray_response(WM_RBUTTONUP as isize), TrayResponse::ShowMenu);
    assert_eq!(tray_response(WM_CONTEXTMENU as isize), TrayResponse::ShowMenu);
    assert_eq!(tray_response(WM_LBUTTONDBLCLK as isize), TrayResponse::OpenSettings);
    assert_eq!(tray_response(WM_LBUTTONUP as isize), TrayResponse::TogglePause);
    assert_eq!(tray_response(0x0200), TrayResponse::Ignore);
    // Only the low word is the event.
    assert_eq!(tray_response(0x0003_0205), TrayResponse::ShowMenu);
}

#[test]
fn status_and_tooltip_follow_the_library() {
    assert_eq!(status_line(true, ScanStatus::Ready { total: 3 }, true), Some(StatusKey::NoAudioDevice));
    assert_eq!(status_line(false, ScanStatus::NoDirs, false), Some(StatusKey::NoLibrary));
    assert_eq!(status_line(false, ScanStatus::Empty, true), Some(StatusKey::EmptyLibrary));
    assert_eq!(status_line(false, ScanStatus::Scanning { found: 4 }, false), Some(StatusKey::Scanning));
    assert_eq!(status_line(false, ScanStatus::Scanning { found: 4 }, true), None);
    assert_eq!(status_line(false, ScanStatus::Ready { total: 4 }, false), None);
    assert_eq!(tray_tip("", "", ScanStatus::Idle), Tip::Key(StatusKey::TrayTip));
    assert_eq!(tray_tip("Song", "", ScanStatus::Idle), Tip::Text("Song".into()));
    assert_eq!(tray_tip("Song", "Band", ScanStatus::Idle), Tip::Text("Song — Band".into()));
}

#[test]
fn applying_settings_plans_only_what_changed() {
    let old = Config::default();
    let same = plan_changes(&old, &old.clone());
    assert!(!same.language && !same.rescan);
    assert_eq!(same.hotkeys, HotkeyChange::Keep);
    assert_eq!(same.autostart, None);

    let mut new = old.clone();
    new.language = "en".into();
    new.hotkey_preset = "ctrl-shift-alt".into();
    new.autostart = true;
    new.scan_recursive = false;
    let plan = plan_changes(&old, &new);
    assert!(plan.language && plan.rescan);
    assert_eq!(plan.hotkeys, HotkeyChange::Register(Preset::CtrlShiftAlt));
    assert_eq!(plan.autostart, Some(true));

    let mut off = old.clone();
    off.hotkeys_enabled = false;
    assert_eq!(plan_changes(&old, &off).hotkeys, HotkeyChange::Unregister);
}

#[test]
fn folder_lists_gain_new_entries_once() {
    let mut list: Vec<String> = vec!["C:\\A".into()];
    add_unique(&mut list, &vec!["C:\\B".into(), "C:\\A".into(), "C:\\B".into()]);
    assert_eq!(list, vec!["C:\\A".to_string(), "C:\\B".to_string()]);
    assert!(remove_at(&mut list, 0));
    assert_eq!(list, vec!["C:\\B".to_string()]);
    assert!(!remove_at(&mut list, 5));
    assert_eq!(list.len(), 1);
}

#[test]
fn menu_choices_update_the_config_and_say_what_follows() {
    let mut cfg = Config::default();
    assert_eq!(
        perform(&mut cfg, Action::PlayMode(PlayMode::RepeatOne)),
        vec![Step::Player(PlayerCommand::SetPlayMode(PlayMode::RepeatOne)), Step::Save]
    );
    assert_eq!(cfg.play_mode, "repeat-one");
    assert_eq!(PlayMode::from_config(&cfg.play_mode), PlayMode::RepeatOne);

    assert_eq!(perform(&mut cfg, Action::ToggleRecursive), vec![Step::Save, Step::Rescan]);
    assert!(!cfg.scan_recursive);
    perform(&mut cfg, Action::ToggleRecursive);
    assert!(cfg.scan_recursive, "toggling twice restores");

    assert_eq!(
        perform(&mut cfg, Action::ToggleAutoplay),
        vec![Step::Player(PlayerCommand::SetAutoplay(false)), Step::Save]
    );
    assert_eq!(perform(&mut cfg, Action::ToggleAutostart), vec![Step::SetAutostart(true)]);
    assert!(!cfg.autostart, "the registry write decides");
    assert_eq!(perform(&mut cfg, Action::Monitor(2)), vec![Step::Save, Step::Relayout]);
    assert_eq!(cfg.monitor, 2);
    assert_eq!(perform(&mut cfg, Action::WindowMode("topmost")), vec![Step::Save, Step::Restack]);
    assert_eq!(cfg.mode, "topmost");
    assert_eq!(perform(&mut cfg, Action::Exit), vec![Step::Close]);
    assert!(autostart_after(true, true, false));
    assert!(!autostart_after(true, false, false));
    assert!(autostart_after(false, false, true));
}

#[test]
fn volume_steps_read_the_volume_as_an_i32() {
    assert_eq!(stepped_volume(u32::MAX, 1), 4);
    assert_eq!(stepped_volume(50, -273), 0);
    assert_eq!(stepped_volume(50, 273), 100);
    assert_eq!(wheel_steps(i16::MIN), -273);
    assert_eq!(wheel_steps(i16::MAX), 273);
}
