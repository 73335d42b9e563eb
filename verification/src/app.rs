//! The card's decisions: volume steps, tray clicks, the status line and tray
//! tip, which subsystems a config change touches, and edits to the folder
//! lists.
//!
//! The window, tray icon and dialogs are the front end's; it asks these
//! functions what to do and then does it.

use vstd::prelude::*;
use crate::audio::{mode_name, PlayMode};
use crate::config::{Config, ConfigModel};
use crate::menu::Action;
use crate::hotkeys::{preset_of, HotkeyAction, Preset};
use crate::library::{same_options, same_scope, ScanOptions, ScanStatus};
use crate::lists::{contains_string, strings_view};
use crate::text::str_eq;

verus! {

/// First message number reserved for applications.
pub const WM_APP: u32 = 0x8000;

/// The tray icon's callback message.
pub const WM_TRAY: u32 = WM_APP + 1;

pub const WM_CONTEXTMENU: u32 = 0x007B;

pub const WM_LBUTTONUP: u32 = 0x0202;

pub const WM_LBUTTONDBLCLK: u32 = 0x0203;

pub const WM_RBUTTONUP: u32 = 0x0205;

/// Volume change per hotkey press or wheel notch.
pub const VOLUME_STEP: i32 = 5;

/// One wheel notch.
pub const WHEEL_DELTA: i32 = 120;

/// `(current as i32 + steps * 5)` clamped to 0..=100: the volume is read as
/// an `i32`, as the player keeps it.
pub open spec fn stepped_volume_spec(current: u32, steps: i32) -> u32 {
    let v = (current as i32) + steps * 5;
    if v < 0 {
        0
    } else if v > 100 {
        100
    } else {
        v as u32
    }
}

/// The volume after `steps` notches or presses (negative for down). The sum
/// is an `i32` sum, so it must not overflow.
pub fn stepped_volume(current: u32, steps: i32) -> (r: u32)
    requires
        i32::MIN <= steps * 5 <= i32::MAX,
        i32::MIN <= (current as i32) + steps * 5 <= i32::MAX,
    ensures
        r == stepped_volume_spec(current, steps),
{
    let cur = current as i32;
    let v: i32 = cur + steps * VOLUME_STEP;
    if v < 0 {
        0
    } else if v > 100 {
        100
    } else {
        v as u32
    }
}

/// Whole wheel notches in a wheel delta (truncated toward zero).
pub fn wheel_steps(delta: i16) -> (r: i32)
    ensures
        (delta >= 0 ==> r == (delta as int) / 120),
        (delta < 0 ==> r == -((-(delta as int)) / 120)),
        -273 <= r <= 273,
{
    let d = delta as i32;
    if d >= 0 {
        d / WHEEL_DELTA
    } else {
        -((-d) / WHEEL_DELTA)
    }
}

/// What a hotkey asks of the player.
#[derive(Debug, Clone, Copy, PartialEq, Eq, Structural)]
pub enum HotkeyEffect {
    TogglePause,
    Next,
    Prev,
    /// Set (and save) this volume.
    SetVolume(u32),
}

/// Transport hotkeys go to the player; volume hotkeys step the configured
/// volume by 5 within 0..=100.
pub fn hotkey_effect(action: HotkeyAction, volume: u32) -> (r: HotkeyEffect)
    requires
        action == HotkeyAction::VolumeUp ==> (volume as i32) + 5 <= i32::MAX,
        action == HotkeyAction::VolumeDown ==> (volume as i32) - 5 >= i32::MIN,
    ensures
        r == match action {
            HotkeyAction::TogglePause => HotkeyEffect::TogglePause,
            HotkeyAction::Next => HotkeyEffect::Next,
            HotkeyAction::Prev => HotkeyEffect::Prev,
            HotkeyAction::VolumeUp => HotkeyEffect::SetVolume(stepped_volume_spec(volume, 1)),
            HotkeyAction::VolumeDown => HotkeyEffect::SetVolume(stepped_volume_spec(volume, -1i32)),
        },
{
    match action {
        HotkeyAction::TogglePause => HotkeyEffect::TogglePause,
        HotkeyAction::Next => HotkeyEffect::Next,
        HotkeyAction::Prev => HotkeyEffect::Prev,
        HotkeyAction::VolumeUp => HotkeyEffect::SetVolume(stepped_volume(volume, 1)),
        HotkeyAction::VolumeDown => HotkeyEffect::SetVolume(stepped_volume(volume, -1)),
    }
}

/// What a click on the tray icon does.
#[derive(Debug, Clone, Copy, PartialEq, Eq, Structural)]
pub enum TrayResponse {
    ShowMenu,
    OpenSettings,
    TogglePause,
    Ignore,
}

/// The tray callback reports the mouse message in the low word of `lparam`:
/// a right click (or the context-menu key) opens the menu, a double click the
/// settings, a left click toggles playback.
pub fn tray_response(lparam: isize) -> (r: TrayResponse)
    ensures
        ({
            let event = (lparam as int) % 65536;
            &&& (event == WM_RBUTTONUP || event == WM_CONTEXTMENU) ==> r == TrayResponse::ShowMenu
            &&& event == WM_LBUTTONDBLCLK ==> r == TrayResponse::OpenSettings
            &&& event == WM_LBUTTONUP ==> r == TrayResponse::TogglePause
            &&& !(event == WM_RBUTTONUP || event == WM_CONTEXTMENU || event == WM_LBUTTONDBLCLK
                || event == WM_LBUTTONUP) ==> r == TrayResponse::Ignore
        }),
{
    let low: i64 = (lparam as i64) % 65536;
    let event: i64 = if low < 0 {
        low + 65536
    } else {
        low
    };
    assert(event == (lparam as int) % 65536);
    if event == WM_RBUTTONUP as i64 || event == WM_CONTEXTMENU as i64 {
        TrayResponse::ShowMenu
    } else if event == WM_LBUTTONDBLCLK as i64 {
        TrayResponse::OpenSettings
    } else if event == WM_LBUTTONUP as i64 {
        TrayResponse::TogglePause
    } else {
        TrayResponse::Ignore
    }
}

/// The catalog entries the status line and tray tip use.
#[derive(Debug, Clone, Copy, PartialEq, Eq, Structural)]
pub enum StatusKey {
    NoAudioDevice,
    NoLibrary,
    EmptyLibrary,
    Scanning,
    /// The tray's idle text.
    TrayTip,
}

pub open spec fn status_line_spec(device_error: bool, status: ScanStatus, has_title: bool) -> Option<
    StatusKey,
> {
    if device_error {
        Some(StatusKey::NoAudioDevice)
    } else {
        match status {
            ScanStatus::NoDirs => Some(StatusKey::NoLibrary),
            ScanStatus::Empty => Some(StatusKey::EmptyLibrary),
            ScanStatus::Scanning { .. } => if has_title {
                None
            } else {
                Some(StatusKey::Scanning)
            },
            _ => None,
        }
    }
}

/// The line shown under the title when something is wrong or not set up
/// yet: a missing audio device first, then an unconfigured or empty library,
/// then "scanning" while nothing is playing yet.
pub fn status_line(device_error: bool, status: ScanStatus, has_title: bool) -> (r: Option<StatusKey>)
    ensures
        r == status_line_spec(device_error, status, has_title),
{
    if device_error {
        return Some(StatusKey::NoAudioDevice);
    }
    match status {
        ScanStatus::NoDirs => Some(StatusKey::NoLibrary),
        ScanStatus::Empty => Some(StatusKey::EmptyLibrary),
        ScanStatus::Scanning { .. } => if has_title {
            None
        } else {
            Some(StatusKey::Scanning)
        },
        _ => None,
    }
}

/// The tray tooltip: a catalog entry, or text made from the track.
#[derive(Debug, Clone, PartialEq, Eq)]
pub enum Tip {
    Key(StatusKey),
    Text(String),
}

/// With a track: its title, followed by ` — artist` when there is one.
/// Without: the library's state, or the idle text.
pub fn tray_tip(title: &str, artist: &str, status: ScanStatus) -> (r: Tip)
    ensures
        title@.len() == 0 ==> r == Tip::Key(match status {
            ScanStatus::NoDirs => StatusKey::NoLibrary,
            ScanStatus::Empty => StatusKey::EmptyLibrary,
            ScanStatus::Scanning { .. } => StatusKey::Scanning,
            _ => StatusKey::TrayTip,
        }),
        title@.len() > 0 && artist@.len() == 0 ==> (r matches Tip::Text(t) && t@ == title@),
        title@.len() > 0 && artist@.len() > 0 ==> (r matches Tip::Text(t) && t@ == title@ + " — "@
            + artist@),
{
    if title.unicode_len() == 0 {
        Tip::Key(
            match status {
                ScanStatus::NoDirs => StatusKey::NoLibrary,
                ScanStatus::Empty => StatusKey::EmptyLibrary,
                ScanStatus::Scanning { .. } => StatusKey::Scanning,
                _ => StatusKey::TrayTip,
            },
        )
    } else if artist.unicode_len() == 0 {
        Tip::Text(String::from_str(title))
    } else {
        let mut t = String::from_str(title);
        t.append(" — ");
        t.append(artist);
        Tip::Text(t)
    }
}

/// What happens to the global hotkeys after a config change.
#[derive(Debug, Clone, Copy, PartialEq, Eq, Structural)]
pub enum HotkeyChange {
    Keep,
    Register(Preset),
    Unregister,
}

/// Which subsystems a config change touches. Everything else (play mode,
/// autoplay, volume, theme, layout) is re-sent unconditionally.
#[derive(Debug, Clone, Copy, PartialEq, Eq, Structural)]
pub struct ConfigChanges {
    pub language: bool,
    pub hotkeys: HotkeyChange,
    /// `Some(on)`: install (`true`) or remove (`false`) the logon entry.
    pub autostart: Option<bool>,
    pub rescan: bool,
}

pub open spec fn scope_of(c: Config) -> (Seq<Seq<char>>, bool, Seq<Seq<char>>, Seq<Seq<char>>) {
    (strings_view(c.library@), c.scan_recursive, strings_view(c.exclude_dirs@), strings_view(c.extensions@))
}

/// Compares the previous config with the new one: the language is re-read
/// when it changed; hotkeys are re-registered (or released) when the switch
/// or the preset changed; the logon entry follows the autostart flag when it
/// changed; and the library is rescanned when the scan scope changed.
pub fn plan_changes(old: &Config, new: &Config) -> (r: ConfigChanges)
    ensures
        r.language == (old.language@ != new.language@),
        r.hotkeys == (if old.hotkeys_enabled != new.hotkeys_enabled || old.hotkey_preset@
            != new.hotkey_preset@ {
            if new.hotkeys_enabled {
                HotkeyChange::Register(preset_of(new.hotkey_preset@))
            } else {
                HotkeyChange::Unregister
            }
        } else {
            HotkeyChange::Keep
        }),
        r.autostart == (if old.autostart != new.autostart {
            Some(new.autostart)
        } else {
            None
        }),
        r.rescan == (scope_of(*old) != scope_of(*new)),
{
    let language = !str_eq(old.language.as_str(), new.language.as_str());
    let hotkeys = if old.hotkeys_enabled != new.hotkeys_enabled || !str_eq(
        old.hotkey_preset.as_str(),
        new.hotkey_preset.as_str(),
    ) {
        if new.hotkeys_enabled {
            HotkeyChange::Register(Preset::from_config(new.hotkey_preset.as_str()))
        } else {
            HotkeyChange::Unregister
        }
    } else {
        HotkeyChange::Keep
    };
    let autostart = if old.autostart != new.autostart {
        Some(new.autostart)
    } else {
        None
    };
    let a = ScanOptions::from_config(old);
    let b = ScanOptions::from_config(new);
    let same = same_options(&a, &b);
    proof {
        if same_scope(a, b) {
            assert(scope_of(*old) == scope_of(*new));
        } else {
            assert(scope_of(*old) != scope_of(*new));
        }
    }
    ConfigChanges { language, hotkeys, autostart, rescan: !same }
}

/// Appends each of `items` that the list does not hold yet, in order.
pub open spec fn add_unique_spec(list: Seq<Seq<char>>, items: Seq<Seq<char>>) -> Seq<Seq<char>>
    decreases items.len(),
{
    if items.len() == 0 {
        list
    } else {
        let before = add_unique_spec(list, items.drop_last());
        if before.contains(items.last()) {
            before
        } else {
            before.push(items.last())
        }
    }
}

/// Adds picked folders to a folder list, skipping ones it already holds.
pub fn add_unique(list: &mut Vec<String>, items: &Vec<String>)
    ensures
        strings_view(final(list)@) == add_unique_spec(strings_view(old(list)@), strings_view(items@)),
{
    let ghost start = strings_view(list@);
    let ghost iv = strings_view(items@);
    let mut i: usize = 0;
    while i < items.len()
        invariant
            i <= items@.len(),
            start == strings_view(old(list)@),
            iv == strings_view(items@),
            strings_view(list@) == add_unique_spec(start, iv.subrange(0, i as int)),
        decreases items@.len() - i,
    {
        assert(iv.subrange(0, i + 1).drop_last() =~= iv.subrange(0, i as int));
        assert(iv.subrange(0, i + 1).last() == items@[i as int]@);
        if !contains_string(list, items[i].as_str()) {
            let entry = items[i].clone();
            let ghost prev = list@;
            list.push(entry);
            assert(strings_view(list@) =~= strings_view(prev).push(items@[i as int]@));
        }
        i = i + 1;
    }
    assert(iv.subrange(0, items@.len() as int) =~= iv);
}

/// Removes the entry at `index` when there is one; returns whether it did.
pub fn remove_at(list: &mut Vec<String>, index: usize) -> (r: bool)
    ensures
        r == (index < old(list)@.len()),
        r ==> final(list)@ == old(list)@.remove(index as int),
        !r ==> final(list)@ == old(list)@,
{
    if index < list.len() {
        list.remove(index);
        true
    } else {
        false
    }
}


/// A command for the audio thread.
#[derive(Debug, Clone, Copy, PartialEq, Eq, Structural)]
pub enum PlayerCommand {
    TogglePause,
    Prev,
    Next,
    SetPlayMode(PlayMode),
    SetAutoplay(bool),
}

/// What the front end does after a menu choice.
#[derive(Debug, Clone, Copy, PartialEq, Eq, Structural)]
pub enum Step {
    Player(PlayerCommand),
    /// Write the config file.
    Save,
    /// Walk the library again, keeping the current track.
    Rescan,
    Redraw,
    /// Put the card back on its window layer.
    Restack,
    /// Move and size the card for its monitor.
    Relayout,
    /// Add or remove the logon entry, then record the outcome.
    SetAutostart(bool),
    AddFolders,
    ReplaceFolders,
    OpenFirstFolder,
    ClearFolders,
    ExcludeFolder,
    ToggleMove,
    OpenSettings,
    OpenConfig,
    ReloadConfig,
    About,
    Close,
}

/// A menu choice: how the config changes and what follows, in order.
pub open spec fn perform_spec(c: ConfigModel, action: Action) -> (ConfigModel, Seq<Step>) {
    match action {
        Action::TogglePlay => (c, seq![Step::Player(PlayerCommand::TogglePause)]),
        Action::Prev => (c, seq![Step::Player(PlayerCommand::Prev)]),
        Action::Next => (c, seq![Step::Player(PlayerCommand::Next)]),
        Action::PlayMode(m) => (
            ConfigModel { play_mode: mode_name(m), ..c },
            seq![Step::Player(PlayerCommand::SetPlayMode(m)), Step::Save],
        ),
        Action::AddFolder => (c, seq![Step::AddFolders]),
        Action::ReplaceFolder => (c, seq![Step::ReplaceFolders]),
        Action::OpenFirstFolder => (c, seq![Step::OpenFirstFolder]),
        Action::ClearFolders => (c, seq![Step::ClearFolders]),
        Action::ToggleRecursive => (
            ConfigModel { scan_recursive: !c.scan_recursive, ..c },
            seq![Step::Save, Step::Rescan],
        ),
        Action::ExcludeFolder => (c, seq![Step::ExcludeFolder]),
        Action::Rescan => (c, seq![Step::Rescan]),
        Action::ToggleAutostart => (c, seq![Step::SetAutostart(!c.autostart)]),
        Action::ToggleAutoplay => (
            ConfigModel { autoplay: !c.autoplay, ..c },
            seq![Step::Player(PlayerCommand::SetAutoplay(!c.autoplay)), Step::Save],
        ),
        Action::ShowControls(v) => (ConfigModel { show_controls: v@, ..c }, seq![Step::Save, Step::Redraw]),
        Action::WindowMode(v) => (ConfigModel { mode: v@, ..c }, seq![Step::Save, Step::Restack]),
        Action::Monitor(i) => (ConfigModel { monitor: i, ..c }, seq![Step::Save, Step::Relayout]),
        Action::ToggleMove => (c, seq![Step::ToggleMove]),
        Action::Settings => (c, seq![Step::OpenSettings]),
        Action::OpenConfig => (c, seq![Step::OpenConfig]),
        Action::ReloadConfig => (c, seq![Step::ReloadConfig]),
        Action::About => (c, seq![Step::About]),
        Action::Exit => (c, seq![Step::Close]),
    }
}

/// Carries out the config side of a menu choice and lists what the front end
/// does next.
pub fn perform(cfg: &mut Config, action: Action) -> (r: Vec<Step>)
    ensures
        (final(cfg)@, r@) == perform_spec(old(cfg)@, action),
{
    let steps: Vec<Step> = match action {
        Action::TogglePlay => vec![Step::Player(PlayerCommand::TogglePause)],
        Action::Prev => vec![Step::Player(PlayerCommand::Prev)],
        Action::Next => vec![Step::Player(PlayerCommand::Next)],
        Action::PlayMode(m) => {
            cfg.play_mode = String::from_str(m.as_str());
            vec![Step::Player(PlayerCommand::SetPlayMode(m)), Step::Save]
        },
        Action::AddFolder => vec![Step::AddFolders],
        Action::ReplaceFolder => vec![Step::ReplaceFolders],
        Action::OpenFirstFolder => vec![Step::OpenFirstFolder],
        Action::ClearFolders => vec![Step::ClearFolders],
        Action::ToggleRecursive => {
            cfg.scan_recursive = !cfg.scan_recursive;
            vec![Step::Save, Step::Rescan]
        },
        Action::ExcludeFolder => vec![Step::ExcludeFolder],
        Action::Rescan => vec![Step::Rescan],
        Action::ToggleAutostart => vec![Step::SetAutostart(!cfg.autostart)],
        Action::ToggleAutoplay => {
            cfg.autoplay = !cfg.autoplay;
            vec![Step::Player(PlayerCommand::SetAutoplay(cfg.autoplay)), Step::Save]
        },
        Action::ShowControls(v) => {
            cfg.show_controls = String::from_str(v);
            vec![Step::Save, Step::Redraw]
        },
        Action::WindowMode(v) => {
            cfg.mode = String::from_str(v);
            vec![Step::Save, Step::Restack]
        },
        Action::Monitor(i) => {
            cfg.monitor = i;
            vec![Step::Save, Step::Relayout]
        },
        Action::ToggleMove => vec![Step::ToggleMove],
        Action::Settings => vec![Step::OpenSettings],
        Action::OpenConfig => vec![Step::OpenConfig],
        Action::ReloadConfig => vec![Step::ReloadConfig],
        Action::About => vec![Step::About],
        Action::Exit => vec![Step::Close],
    };
    proof {
        assert(steps@ =~= perform_spec(old(cfg)@, action).1);
    }
    steps
}

/// What `set_autostart` leaves in the config: the requested value when the
/// registry change worked, otherwise whatever the registry now says, so the
/// checkbox never claims a write that did not happen.
pub fn autostart_after(requested: bool, succeeded: bool, installed_now: bool) -> (r: bool)
    ensures
        r == (if succeeded {
            requested
        } else {
            installed_now
        }),
{
    if succeeded {
        requested
    } else {
        installed_now
    }
}

/// The transport entries go to the player as the command of the same name:
/// Next skips ahead, Previous goes back, Play/Pause toggles. None of them
/// touches the config, and each sends that one command only.
pub proof fn transport_actions_send_their_own_command(c: ConfigModel)
    ensures
        perform_spec(c, Action::Next) == (c, seq![Step::Player(PlayerCommand::Next)]),
        perform_spec(c, Action::Prev) == (c, seq![Step::Player(PlayerCommand::Prev)]),
        perform_spec(c, Action::TogglePlay) == (c, seq![Step::Player(PlayerCommand::TogglePause)]),
{
}

/// Whatever a menu choice sends to the player is what was chosen: the
/// transport command of the same name, the chosen play mode, or the autoplay
/// setting as it now stands in the config. Other choices send the player
/// nothing.
pub proof fn the_player_gets_what_was_chosen(c: ConfigModel, a: Action, i: int)
    requires
        0 <= i < perform_spec(c, a).1.len(),
    ensures
        perform_spec(c, a).1[i] matches Step::Player(cmd) ==> match a {
            Action::Next => cmd == PlayerCommand::Next,
            Action::Prev => cmd == PlayerCommand::Prev,
            Action::TogglePlay => cmd == PlayerCommand::TogglePause,
            Action::PlayMode(m) => cmd == PlayerCommand::SetPlayMode(m),
            Action::ToggleAutoplay => cmd == PlayerCommand::SetAutoplay(perform_spec(c, a).0.autoplay),
            _ => false,
        },
{
}

/// A menu choice changes at most the one setting it names: the play mode,
/// subfolder scanning, autoplay, the controls, the window layer or the
/// monitor. Autostart is asked for as a step (the opposite of its current
/// state) rather than written to the config, and every other field stays.
pub proof fn a_menu_choice_changes_only_its_own_setting(c: ConfigModel, a: Action)
    ensures
        ({
            let n = perform_spec(c, a).0;
            &&& n.scan_recursive == (if a is ToggleRecursive {
                !c.scan_recursive
            } else {
                c.scan_recursive
            })
            &&& n.autoplay == (if a is ToggleAutoplay {
                !c.autoplay
            } else {
                c.autoplay
            })
            &&& n.play_mode == (match a {
                Action::PlayMode(m) => mode_name(m),
                _ => c.play_mode,
            })
            &&& n.show_controls == (match a {
                Action::ShowControls(v) => v@,
                _ => c.show_controls,
            })
            &&& n.mode == (match a {
                Action::WindowMode(v) => v@,
                _ => c.mode,
            })
            &&& n.monitor == (match a {
                Action::Monitor(i) => i,
                _ => c.monitor,
            })
            &&& n.autostart == c.autostart
            &&& n.library == c.library
            &&& n.exclude_dirs == c.exclude_dirs
            &&& n.volume == c.volume
            &&& n.language == c.language
            &&& n.hotkey_preset == c.hotkey_preset
            &&& n.width == c.width && n.height == c.height
        }),
        a is ToggleAutostart ==> perform_spec(c, a).1 == seq![Step::SetAutostart(!c.autostart)],
{
}

/// Choosing a toggle from the menu twice leaves the config as it was.
pub proof fn toggling_twice_restores(c: ConfigModel)
    ensures
        perform_spec(perform_spec(c, Action::ToggleRecursive).0, Action::ToggleRecursive).0 == c,
        perform_spec(perform_spec(c, Action::ToggleAutoplay).0, Action::ToggleAutoplay).0 == c,
{
}

/// A play mode chosen from the menu is stored in its config spelling, so the
/// next start picks the same mode.
pub proof fn chosen_play_mode_survives_a_restart(c: ConfigModel, m: PlayMode)
    ensures
        crate::audio::mode_of(perform_spec(c, Action::PlayMode(m)).0.play_mode) == m,
{
    crate::audio::play_mode_round_trip(m);
}

} // verus!
