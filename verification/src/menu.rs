//! The context menu, shared by the tray icon and the card.
//!
//! Every id is an explicit constant, so radio groups are contiguous ranges
//! and no two entries collide. The menu is described here as the sequence of
//! operations that builds it (append an entry, attach a submenu, mark a radio
//! choice); the front end performs them with the Win32 menu calls and keeps
//! the id-to-action table this module also answers from.

use vstd::prelude::*;
use crate::audio::PlayMode;
use crate::screen::{primary_index, primary_index_spec, Rect};
use crate::text::str_eq;

verus! {

pub const ID_PLAYPAUSE: u32 = 1001;

pub const ID_PREV: u32 = 1002;

pub const ID_NEXT: u32 = 1003;

/// Play-mode group: three contiguous ids.
pub const PLAY_MODE_FIRST: u32 = 1010;

pub const PLAY_MODES: [PlayMode; 3] = [PlayMode::Sequential, PlayMode::Shuffle, PlayMode::RepeatOne];

pub const PLAY_MODE_IDS: [u32; 3] = [1010, 1011, 1012];

pub const ID_ADD_FOLDER: u32 = 1020;

pub const ID_REPLACE_FOLDER: u32 = 1021;

pub const ID_OPEN_FOLDER: u32 = 1022;

pub const ID_CLEAR_FOLDERS: u32 = 1023;

pub const ID_TOGGLE_RECURSIVE: u32 = 1030;

pub const ID_EXCLUDE_FOLDER: u32 = 1031;

pub const ID_RESCAN: u32 = 1032;

pub const ID_AUTOSTART: u32 = 1040;

pub const ID_AUTOPLAY: u32 = 1041;

/// Controls group: two contiguous ids.
pub const CONTROLS_FIRST: u32 = 1050;

pub const CONTROLS: [&'static str; 2] = ["hover", "always"];

pub const CONTROLS_IDS: [u32; 2] = [1050, 1051];

/// Window-layer group: two contiguous ids.
pub const MODE_FIRST: u32 = 1060;

pub const MODES: [&'static str; 2] = ["bottom", "topmost"];

pub const MODE_IDS: [u32; 2] = [1060, 1061];

/// Monitor group: `MONITOR_FIRST + index`.
pub const MONITOR_FIRST: u32 = 1070;

/// Enough ids for any realistic wall; anything beyond falls back to primary.
pub const MONITOR_LIMIT: u32 = 16;

pub const ID_TOGGLE_MOVE: u32 = 1100;

pub const ID_SETTINGS: u32 = 1090;

pub const ID_OPEN_CONFIG: u32 = 1091;

pub const ID_RELOAD_CONFIG: u32 = 1092;

pub const ID_ABOUT: u32 = 1093;

pub const ID_EXIT: u32 = 1099;

/// Every command the menu can produce.
#[derive(Debug, Clone, Copy, PartialEq, Eq)]
pub enum Action {
    TogglePlay,
    Prev,
    Next,
    PlayMode(PlayMode),
    AddFolder,
    ReplaceFolder,
    OpenFirstFolder,
    ClearFolders,
    ToggleRecursive,
    ExcludeFolder,
    Rescan,
    ToggleAutostart,
    ToggleAutoplay,
    ShowControls(&'static str),
    WindowMode(&'static str),
    Monitor(i32),
    ToggleMove,
    Settings,
    OpenConfig,
    ReloadConfig,
    About,
    Exit,
}

/// The catalog entry each menu text comes from.
#[derive(Debug, Clone, Copy, PartialEq, Eq)]
pub enum Label {
    MenuPause,
    MenuPlay,
    MenuNext,
    MenuPrev,
    MenuPlayMode,
    PlayModeSequential,
    PlayModeShuffle,
    PlayModeRepeatOne,
    MenuLibrary,
    MenuAddFolder,
    MenuReplaceFolder,
    MenuOpenFolder,
    MenuClearFolders,
    MenuScan,
    MenuScanRecursive,
    MenuExcludeFolder,
    MenuRescan,
    MenuAutostart,
    MenuAutoplay,
    MenuShowControls,
    ShowControlsHover,
    ShowControlsAlways,
    MenuZOrder,
    ModeBottom,
    ModeTopmost,
    MenuMonitor,
    /// "Monitor N", numbered from one.
    MonitorItem(usize),
    MenuMoveWindow,
    MenuSettings,
    MenuOpenConfig,
    MenuReloadConfig,
    MenuAbout,
    MenuExit,
}

/// The menu a step applies to: 0 is the top level, `k` the `k`-th submenu
/// created.
pub type MenuRef = u32;

/// One step of building the menu.
#[derive(Debug, Clone, Copy, PartialEq, Eq)]
pub enum MenuOp {
    /// A command entry.
    Item { menu: MenuRef, label: Label, id: u32, action: Action },
    /// A command entry with a check mark state.
    Checked { menu: MenuRef, label: Label, id: u32, action: Action, on: bool },
    /// A greyed-out entry with no action.
    Disabled { menu: MenuRef, label: Label, id: u32 },
    Separator { menu: MenuRef },
    /// Hangs submenu `child` off the top level under `label`.
    Attach { child: MenuRef, label: Label },
    /// Marks `check` as the chosen entry of the radio group `first..=last`.
    Radio { menu: MenuRef, first: u32, last: u32, check: u32 },
}

pub open spec fn play_mode_label_spec(mode: PlayMode) -> Label {
    match mode {
        PlayMode::Sequential => Label::PlayModeSequential,
        PlayMode::Shuffle => Label::PlayModeShuffle,
        PlayMode::RepeatOne => Label::PlayModeRepeatOne,
    }
}

pub fn play_mode_label(mode: PlayMode) -> (r: Label)
    ensures
        r == play_mode_label_spec(mode),
{
    match mode {
        PlayMode::Sequential => Label::PlayModeSequential,
        PlayMode::Shuffle => Label::PlayModeShuffle,
        PlayMode::RepeatOne => Label::PlayModeRepeatOne,
    }
}

/// Position of the first entry equal to `needle`, or 0.
pub open spec fn index_in(values: Seq<Seq<char>>, needle: Seq<char>) -> int {
    if values.contains(needle) {
        choose|i: int| 0 <= i < values.len() && values[i] == needle && forall|k: int| 0 <= k < i ==> values[k] != needle
    } else {
        0
    }
}

/// Index of `needle` in `values`, or 0: every group contains the configured
/// value once the config is validated, but the fallback keeps a radio group
/// well-formed anyway.
pub fn index_of(values: &[&'static str], needle: &str) -> (r: usize)
    ensures
        r == index_in(crate::config::strs_view(values@), needle@),
        values@.len() > 0 ==> r < values@.len(),
{
    let ghost vs = crate::config::strs_view(values@);
    let mut i: usize = 0;
    assert(crate::config::strs_view(values@).len() == values@.len());
    while i < values.len()
        invariant
            i <= values@.len(),
            vs == crate::config::strs_view(values@),
            forall|k: int| 0 <= k < i ==> vs[k] != needle@,
        decreases values@.len() - i,
    {
        if str_eq(values[i], needle) {
            proof {
                assert(vs[i as int] == needle@);
                assert(vs.contains(needle@));
                let j = choose|j: int| 0 <= j < vs.len() && vs[j] == needle@ && forall|k: int| 0 <= k < j ==> vs[k] != needle@;
                assert(0 <= j < vs.len() && vs[j] == needle@);
                if j < i {
                    assert(vs[j] != needle@);
                }
                if (i as int) < j {
                    assert(vs[i as int] != needle@);
                }
            }
            return i;
        }
        i = i + 1;
    }
    proof {
        if vs.contains(needle@) {
            let j = choose|j: int| 0 <= j < vs.len() && vs[j] == needle@;
            assert(vs[j] != needle@);
        }
    }
    0
}

/// Position of a play mode in [`PLAY_MODES`].
pub open spec fn play_mode_index_spec(mode: PlayMode) -> int {
    match mode {
        PlayMode::Sequential => 0,
        PlayMode::Shuffle => 1,
        PlayMode::RepeatOne => 2,
    }
}

pub fn play_mode_index(mode: PlayMode) -> (r: usize)
    ensures
        r == play_mode_index_spec(mode),
        PLAY_MODES@[r as int] == mode,
{
    match mode {
        PlayMode::Sequential => 0,
        PlayMode::Shuffle => 1,
        PlayMode::RepeatOne => 2,
    }
}

/// The radio mark for a group: the selection is clamped to the group, and an
/// empty group gets none.
pub open spec fn radio_spec(menu: MenuRef, group: Seq<u32>, selected: int) -> Seq<MenuOp> {
    if group.len() == 0 {
        Seq::empty()
    } else {
        let index = if selected < group.len() {
            selected
        } else {
            group.len() - 1
        };
        seq![MenuOp::Radio { menu, first: group[0], last: group.last(), check: group[index] }]
    }
}

/// Marks one entry of a contiguous group as the selected radio button.
pub fn check_radio(ops: &mut Vec<MenuOp>, menu: MenuRef, group: &[u32], selected: usize)
    ensures
        final(ops)@ == old(ops)@ + radio_spec(menu, group@, selected as int),
{
    if group.len() == 0 {
        assert(old(ops)@ + Seq::<MenuOp>::empty() =~= old(ops)@);
        return;
    }
    let index = if selected < group.len() {
        selected
    } else {
        group.len() - 1
    };
    ops.push(MenuOp::Radio { menu, first: group[0], last: group[group.len() - 1], check: group[index] });
    assert(ops@ =~= old(ops)@ + radio_spec(menu, group@, selected as int));
}

/// What the menu depends on.
pub struct MenuState {
    pub playing: bool,
    pub play_mode: PlayMode,
    pub library_empty: bool,
    pub scan_recursive: bool,
    pub autostart: bool,
    pub autoplay: bool,
    pub show_controls: String,
    pub mode: String,
    /// The monitors, in the arranged order.
    pub monitors: Vec<Rect>,
    /// The configured monitor (-1 for the primary).
    pub monitor: i32,
    pub moving: bool,
}


pub open spec fn transport_ops(playing: bool) -> Seq<MenuOp> {
    seq![
        MenuOp::Item {
            menu: 0,
            label: if playing {
                Label::MenuPause
            } else {
                Label::MenuPlay
            },
            id: ID_PLAYPAUSE,
            action: Action::TogglePlay,
        },
        MenuOp::Item { menu: 0, label: Label::MenuNext, id: ID_NEXT, action: Action::Next },
        MenuOp::Item { menu: 0, label: Label::MenuPrev, id: ID_PREV, action: Action::Prev },
        MenuOp::Separator { menu: 0 },
    ]
}

pub open spec fn play_mode_ops(mode: PlayMode) -> Seq<MenuOp> {
    seq![
        MenuOp::Item {
            menu: 1,
            label: Label::PlayModeSequential,
            id: 1010,
            action: Action::PlayMode(PlayMode::Sequential),
        },
        MenuOp::Item {
            menu: 1,
            label: Label::PlayModeShuffle,
            id: 1011,
            action: Action::PlayMode(PlayMode::Shuffle),
        },
        MenuOp::Item {
            menu: 1,
            label: Label::PlayModeRepeatOne,
            id: 1012,
            action: Action::PlayMode(PlayMode::RepeatOne),
        },
    ] + radio_spec(1, PLAY_MODE_IDS@, play_mode_index_spec(mode)) + seq![
        MenuOp::Attach { child: 1, label: Label::MenuPlayMode },
        MenuOp::Separator { menu: 0 },
    ]
}

pub open spec fn library_ops(empty: bool) -> Seq<MenuOp> {
    seq![
        MenuOp::Item { menu: 2, label: Label::MenuAddFolder, id: ID_ADD_FOLDER, action: Action::AddFolder },
        MenuOp::Item {
            menu: 2,
            label: Label::MenuReplaceFolder,
            id: ID_REPLACE_FOLDER,
            action: Action::ReplaceFolder,
        },
    ] + (if empty {
        seq![
            MenuOp::Disabled { menu: 2, label: Label::MenuOpenFolder, id: ID_OPEN_FOLDER },
            MenuOp::Disabled { menu: 2, label: Label::MenuClearFolders, id: ID_CLEAR_FOLDERS },
        ]
    } else {
        seq![
            MenuOp::Item {
                menu: 2,
                label: Label::MenuOpenFolder,
                id: ID_OPEN_FOLDER,
                action: Action::OpenFirstFolder,
            },
            MenuOp::Item {
                menu: 2,
                label: Label::MenuClearFolders,
                id: ID_CLEAR_FOLDERS,
                action: Action::ClearFolders,
            },
        ]
    }) + seq![MenuOp::Attach { child: 2, label: Label::MenuLibrary }]
}

pub open spec fn scan_ops(recursive: bool) -> Seq<MenuOp> {
    seq![
        MenuOp::Checked {
            menu: 3,
            label: Label::MenuScanRecursive,
            id: ID_TOGGLE_RECURSIVE,
            action: Action::ToggleRecursive,
            on: recursive,
        },
        MenuOp::Item {
            menu: 3,
            label: Label::MenuExcludeFolder,
            id: ID_EXCLUDE_FOLDER,
            action: Action::ExcludeFolder,
        },
        MenuOp::Separator { menu: 3 },
        MenuOp::Item { menu: 3, label: Label::MenuRescan, id: ID_RESCAN, action: Action::Rescan },
        MenuOp::Attach { child: 3, label: Label::MenuScan },
        MenuOp::Separator { menu: 0 },
        ]
}

pub open spec fn startup_ops(autostart: bool, autoplay: bool) -> Seq<MenuOp> {
    seq![
        MenuOp::Checked {
            menu: 0,
            label: Label::MenuAutostart,
            id: ID_AUTOSTART,
            action: Action::ToggleAutostart,
            on: autostart,
        },
        MenuOp::Checked {
            menu: 0,
            label: Label::MenuAutoplay,
            id: ID_AUTOPLAY,
            action: Action::ToggleAutoplay,
            on: autoplay,
        },
    ]
}

pub open spec fn controls_ops(show_controls: Seq<char>) -> Seq<MenuOp> {
    seq![
        MenuOp::Item {
            menu: 4,
            label: Label::ShowControlsHover,
            id: 1050,
            action: Action::ShowControls(CONTROLS@[0]),
        },
        MenuOp::Item {
            menu: 4,
            label: Label::ShowControlsAlways,
            id: 1051,
            action: Action::ShowControls(CONTROLS@[1]),
        },
    ] + radio_spec(4, CONTROLS_IDS@, index_in(crate::config::strs_view(CONTROLS@), show_controls))
        + seq![MenuOp::Attach { child: 4, label: Label::MenuShowControls }]
}

pub open spec fn layer_ops(mode: Seq<char>) -> Seq<MenuOp> {
    seq![
        MenuOp::Item { menu: 5, label: Label::ModeBottom, id: 1060, action: Action::WindowMode(MODES@[0]) },
        MenuOp::Item { menu: 5, label: Label::ModeTopmost, id: 1061, action: Action::WindowMode(MODES@[1]) },
    ] + radio_spec(5, MODE_IDS@, index_in(crate::config::strs_view(MODES@), mode)) + seq![
        MenuOp::Attach { child: 5, label: Label::MenuZOrder },
    ]
}

/// How many monitors get an entry.
pub open spec fn shown_monitors(n: int) -> int {
    if n < MONITOR_LIMIT {
        n
    } else {
        MONITOR_LIMIT as int
    }
}

pub open spec fn monitor_ids(shown: int) -> Seq<u32> {
    Seq::new(shown as nat, |i: int| (MONITOR_FIRST + i) as u32)
}

/// The entries "Monitor 1" to "Monitor `shown`".
pub open spec fn monitor_items(shown: int) -> Seq<MenuOp> {
    Seq::new(
        shown as nat,
        |i: int|
            MenuOp::Item {
                menu: 6,
                label: Label::MonitorItem((i + 1) as usize),
                id: (MONITOR_FIRST + i) as u32,
                action: Action::Monitor(i as i32),
            },
    )
}

/// One entry per monitor (up to the limit); with more than one, the
/// configured monitor is marked (the primary one for -1, the last shown for an
/// index past the list); with one or none, a greyed-out "Monitor 1" follows.
pub open spec fn monitor_ops(monitors: Seq<Rect>, monitor: i32) -> Seq<MenuOp> {
    let shown = shown_monitors(monitors.len() as int);
    monitor_items(shown) + (if shown > 1 {
        let selected = if monitor < 0 {
            primary_index_spec(monitors)
        } else if monitor < shown - 1 {
            monitor as int
        } else {
            shown - 1
        };
        radio_spec(6, monitor_ids(shown), selected)
    } else {
        seq![MenuOp::Disabled { menu: 6, label: Label::MonitorItem(1), id: MONITOR_FIRST }]
    }) + seq![MenuOp::Attach { child: 6, label: Label::MenuMonitor }]
}

pub open spec fn tail_ops(moving: bool) -> Seq<MenuOp> {
    seq![
        MenuOp::Checked {
            menu: 0,
            label: Label::MenuMoveWindow,
            id: ID_TOGGLE_MOVE,
            action: Action::ToggleMove,
            on: moving,
        },
        MenuOp::Separator { menu: 0 },
        MenuOp::Item { menu: 0, label: Label::MenuSettings, id: ID_SETTINGS, action: Action::Settings },
        MenuOp::Item { menu: 0, label: Label::MenuOpenConfig, id: ID_OPEN_CONFIG, action: Action::OpenConfig },
        MenuOp::Item {
            menu: 0,
            label: Label::MenuReloadConfig,
            id: ID_RELOAD_CONFIG,
            action: Action::ReloadConfig,
        },
        MenuOp::Separator { menu: 0 },
        MenuOp::Item { menu: 0, label: Label::MenuAbout, id: ID_ABOUT, action: Action::About },
        MenuOp::Separator { menu: 0 },
        MenuOp::Item { menu: 0, label: Label::MenuExit, id: ID_EXIT, action: Action::Exit },
    ]
}

/// The state a check-marked entry shows: the setting its action toggles.
pub open spec fn shown_setting(s: MenuState, a: Action) -> Option<bool> {
    match a {
        Action::ToggleAutostart => Some(s.autostart),
        Action::ToggleAutoplay => Some(s.autoplay),
        Action::ToggleRecursive => Some(s.scan_recursive),
        Action::ToggleMove => Some(s.moving),
        _ => None,
    }
}

/// Every check-marked entry of `ops` is marked exactly when the setting its
/// action toggles is on.
pub open spec fn checks_match(s: MenuState, ops: Seq<MenuOp>) -> bool {
    forall|i: int|
        0 <= i < ops.len() ==> (#[trigger] ops[i] matches MenuOp::Checked { action, on, .. }
            ==> shown_setting(s, action) == Some(on))
}

proof fn lemma_checks_concat(s: MenuState, a: Seq<MenuOp>, b: Seq<MenuOp>)
    requires
        checks_match(s, a),
        checks_match(s, b),
    ensures
        checks_match(s, a + b),
{
    assert forall|i: int| 0 <= i < (a + b).len() implies (#[trigger] (a + b)[i] matches MenuOp::Checked {
        action,
        on,
        ..
    } ==> shown_setting(s, action) == Some(on)) by {
        if i < a.len() {
            assert((a + b)[i] == a[i]);
        } else {
            assert((a + b)[i] == b[i - a.len()]);
        }
    }
}

proof fn lemma_radio_has_no_checks(s: MenuState, menu: MenuRef, group: Seq<u32>, selected: int)
    ensures
        checks_match(s, radio_spec(menu, group, selected)),
{
}

/// The whole menu for a state, in the order it is built.
pub open spec fn menu_spec(s: MenuState) -> Seq<MenuOp> {
    transport_ops(s.playing) + play_mode_ops(s.play_mode) + library_ops(s.library_empty) + scan_ops(
        s.scan_recursive,
    ) + startup_ops(s.autostart, s.autoplay) + controls_ops(s.show_controls@) + layer_ops(s.mode@)
        + monitor_ops(s.monitors@, s.monitor) + tail_ops(s.moving)
}

fn push_ops(ops: &mut Vec<MenuOp>, more: &[MenuOp])
    ensures
        final(ops)@ == old(ops)@ + more@,
{
    let mut i: usize = 0;
    while i < more.len()
        invariant
            i <= more@.len(),
            ops@ == old(ops)@ + more@.subrange(0, i as int),
        decreases more@.len() - i,
    {
        ops.push(more[i]);
        assert(ops@ =~= old(ops)@ + more@.subrange(0, i + 1));
        i = i + 1;
    }
    assert(more@.subrange(0, more@.len() as int) =~= more@);
}

fn build_play_modes(ops: &mut Vec<MenuOp>, mode: PlayMode)
    ensures
        final(ops)@ == old(ops)@ + play_mode_ops(mode),
{
    let items = [
        MenuOp::Item {
            menu: 1,
            label: play_mode_label(PLAY_MODES[0]),
            id: PLAY_MODE_IDS[0],
            action: Action::PlayMode(PLAY_MODES[0]),
        },
        MenuOp::Item {
            menu: 1,
            label: play_mode_label(PLAY_MODES[1]),
            id: PLAY_MODE_IDS[1],
            action: Action::PlayMode(PLAY_MODES[1]),
        },
        MenuOp::Item {
            menu: 1,
            label: play_mode_label(PLAY_MODES[2]),
            id: PLAY_MODE_IDS[2],
            action: Action::PlayMode(PLAY_MODES[2]),
        },
    ];
    push_ops(ops, &items);
    check_radio(ops, 1, &PLAY_MODE_IDS, play_mode_index(mode));
    let tail = [MenuOp::Attach { child: 1, label: Label::MenuPlayMode }, MenuOp::Separator { menu: 0 }];
    push_ops(ops, &tail);
    assert(ops@ =~= old(ops)@ + play_mode_ops(mode));
}

fn build_monitors(ops: &mut Vec<MenuOp>, monitors: &Vec<Rect>, monitor: i32)
    ensures
        final(ops)@ == old(ops)@ + monitor_ops(monitors@, monitor),
{
    let shown: usize = if monitors.len() < 16 {
        monitors.len()
    } else {
        16
    };
    let ghost items = Seq::new(
        shown as nat,
        |i: int|
            MenuOp::Item {
                menu: 6,
                label: Label::MonitorItem((i + 1) as usize),
                id: (MONITOR_FIRST + i) as u32,
                action: Action::Monitor(i as i32),
            },
    );
    let mut i: usize = 0;
    while i < shown
        invariant
            shown <= 16,
            i <= shown,
            ops@ == old(ops)@ + items.subrange(0, i as int),
            items == Seq::new(
                shown as nat,
                |i: int|
                    MenuOp::Item {
                        menu: 6,
                        label: Label::MonitorItem((i + 1) as usize),
                        id: (MONITOR_FIRST + i) as u32,
                        action: Action::Monitor(i as i32),
                    },
            ),
        decreases shown - i,
    {
        ops.push(
            MenuOp::Item {
                menu: 6,
                label: Label::MonitorItem(i + 1),
                id: MONITOR_FIRST + i as u32,
                action: Action::Monitor(i as i32),
            },
        );
        assert(ops@ =~= old(ops)@ + items.subrange(0, i + 1));
        i = i + 1;
    }
    assert(items.subrange(0, shown as int) =~= items);
    let ghost mid = ops@;
    if shown > 1 {
        let selected: usize = if monitor < 0 {
            primary_index(monitors)
        } else if (monitor as usize) < shown - 1 {
            monitor as usize
        } else {
            shown - 1
        };
        let mut ids: Vec<u32> = Vec::new();
        let mut k: usize = 0;
        while k < shown
            invariant
                k <= shown <= 16,
                ids@ == monitor_ids(k as int),
            decreases shown - k,
        {
            ids.push(MONITOR_FIRST + k as u32);
            assert(ids@ =~= monitor_ids(k + 1));
            k = k + 1;
        }
        check_radio(ops, 6, ids.as_slice(), selected);
    } else {
        ops.push(MenuOp::Disabled { menu: 6, label: Label::MonitorItem(1), id: MONITOR_FIRST });
    }
    ops.push(MenuOp::Attach { child: 6, label: Label::MenuMonitor });
    assert(ops@ =~= old(ops)@ + monitor_ops(monitors@, monitor));
}

fn build_transport(ops: &mut Vec<MenuOp>, playing: bool)
    ensures
        final(ops)@ == old(ops)@ + transport_ops(playing),
{
    let transport = [
        MenuOp::Item {
            menu: 0,
            label: if playing {
                Label::MenuPause
            } else {
                Label::MenuPlay
            },
            id: ID_PLAYPAUSE,
            action: Action::TogglePlay,
        },
        MenuOp::Item { menu: 0, label: Label::MenuNext, id: ID_NEXT, action: Action::Next },
        MenuOp::Item { menu: 0, label: Label::MenuPrev, id: ID_PREV, action: Action::Prev },
        MenuOp::Separator { menu: 0 },
    ];
    push_ops(ops, &transport);
    assert(ops@ =~= old(ops)@ + transport_ops(playing));
}

fn build_library(ops: &mut Vec<MenuOp>, empty: bool)
    ensures
        final(ops)@ == old(ops)@ + library_ops(empty),
{
    let lib_head = [
        MenuOp::Item { menu: 2, label: Label::MenuAddFolder, id: ID_ADD_FOLDER, action: Action::AddFolder },
        MenuOp::Item {
            menu: 2,
            label: Label::MenuReplaceFolder,
            id: ID_REPLACE_FOLDER,
            action: Action::ReplaceFolder,
        },
    ];
    push_ops(ops, &lib_head);
    if empty {
        let entries = [
            MenuOp::Disabled { menu: 2, label: Label::MenuOpenFolder, id: ID_OPEN_FOLDER },
            MenuOp::Disabled { menu: 2, label: Label::MenuClearFolders, id: ID_CLEAR_FOLDERS },
        ];
        push_ops(ops, &entries);
    } else {
        let entries = [
            MenuOp::Item {
                menu: 2,
                label: Label::MenuOpenFolder,
                id: ID_OPEN_FOLDER,
                action: Action::OpenFirstFolder,
            },
            MenuOp::Item {
                menu: 2,
                label: Label::MenuClearFolders,
                id: ID_CLEAR_FOLDERS,
                action: Action::ClearFolders,
            },
        ];
        push_ops(ops, &entries);
    }
    ops.push(MenuOp::Attach { child: 2, label: Label::MenuLibrary });
    assert(ops@ =~= old(ops)@ + library_ops(empty));
}

fn build_scan_and_startup(ops: &mut Vec<MenuOp>, recursive: bool, autostart: bool, autoplay: bool)
    ensures
        final(ops)@ == old(ops)@ + scan_ops(recursive) + startup_ops(autostart, autoplay),
{
    let scan = [
        MenuOp::Checked {
            menu: 3,
            label: Label::MenuScanRecursive,
            id: ID_TOGGLE_RECURSIVE,
            action: Action::ToggleRecursive,
            on: recursive,
        },
        MenuOp::Item {
            menu: 3,
            label: Label::MenuExcludeFolder,
            id: ID_EXCLUDE_FOLDER,
            action: Action::ExcludeFolder,
        },
        MenuOp::Separator { menu: 3 },
        MenuOp::Item { menu: 3, label: Label::MenuRescan, id: ID_RESCAN, action: Action::Rescan },
        MenuOp::Attach { child: 3, label: Label::MenuScan },
        MenuOp::Separator { menu: 0 },
        MenuOp::Checked {
            menu: 0,
            label: Label::MenuAutostart,
            id: ID_AUTOSTART,
            action: Action::ToggleAutostart,
            on: autostart,
        },
        MenuOp::Checked {
            menu: 0,
            label: Label::MenuAutoplay,
            id: ID_AUTOPLAY,
            action: Action::ToggleAutoplay,
            on: autoplay,
        },
    ];
    push_ops(ops, &scan);
    assert(ops@ =~= old(ops)@ + scan_ops(recursive) + startup_ops(autostart, autoplay));
}

fn build_controls(ops: &mut Vec<MenuOp>, show_controls: &str)
    ensures
        final(ops)@ == old(ops)@ + controls_ops(show_controls@),
{
    let controls = [
        MenuOp::Item {
            menu: 4,
            label: Label::ShowControlsHover,
            id: CONTROLS_IDS[0],
            action: Action::ShowControls(CONTROLS[0]),
        },
        MenuOp::Item {
            menu: 4,
            label: Label::ShowControlsAlways,
            id: CONTROLS_IDS[1],
            action: Action::ShowControls(CONTROLS[1]),
        },
    ];
    push_ops(ops, &controls);
    check_radio(ops, 4, &CONTROLS_IDS, index_of(&CONTROLS, show_controls));
    ops.push(MenuOp::Attach { child: 4, label: Label::MenuShowControls });
    assert(ops@ =~= old(ops)@ + controls_ops(show_controls@));
}

fn build_layers(ops: &mut Vec<MenuOp>, mode: &str)
    ensures
        final(ops)@ == old(ops)@ + layer_ops(mode@),
{
    let layers = [
        MenuOp::Item { menu: 5, label: Label::ModeBottom, id: MODE_IDS[0], action: Action::WindowMode(MODES[0]) },
        MenuOp::Item { menu: 5, label: Label::ModeTopmost, id: MODE_IDS[1], action: Action::WindowMode(MODES[1]) },
    ];
    push_ops(ops, &layers);
    check_radio(ops, 5, &MODE_IDS, index_of(&MODES, mode));
    ops.push(MenuOp::Attach { child: 5, label: Label::MenuZOrder });
    assert(ops@ =~= old(ops)@ + layer_ops(mode@));
}

fn build_tail(ops: &mut Vec<MenuOp>, moving: bool)
    ensures
        final(ops)@ == old(ops)@ + tail_ops(moving),
{
    let tail = [
        MenuOp::Checked {
            menu: 0,
            label: Label::MenuMoveWindow,
            id: ID_TOGGLE_MOVE,
            action: Action::ToggleMove,
            on: moving,
        },
        MenuOp::Separator { menu: 0 },
        MenuOp::Item { menu: 0, label: Label::MenuSettings, id: ID_SETTINGS, action: Action::Settings },
        MenuOp::Item { menu: 0, label: Label::MenuOpenConfig, id: ID_OPEN_CONFIG, action: Action::OpenConfig },
        MenuOp::Item {
            menu: 0,
            label: Label::MenuReloadConfig,
            id: ID_RELOAD_CONFIG,
            action: Action::ReloadConfig,
        },
        MenuOp::Separator { menu: 0 },
        MenuOp::Item { menu: 0, label: Label::MenuAbout, id: ID_ABOUT, action: Action::About },
        MenuOp::Separator { menu: 0 },
        MenuOp::Item { menu: 0, label: Label::MenuExit, id: ID_EXIT, action: Action::Exit },
    ];
    push_ops(ops, &tail);
    assert(ops@ =~= old(ops)@ + tail_ops(moving));
}

/// The menu for the app's current state, as the steps that build it.
pub fn build(s: &MenuState) -> (r: Vec<MenuOp>)
    ensures
        r@ == menu_spec(*s),
{
    let mut ops: Vec<MenuOp> = Vec::new();
    build_transport(&mut ops, s.playing);
    build_play_modes(&mut ops, s.play_mode);
    build_library(&mut ops, s.library_empty);
    build_scan_and_startup(&mut ops, s.scan_recursive, s.autostart, s.autoplay);
    build_controls(&mut ops, s.show_controls.as_str());
    build_layers(&mut ops, s.mode.as_str());
    build_monitors(&mut ops, &s.monitors, s.monitor);
    build_tail(&mut ops, s.moving);
    assert(ops@ =~= menu_spec(*s));
    ops
}

/// The action registered for a command id: the first entry (plain or
/// checked) built with it.
pub open spec fn action_in(ops: Seq<MenuOp>, id: u32) -> Option<Action>
    decreases ops.len(),
{
    if ops.len() == 0 {
        None
    } else {
        match ops[0] {
            MenuOp::Item { id: i, action, .. } if i == id => Some(action),
            MenuOp::Checked { id: i, action, .. } if i == id => Some(action),
            _ => action_in(ops.drop_first(), id),
        }
    }
}

/// What the chosen id means; `None` for a dismissed menu (id 0) or a
/// greyed-out entry.
pub fn action(ops: &Vec<MenuOp>, id: u32) -> (r: Option<Action>)
    ensures
        r == action_in(ops@, id),
{
    let mut i: usize = 0;
    assert(ops@.subrange(0, ops@.len() as int) =~= ops@);
    while i < ops.len()
        invariant
            i <= ops@.len(),
            action_in(ops@, id) == action_in(ops@.subrange(i as int, ops@.len() as int), id),
        decreases ops@.len() - i,
    {
        let ghost rest = ops@.subrange(i as int, ops@.len() as int);
        assert(rest[0] == ops@[i as int]);
        assert(rest.drop_first() =~= ops@.subrange(i + 1, ops@.len() as int));
        match ops[i] {
            MenuOp::Item { id: k, action, .. } => {
                if k == id {
                    return Some(action);
                }
            },
            MenuOp::Checked { id: k, action, .. } => {
                if k == id {
                    return Some(action);
                }
            },
            _ => {},
        }
        i = i + 1;
    }
    None
}


/// Every id the menu can use: the fixed entries, then the three radio groups,
/// then the whole monitor range.
pub open spec fn all_ids_spec() -> Seq<u32> {
    seq![
        ID_PLAYPAUSE,
        ID_PREV,
        ID_NEXT,
        ID_ADD_FOLDER,
        ID_REPLACE_FOLDER,
        ID_OPEN_FOLDER,
        ID_CLEAR_FOLDERS,
        ID_TOGGLE_RECURSIVE,
        ID_EXCLUDE_FOLDER,
        ID_RESCAN,
        ID_AUTOSTART,
        ID_AUTOPLAY,
        ID_TOGGLE_MOVE,
        ID_SETTINGS,
        ID_OPEN_CONFIG,
        ID_RELOAD_CONFIG,
        ID_ABOUT,
        ID_EXIT,
    ] + PLAY_MODE_IDS@ + CONTROLS_IDS@ + MODE_IDS@ + monitor_ids(MONITOR_LIMIT as int)
}

/// The complete id list.
pub fn all_ids() -> (r: Vec<u32>)
    ensures
        r@ == all_ids_spec(),
{
    let fixed = [
        ID_PLAYPAUSE,
        ID_PREV,
        ID_NEXT,
        ID_ADD_FOLDER,
        ID_REPLACE_FOLDER,
        ID_OPEN_FOLDER,
        ID_CLEAR_FOLDERS,
        ID_TOGGLE_RECURSIVE,
        ID_EXCLUDE_FOLDER,
        ID_RESCAN,
        ID_AUTOSTART,
        ID_AUTOPLAY,
        ID_TOGGLE_MOVE,
        ID_SETTINGS,
        ID_OPEN_CONFIG,
        ID_RELOAD_CONFIG,
        ID_ABOUT,
        ID_EXIT,
    ];
    let mut ids: Vec<u32> = Vec::new();
    let mut i: usize = 0;
    while i < 18
        invariant
            i <= 18,
            fixed@.len() == 18,
            ids@ == fixed@.subrange(0, i as int),
        decreases 18 - i,
    {
        ids.push(fixed[i]);
        assert(ids@ =~= fixed@.subrange(0, i + 1));
        i = i + 1;
    }
    let ghost base = ids@;
    ids.push(PLAY_MODE_IDS[0]);
    ids.push(PLAY_MODE_IDS[1]);
    ids.push(PLAY_MODE_IDS[2]);
    ids.push(CONTROLS_IDS[0]);
    ids.push(CONTROLS_IDS[1]);
    ids.push(MODE_IDS[0]);
    ids.push(MODE_IDS[1]);
    let ghost groups = ids@;
    assert(groups =~= base + PLAY_MODE_IDS@ + CONTROLS_IDS@ + MODE_IDS@);
    let mut k: u32 = 0;
    while k < MONITOR_LIMIT
        invariant
            k <= MONITOR_LIMIT,
            ids@ == groups + monitor_ids(k as int),
        decreases MONITOR_LIMIT - k,
    {
        ids.push(MONITOR_FIRST + k);
        assert(ids@ =~= groups + monitor_ids(k + 1));
        k = k + 1;
    }
    assert(fixed@.subrange(0, 18) =~= fixed@);
    assert(ids@ =~= all_ids_spec());
    ids
}

/// No two menu entries share an id.
pub proof fn menu_ids_are_distinct()
    ensures
        forall|i: int, j: int|
            0 <= i < j < all_ids_spec().len() ==> all_ids_spec()[i] != all_ids_spec()[j],
{
    let s = all_ids_spec();
    assert(s.len() == 41);
    assert forall|i: int| 25 <= i < 41 implies s[i] == 1045 + i by {
        assert(s[i] == monitor_ids(16)[i - 25]);
    }
    assert forall|i: int, j: int| 0 <= i < j < 41 implies s[i] != s[j] by {
        if j >= 25 && i >= 25 {
        } else if j >= 25 {
            assert(s[j] >= 1070 && s[j] <= 1085);
        }
    }
}

/// The radio groups are contiguous (the radio mark takes a first/last range)
/// and no two groups overlap.
pub proof fn radio_groups_are_contiguous_and_disjoint()
    ensures
        PLAY_MODE_IDS@[1] == PLAY_MODE_IDS@[0] + 1,
        PLAY_MODE_IDS@[2] == PLAY_MODE_IDS@[1] + 1,
        CONTROLS_IDS@[1] == CONTROLS_IDS@[0] + 1,
        MODE_IDS@[1] == MODE_IDS@[0] + 1,
        PLAY_MODE_IDS@[2] < CONTROLS_IDS@[0],
        CONTROLS_IDS@[1] < MODE_IDS@[0],
        MODE_IDS@[1] < MONITOR_FIRST,
        PLAY_MODE_IDS@[0] == PLAY_MODE_FIRST,
        CONTROLS_IDS@[0] == CONTROLS_FIRST,
        MODE_IDS@[0] == MODE_FIRST,
{
}

/// A radio mark always lands inside its group, whatever the selection.
pub proof fn radio_mark_stays_in_group(menu: MenuRef, group: Seq<u32>, selected: int)
    requires
        group.len() > 0,
        selected >= 0,
    ensures
        radio_spec(menu, group, selected).len() == 1,
        radio_spec(menu, group, selected)[0] matches MenuOp::Radio { check, .. } && group.contains(check),
{
    let index = if selected < group.len() {
        selected
    } else {
        group.len() - 1
    };
    assert(group[index] == group[index]);
}


// ---------------------------------------------------------------------------
// Dispatch
// ---------------------------------------------------------------------------

/// Which action the menu built for `s` runs for the command id `id`: every
/// entry of the menu runs the action it was built with, the two folder
/// entries only while the library is not empty, one entry per attached
/// monitor (up to the limit), and nothing for any other id, a dismissed menu
/// (id 0) included.
pub open spec fn dispatch_spec(s: MenuState, id: u32) -> Option<Action> {
    let shown = shown_monitors(s.monitors@.len() as int);
    if id == ID_PLAYPAUSE {
        Some(Action::TogglePlay)
    } else if id == ID_NEXT {
        Some(Action::Next)
    } else if id == ID_PREV {
        Some(Action::Prev)
    } else if id == 1010 {
        Some(Action::PlayMode(PlayMode::Sequential))
    } else if id == 1011 {
        Some(Action::PlayMode(PlayMode::Shuffle))
    } else if id == 1012 {
        Some(Action::PlayMode(PlayMode::RepeatOne))
    } else if id == ID_ADD_FOLDER {
        Some(Action::AddFolder)
    } else if id == ID_REPLACE_FOLDER {
        Some(Action::ReplaceFolder)
    } else if id == ID_OPEN_FOLDER {
        if s.library_empty {
            None
        } else {
            Some(Action::OpenFirstFolder)
        }
    } else if id == ID_CLEAR_FOLDERS {
        if s.library_empty {
            None
        } else {
            Some(Action::ClearFolders)
        }
    } else if id == ID_TOGGLE_RECURSIVE {
        Some(Action::ToggleRecursive)
    } else if id == ID_EXCLUDE_FOLDER {
        Some(Action::ExcludeFolder)
    } else if id == ID_RESCAN {
        Some(Action::Rescan)
    } else if id == ID_AUTOSTART {
        Some(Action::ToggleAutostart)
    } else if id == ID_AUTOPLAY {
        Some(Action::ToggleAutoplay)
    } else if id == 1050 {
        Some(Action::ShowControls(CONTROLS@[0]))
    } else if id == 1051 {
        Some(Action::ShowControls(CONTROLS@[1]))
    } else if id == 1060 {
        Some(Action::WindowMode(MODES@[0]))
    } else if id == 1061 {
        Some(Action::WindowMode(MODES@[1]))
    } else if MONITOR_FIRST <= id < MONITOR_FIRST + shown {
        Some(Action::Monitor((id - MONITOR_FIRST) as i32))
    } else if id == ID_TOGGLE_MOVE {
        Some(Action::ToggleMove)
    } else if id == ID_SETTINGS {
        Some(Action::Settings)
    } else if id == ID_OPEN_CONFIG {
        Some(Action::OpenConfig)
    } else if id == ID_RELOAD_CONFIG {
        Some(Action::ReloadConfig)
    } else if id == ID_ABOUT {
        Some(Action::About)
    } else if id == ID_EXIT {
        Some(Action::Exit)
    } else {
        None
    }
}

pub open spec fn first_some(a: Option<Action>, b: Option<Action>) -> Option<Action> {
    if a is Some {
        a
    } else {
        b
    }
}

proof fn lemma_action_in_concat(a: Seq<MenuOp>, b: Seq<MenuOp>, id: u32)
    ensures
        action_in(a + b, id) == first_some(action_in(a, id), action_in(b, id)),
    decreases a.len(),
{
    if a.len() > 0 {
        assert((a + b)[0] == a[0]);
        assert((a + b).drop_first() =~= a.drop_first() + b);
        lemma_action_in_concat(a.drop_first(), b, id);
    } else {
        assert(a + b =~= b);
    }
}

proof fn lemma_radio_has_no_command(menu: MenuRef, group: Seq<u32>, selected: int, id: u32)
    ensures
        action_in(radio_spec(menu, group, selected), id) is None,
{
    reveal_with_fuel(action_in, 2);
    let r = radio_spec(menu, group, selected);
    if r.len() > 0 {
        assert(r.drop_first() =~= Seq::<MenuOp>::empty());
    }
}

proof fn lemma_monitor_items(shown: int, id: u32)
    requires
        0 <= shown <= MONITOR_LIMIT,
    ensures
        action_in(monitor_items(shown), id) == (if MONITOR_FIRST <= id < MONITOR_FIRST + shown {
            Some(Action::Monitor((id - MONITOR_FIRST) as i32))
        } else {
            None
        }),
    decreases shown,
{
    if shown > 0 {
        let last = MenuOp::Item {
            menu: 6,
            label: Label::MonitorItem(shown as usize),
            id: (MONITOR_FIRST + shown - 1) as u32,
            action: Action::Monitor((shown - 1) as i32),
        };
        assert(monitor_items(shown) =~= monitor_items(shown - 1) + seq![last]);
        lemma_monitor_items(shown - 1, id);
        lemma_action_in_concat(monitor_items(shown - 1), seq![last], id);
        assert(seq![last].drop_first() =~= Seq::<MenuOp>::empty());
        reveal_with_fuel(action_in, 2);
    } else {
        assert(monitor_items(0) =~= Seq::<MenuOp>::empty());
    }
}

proof fn lemma_fixed_sections(s: MenuState, id: u32)
    ensures
        action_in(transport_ops(s.playing), id) == (if id == ID_PLAYPAUSE {
            Some(Action::TogglePlay)
        } else if id == ID_NEXT {
            Some(Action::Next)
        } else if id == ID_PREV {
            Some(Action::Prev)
        } else {
            None
        }),
        action_in(scan_ops(s.scan_recursive), id) == (if id == ID_TOGGLE_RECURSIVE {
            Some(Action::ToggleRecursive)
        } else if id == ID_EXCLUDE_FOLDER {
            Some(Action::ExcludeFolder)
        } else if id == ID_RESCAN {
            Some(Action::Rescan)
        } else {
            None
        }),
        action_in(startup_ops(s.autostart, s.autoplay), id) == (if id == ID_AUTOSTART {
            Some(Action::ToggleAutostart)
        } else if id == ID_AUTOPLAY {
            Some(Action::ToggleAutoplay)
        } else {
            None
        }),
        action_in(tail_ops(s.moving), id) == (if id == ID_TOGGLE_MOVE {
            Some(Action::ToggleMove)
        } else if id == ID_SETTINGS {
            Some(Action::Settings)
        } else if id == ID_OPEN_CONFIG {
            Some(Action::OpenConfig)
        } else if id == ID_RELOAD_CONFIG {
            Some(Action::ReloadConfig)
        } else if id == ID_ABOUT {
            Some(Action::About)
        } else if id == ID_EXIT {
            Some(Action::Exit)
        } else {
            None
        }),
{
    reveal_with_fuel(action_in, 10);
}

proof fn lemma_group_sections(s: MenuState, id: u32)
    ensures
        action_in(play_mode_ops(s.play_mode), id) == (if id == 1010 {
            Some(Action::PlayMode(PlayMode::Sequential))
        } else if id == 1011 {
            Some(Action::PlayMode(PlayMode::Shuffle))
        } else if id == 1012 {
            Some(Action::PlayMode(PlayMode::RepeatOne))
        } else {
            None
        }),
        action_in(library_ops(s.library_empty), id) == (if id == ID_ADD_FOLDER {
            Some(Action::AddFolder)
        } else if id == ID_REPLACE_FOLDER {
            Some(Action::ReplaceFolder)
        } else if id == ID_OPEN_FOLDER && !s.library_empty {
            Some(Action::OpenFirstFolder)
        } else if id == ID_CLEAR_FOLDERS && !s.library_empty {
            Some(Action::ClearFolders)
        } else {
            None
        }),
        action_in(controls_ops(s.show_controls@), id) == (if id == 1050 {
            Some(Action::ShowControls(CONTROLS@[0]))
        } else if id == 1051 {
            Some(Action::ShowControls(CONTROLS@[1]))
        } else {
            None
        }),
        action_in(layer_ops(s.mode@), id) == (if id == 1060 {
            Some(Action::WindowMode(MODES@[0]))
        } else if id == 1061 {
            Some(Action::WindowMode(MODES@[1]))
        } else {
            None
        }),
{
    reveal_with_fuel(action_in, 4);
    let pm_items = seq![
        MenuOp::Item {
            menu: 1,
            label: Label::PlayModeSequential,
            id: 1010,
            action: Action::PlayMode(PlayMode::Sequential),
        },
        MenuOp::Item {
            menu: 1,
            label: Label::PlayModeShuffle,
            id: 1011,
            action: Action::PlayMode(PlayMode::Shuffle),
        },
        MenuOp::Item {
            menu: 1,
            label: Label::PlayModeRepeatOne,
            id: 1012,
            action: Action::PlayMode(PlayMode::RepeatOne),
        },
    ];
    let pm_radio = radio_spec(1, PLAY_MODE_IDS@, play_mode_index_spec(s.play_mode));
    let pm_tail = seq![
        MenuOp::Attach { child: 1, label: Label::MenuPlayMode },
        MenuOp::Separator { menu: 0 },
    ];
    lemma_action_in_concat(pm_items + pm_radio, pm_tail, id);
    lemma_action_in_concat(pm_items, pm_radio, id);
    lemma_radio_has_no_command(1, PLAY_MODE_IDS@, play_mode_index_spec(s.play_mode), id);
    let lib_head = seq![
        MenuOp::Item { menu: 2, label: Label::MenuAddFolder, id: ID_ADD_FOLDER, action: Action::AddFolder },
        MenuOp::Item {
            menu: 2,
            label: Label::MenuReplaceFolder,
            id: ID_REPLACE_FOLDER,
            action: Action::ReplaceFolder,
        },
    ];
    let lib_mid = if s.library_empty {
        seq![
            MenuOp::Disabled { menu: 2, label: Label::MenuOpenFolder, id: ID_OPEN_FOLDER },
            MenuOp::Disabled { menu: 2, label: Label::MenuClearFolders, id: ID_CLEAR_FOLDERS },
        ]
    } else {
        seq![
            MenuOp::Item {
                menu: 2,
                label: Label::MenuOpenFolder,
                id: ID_OPEN_FOLDER,
                action: Action::OpenFirstFolder,
            },
            MenuOp::Item {
                menu: 2,
                label: Label::MenuClearFolders,
                id: ID_CLEAR_FOLDERS,
                action: Action::ClearFolders,
            },
        ]
    };
    let lib_tail = seq![MenuOp::Attach { child: 2, label: Label::MenuLibrary }];
    lemma_action_in_concat(lib_head + lib_mid, lib_tail, id);
    lemma_action_in_concat(lib_head, lib_mid, id);
    let c_items = seq![
        MenuOp::Item {
            menu: 4,
            label: Label::ShowControlsHover,
            id: 1050,
            action: Action::ShowControls(CONTROLS@[0]),
        },
        MenuOp::Item {
            menu: 4,
            label: Label::ShowControlsAlways,
            id: 1051,
            action: Action::ShowControls(CONTROLS@[1]),
        },
    ];
    let c_sel = index_in(crate::config::strs_view(CONTROLS@), s.show_controls@);
    let c_tail = seq![MenuOp::Attach { child: 4, label: Label::MenuShowControls }];
    lemma_action_in_concat(c_items + radio_spec(4, CONTROLS_IDS@, c_sel), c_tail, id);
    lemma_action_in_concat(c_items, radio_spec(4, CONTROLS_IDS@, c_sel), id);
    lemma_radio_has_no_command(4, CONTROLS_IDS@, c_sel, id);
    let l_items = seq![
        MenuOp::Item { menu: 5, label: Label::ModeBottom, id: 1060, action: Action::WindowMode(MODES@[0]) },
        MenuOp::Item { menu: 5, label: Label::ModeTopmost, id: 1061, action: Action::WindowMode(MODES@[1]) },
    ];
    let l_sel = index_in(crate::config::strs_view(MODES@), s.mode@);
    let l_tail = seq![MenuOp::Attach { child: 5, label: Label::MenuZOrder }];
    lemma_action_in_concat(l_items + radio_spec(5, MODE_IDS@, l_sel), l_tail, id);
    lemma_action_in_concat(l_items, radio_spec(5, MODE_IDS@, l_sel), id);
    lemma_radio_has_no_command(5, MODE_IDS@, l_sel, id);
}

proof fn lemma_monitor_section(s: MenuState, id: u32)
    ensures
        action_in(monitor_ops(s.monitors@, s.monitor), id) == (if MONITOR_FIRST <= id < MONITOR_FIRST
            + shown_monitors(s.monitors@.len() as int) {
            Some(Action::Monitor((id - MONITOR_FIRST) as i32))
        } else {
            None
        }),
{
    let shown = shown_monitors(s.monitors@.len() as int);
    let mid = if shown > 1 {
        let selected = if s.monitor < 0 {
            primary_index_spec(s.monitors@)
        } else if s.monitor < shown - 1 {
            s.monitor as int
        } else {
            shown - 1
        };
        radio_spec(6, monitor_ids(shown), selected)
    } else {
        seq![MenuOp::Disabled { menu: 6, label: Label::MonitorItem(1), id: MONITOR_FIRST }]
    };
    let tail = seq![MenuOp::Attach { child: 6, label: Label::MenuMonitor }];
    lemma_monitor_items(shown, id);
    lemma_action_in_concat(monitor_items(shown) + mid, tail, id);
    lemma_action_in_concat(monitor_items(shown), mid, id);
    if shown > 1 {
        let selected = if s.monitor < 0 {
            primary_index_spec(s.monitors@)
        } else if s.monitor < shown - 1 {
            s.monitor as int
        } else {
            shown - 1
        };
        lemma_radio_has_no_command(6, monitor_ids(shown), selected, id);
    } else {
        reveal_with_fuel(action_in, 2);
    }
    reveal_with_fuel(action_in, 2);
}

/// The menu built for a state runs, for every command id, exactly the action
/// of [`dispatch_spec`]: each entry runs what it shows, a greyed-out entry and
/// a dismissed menu run nothing.
pub proof fn menu_dispatches_each_id(s: MenuState, id: u32)
    ensures
        action_in(menu_spec(s), id) == dispatch_spec(s, id),
{
    let t = transport_ops(s.playing);
    let p = play_mode_ops(s.play_mode);
    let l = library_ops(s.library_empty);
    let sc = scan_ops(s.scan_recursive);
    let st = startup_ops(s.autostart, s.autoplay);
    let c = controls_ops(s.show_controls@);
    let z = layer_ops(s.mode@);
    let m = monitor_ops(s.monitors@, s.monitor);
    let e = tail_ops(s.moving);
    lemma_fixed_sections(s, id);
    lemma_group_sections(s, id);
    lemma_monitor_section(s, id);
    lemma_action_in_concat(t + p + l + sc + st + c + z + m, e, id);
    lemma_action_in_concat(t + p + l + sc + st + c + z, m, id);
    lemma_action_in_concat(t + p + l + sc + st + c, z, id);
    lemma_action_in_concat(t + p + l + sc + st, c, id);
    lemma_action_in_concat(t + p + l + sc, st, id);
    lemma_action_in_concat(t + p + l, sc, id);
    lemma_action_in_concat(t + p, l, id);
    lemma_action_in_concat(t, p, id);
}

/// In the built menu every check mark shows the setting its entry toggles:
/// "Start with Windows" is checked exactly when autostart is on, "Autoplay"
/// when autoplay is, "Include subfolders" when the scan is recursive, and
/// "Move window" while the card is being moved.
pub proof fn check_marks_show_their_settings(s: MenuState)
    ensures
        checks_match(s, menu_spec(s)),
{
    let t = transport_ops(s.playing);
    let pm = play_mode_ops(s.play_mode);
    let lib = library_ops(s.library_empty);
    let sc = scan_ops(s.scan_recursive);
    let st = startup_ops(s.autostart, s.autoplay);
    let ctl = controls_ops(s.show_controls@);
    let lay = layer_ops(s.mode@);
    let mon = monitor_ops(s.monitors@, s.monitor);
    let tail = tail_ops(s.moving);
    assert(checks_match(s, t));
    lemma_radio_has_no_checks(s, 1, PLAY_MODE_IDS@, play_mode_index_spec(s.play_mode));
    let pm_head = seq![
        MenuOp::Item {
            menu: 1,
            label: Label::PlayModeSequential,
            id: 1010,
            action: Action::PlayMode(PlayMode::Sequential),
        },
        MenuOp::Item {
            menu: 1,
            label: Label::PlayModeShuffle,
            id: 1011,
            action: Action::PlayMode(PlayMode::Shuffle),
        },
        MenuOp::Item {
            menu: 1,
            label: Label::PlayModeRepeatOne,
            id: 1012,
            action: Action::PlayMode(PlayMode::RepeatOne),
        },
    ];
    let pm_tail = seq![MenuOp::Attach { child: 1, label: Label::MenuPlayMode }, MenuOp::Separator { menu: 0 }];
    assert(checks_match(s, pm_head));
    assert(checks_match(s, pm_tail));
    lemma_checks_concat(s, pm_head, radio_spec(1, PLAY_MODE_IDS@, play_mode_index_spec(s.play_mode)));
    lemma_checks_concat(s, pm_head + radio_spec(1, PLAY_MODE_IDS@, play_mode_index_spec(s.play_mode)), pm_tail);
    assert(checks_match(s, pm));
    assert(checks_match(s, lib)) by {
        assert forall|i: int| 0 <= i < lib.len() implies !(#[trigger] lib[i] is Checked) by {
            if s.library_empty {
            } else {
            }
        }
    }
    assert(checks_match(s, sc));
    assert(checks_match(s, st));
    let c_head = seq![
        MenuOp::Item {
            menu: 4,
            label: Label::ShowControlsHover,
            id: 1050,
            action: Action::ShowControls(CONTROLS@[0]),
        },
        MenuOp::Item {
            menu: 4,
            label: Label::ShowControlsAlways,
            id: 1051,
            action: Action::ShowControls(CONTROLS@[1]),
        },
    ];
    let c_radio = radio_spec(4, CONTROLS_IDS@, index_in(crate::config::strs_view(CONTROLS@), s.show_controls@));
    let c_tail = seq![MenuOp::Attach { child: 4, label: Label::MenuShowControls }];
    assert(checks_match(s, c_head));
    assert(checks_match(s, c_tail));
    lemma_radio_has_no_checks(s, 4, CONTROLS_IDS@, index_in(crate::config::strs_view(CONTROLS@), s.show_controls@));
    lemma_checks_concat(s, c_head, c_radio);
    lemma_checks_concat(s, c_head + c_radio, c_tail);
    assert(checks_match(s, ctl));
    let l_head = seq![
        MenuOp::Item { menu: 5, label: Label::ModeBottom, id: 1060, action: Action::WindowMode(MODES@[0]) },
        MenuOp::Item { menu: 5, label: Label::ModeTopmost, id: 1061, action: Action::WindowMode(MODES@[1]) },
    ];
    let l_radio = radio_spec(5, MODE_IDS@, index_in(crate::config::strs_view(MODES@), s.mode@));
    let l_tail = seq![MenuOp::Attach { child: 5, label: Label::MenuZOrder }];
    assert(checks_match(s, l_head));
    assert(checks_match(s, l_tail));
    lemma_radio_has_no_checks(s, 5, MODE_IDS@, index_in(crate::config::strs_view(MODES@), s.mode@));
    lemma_checks_concat(s, l_head, l_radio);
    lemma_checks_concat(s, l_head + l_radio, l_tail);
    assert(checks_match(s, lay));
    let shown = shown_monitors(s.monitors@.len() as int);
    let items = monitor_items(shown);
    assert(checks_match(s, items)) by {
        assert forall|i: int| 0 <= i < items.len() implies !(#[trigger] items[i] is Checked) by {}
    }
    let middle = if shown > 1 {
        let selected = if s.monitor < 0 {
            crate::screen::primary_index_spec(s.monitors@)
        } else if s.monitor < shown - 1 {
            s.monitor as int
        } else {
            shown - 1
        };
        lemma_radio_has_no_checks(s, 6, monitor_ids(shown), selected);
        radio_spec(6, monitor_ids(shown), selected)
    } else {
        let d = seq![MenuOp::Disabled { menu: 6, label: Label::MonitorItem(1), id: MONITOR_FIRST }];
        assert(checks_match(s, d));
        d
    };
    let m_tail = seq![MenuOp::Attach { child: 6, label: Label::MenuMonitor }];
    assert(checks_match(s, m_tail));
    lemma_checks_concat(s, items, middle);
    lemma_checks_concat(s, items + middle, m_tail);
    assert(mon == items + middle + m_tail);
    assert(checks_match(s, tail));
    lemma_checks_concat(s, t, pm);
    lemma_checks_concat(s, t + pm, lib);
    lemma_checks_concat(s, t + pm + lib, sc);
    lemma_checks_concat(s, t + pm + lib + sc, st);
    lemma_checks_concat(s, t + pm + lib + sc + st, ctl);
    lemma_checks_concat(s, t + pm + lib + sc + st + ctl, lay);
    lemma_checks_concat(s, t + pm + lib + sc + st + ctl + lay, mon);
    lemma_checks_concat(s, t + pm + lib + sc + st + ctl + lay + mon, tail);
}

/// Whether `l` is the text of an entry that runs `a`.
pub open spec fn says(l: Label, a: Action) -> bool {
    match a {
        Action::TogglePlay => l == Label::MenuPause || l == Label::MenuPlay,
        Action::Prev => l == Label::MenuPrev,
        Action::Next => l == Label::MenuNext,
        Action::PlayMode(PlayMode::Sequential) => l == Label::PlayModeSequential,
        Action::PlayMode(PlayMode::Shuffle) => l == Label::PlayModeShuffle,
        Action::PlayMode(PlayMode::RepeatOne) => l == Label::PlayModeRepeatOne,
        Action::AddFolder => l == Label::MenuAddFolder,
        Action::ReplaceFolder => l == Label::MenuReplaceFolder,
        Action::OpenFirstFolder => l == Label::MenuOpenFolder,
        Action::ClearFolders => l == Label::MenuClearFolders,
        Action::ToggleRecursive => l == Label::MenuScanRecursive,
        Action::ExcludeFolder => l == Label::MenuExcludeFolder,
        Action::Rescan => l == Label::MenuRescan,
        Action::ToggleAutostart => l == Label::MenuAutostart,
        Action::ToggleAutoplay => l == Label::MenuAutoplay,
        Action::ShowControls(v) => (v@ == "hover"@ && l == Label::ShowControlsHover) || (v@ == "always"@
            && l == Label::ShowControlsAlways),
        Action::WindowMode(v) => (v@ == "bottom"@ && l == Label::ModeBottom) || (v@ == "topmost"@ && l
            == Label::ModeTopmost),
        Action::Monitor(i) => 0 <= i && l == Label::MonitorItem((i + 1) as usize),
        Action::ToggleMove => l == Label::MenuMoveWindow,
        Action::Settings => l == Label::MenuSettings,
        Action::OpenConfig => l == Label::MenuOpenConfig,
        Action::ReloadConfig => l == Label::MenuReloadConfig,
        Action::About => l == Label::MenuAbout,
        Action::Exit => l == Label::MenuExit,
    }
}

/// Every entry of `ops` that runs an action is labelled with what it runs,
/// and the play/pause entry says "Pause" exactly while playing.
pub open spec fn labels_match(s: MenuState, ops: Seq<MenuOp>) -> bool {
    forall|i: int|
        0 <= i < ops.len() ==> match #[trigger] ops[i] {
            MenuOp::Item { label, action, .. } => says(label, action) && (action is TogglePlay ==> (label
                == Label::MenuPause) == s.playing),
            MenuOp::Checked { label, action, .. } => says(label, action),
            _ => true,
        }
}

proof fn lemma_labels_concat(s: MenuState, a: Seq<MenuOp>, b: Seq<MenuOp>)
    requires
        labels_match(s, a),
        labels_match(s, b),
    ensures
        labels_match(s, a + b),
{
    assert forall|i: int| 0 <= i < (a + b).len() implies match #[trigger] (a + b)[i] {
        MenuOp::Item { label, action, .. } => says(label, action) && (action is TogglePlay ==> (label
            == Label::MenuPause) == s.playing),
        MenuOp::Checked { label, action, .. } => says(label, action),
        _ => true,
    } by {
        if i < a.len() {
            assert((a + b)[i] == a[i]);
        } else {
            assert((a + b)[i] == b[i - a.len()]);
        }
    }
}

/// Every entry of the built menu is labelled with what it does: "Next" runs
/// Next, "Previous" runs Previous, "Start with Windows" toggles autostart,
/// each play mode, layer, controls and monitor entry names its own choice,
/// and the play/pause entry reads "Pause" exactly while playing.
#[verifier::rlimit(40)]
pub proof fn each_entry_says_what_it_does(s: MenuState)
    ensures
        labels_match(s, menu_spec(s)),
{
    reveal_strlit("hover");
    reveal_strlit("always");
    reveal_strlit("bottom");
    reveal_strlit("topmost");
    let t = transport_ops(s.playing);
    let pm = play_mode_ops(s.play_mode);
    let lib = library_ops(s.library_empty);
    let sc = scan_ops(s.scan_recursive);
    let st = startup_ops(s.autostart, s.autoplay);
    let ctl = controls_ops(s.show_controls@);
    let lay = layer_ops(s.mode@);
    let mon = monitor_ops(s.monitors@, s.monitor);
    let tail = tail_ops(s.moving);
    assert(labels_match(s, t));
    let pm_radio = radio_spec(1, PLAY_MODE_IDS@, play_mode_index_spec(s.play_mode));
    let pm_head = seq![
        MenuOp::Item {
            menu: 1,
            label: Label::PlayModeSequential,
            id: 1010,
            action: Action::PlayMode(PlayMode::Sequential),
        },
        MenuOp::Item {
            menu: 1,
            label: Label::PlayModeShuffle,
            id: 1011,
            action: Action::PlayMode(PlayMode::Shuffle),
        },
        MenuOp::Item {
            menu: 1,
            label: Label::PlayModeRepeatOne,
            id: 1012,
            action: Action::PlayMode(PlayMode::RepeatOne),
        },
    ];
    let pm_tail = seq![MenuOp::Attach { child: 1, label: Label::MenuPlayMode }, MenuOp::Separator { menu: 0 }];
    assert(labels_match(s, pm_head));
    assert(labels_match(s, pm_tail));
    assert(labels_match(s, pm_radio));
    lemma_labels_concat(s, pm_head, pm_radio);
    lemma_labels_concat(s, pm_head + pm_radio, pm_tail);
    assert(labels_match(s, pm));
    assert(labels_match(s, lib)) by {
        if s.library_empty {
        } else {
        }
    }
    assert(labels_match(s, sc));
    assert(labels_match(s, st));
    let c_head = seq![
        MenuOp::Item {
            menu: 4,
            label: Label::ShowControlsHover,
            id: 1050,
            action: Action::ShowControls(CONTROLS@[0]),
        },
        MenuOp::Item {
            menu: 4,
            label: Label::ShowControlsAlways,
            id: 1051,
            action: Action::ShowControls(CONTROLS@[1]),
        },
    ];
    let c_radio = radio_spec(4, CONTROLS_IDS@, index_in(crate::config::strs_view(CONTROLS@), s.show_controls@));
    let c_tail = seq![MenuOp::Attach { child: 4, label: Label::MenuShowControls }];
    assert(CONTROLS@[0]@ == "hover"@ && CONTROLS@[1]@ == "always"@);
    assert(labels_match(s, c_head));
    assert(labels_match(s, c_tail));
    assert(labels_match(s, c_radio));
    lemma_labels_concat(s, c_head, c_radio);
    lemma_labels_concat(s, c_head + c_radio, c_tail);
    assert(labels_match(s, ctl));
    let l_head = seq![
        MenuOp::Item { menu: 5, label: Label::ModeBottom, id: 1060, action: Action::WindowMode(MODES@[0]) },
        MenuOp::Item { menu: 5, label: Label::ModeTopmost, id: 1061, action: Action::WindowMode(MODES@[1]) },
    ];
    let l_radio = radio_spec(5, MODE_IDS@, index_in(crate::config::strs_view(MODES@), s.mode@));
    let l_tail = seq![MenuOp::Attach { child: 5, label: Label::MenuZOrder }];
    assert(MODES@[0]@ == "bottom"@ && MODES@[1]@ == "topmost"@);
    assert(labels_match(s, l_head));
    assert(labels_match(s, l_tail));
    assert(labels_match(s, l_radio));
    lemma_labels_concat(s, l_head, l_radio);
    lemma_labels_concat(s, l_head + l_radio, l_tail);
    assert(labels_match(s, lay));
    let shown = shown_monitors(s.monitors@.len() as int);
    let items = monitor_items(shown);
    assert(labels_match(s, items)) by {
        assert forall|i: int| 0 <= i < items.len() implies match #[trigger] items[i] {
            MenuOp::Item { label, action, .. } => says(label, action) && (action is TogglePlay ==> (label
                == Label::MenuPause) == s.playing),
            MenuOp::Checked { label, action, .. } => says(label, action),
            _ => true,
        } by {
            assert(0 <= i < MONITOR_LIMIT);
            assert((i as i32) as int == i);
        }
    }
    let middle = if shown > 1 {
        let selected = if s.monitor < 0 {
            crate::screen::primary_index_spec(s.monitors@)
        } else if s.monitor < shown - 1 {
            s.monitor as int
        } else {
            shown - 1
        };
        radio_spec(6, monitor_ids(shown), selected)
    } else {
        seq![MenuOp::Disabled { menu: 6, label: Label::MonitorItem(1), id: MONITOR_FIRST }]
    };
    assert(labels_match(s, middle));
    let m_tail = seq![MenuOp::Attach { child: 6, label: Label::MenuMonitor }];
    assert(labels_match(s, m_tail));
    lemma_labels_concat(s, items, middle);
    lemma_labels_concat(s, items + middle, m_tail);
    assert(mon == items + middle + m_tail);
    assert(labels_match(s, tail));
    lemma_labels_concat(s, t, pm);
    lemma_labels_concat(s, t + pm, lib);
    lemma_labels_concat(s, t + pm + lib, sc);
    lemma_labels_concat(s, t + pm + lib + sc, st);
    lemma_labels_concat(s, t + pm + lib + sc + st, ctl);
    lemma_labels_concat(s, t + pm + lib + sc + st + ctl, lay);
    lemma_labels_concat(s, t + pm + lib + sc + st + ctl + lay, mon);
    lemma_labels_concat(s, t + pm + lib + sc + st + ctl + lay + mon, tail);
}

} // verus!
