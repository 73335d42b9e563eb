//! Global hotkeys: the ids, the key table, the modifier presets and what each
//! id does.
//!
//! `Ctrl+Alt+<arrow>` is claimed by some graphics drivers' screen-rotation
//! shortcut, so each combination falls back to adding Shift rather than
//! silently doing nothing. Failures are collected so the settings window can
//! tell the user.

use vstd::prelude::*;
use crate::text::str_eq;

verus! {

pub const HK_PLAYPAUSE: i32 = 1;

pub const HK_NEXT: i32 = 2;

pub const HK_PREV: i32 = 3;

pub const HK_VOLUP: i32 = 4;

pub const HK_VOLDOWN: i32 = 5;

/// Virtual-key codes of the five keys.
pub const VK_SPACE: u32 = 0x20;

pub const VK_LEFT: u32 = 0x25;

pub const VK_UP: u32 = 0x26;

pub const VK_RIGHT: u32 = 0x27;

pub const VK_DOWN: u32 = 0x28;

/// Modifier bits as `RegisterHotKey` takes them.
pub const MOD_ALT: u32 = 0x0001;

pub const MOD_CONTROL: u32 = 0x0002;

pub const MOD_SHIFT: u32 = 0x0004;

/// Reserved by the shell; never used.
pub const MOD_WIN: u32 = 0x0008;

/// Asks for one press per keystroke instead of auto-repeat.
pub const MOD_NOREPEAT: u32 = 0x4000;

/// `id`, virtual key, and a readable name used in the failure message.
pub const COMBOS: [(i32, u32, &'static str); 5] = [
    (HK_PLAYPAUSE, VK_SPACE, "Space"),
    (HK_NEXT, VK_RIGHT, "Right"),
    (HK_PREV, VK_LEFT, "Left"),
    (HK_VOLUP, VK_UP, "Up"),
    (HK_VOLDOWN, VK_DOWN, "Down"),
];

#[derive(Debug, Clone, Copy, PartialEq, Eq, Structural)]
pub enum Preset {
    CtrlAlt,
    CtrlShiftAlt,
}

pub open spec fn preset_name(p: Preset) -> Seq<char> {
    match p {
        Preset::CtrlAlt => "ctrl-alt"@,
        Preset::CtrlShiftAlt => "ctrl-shift-alt"@,
    }
}

/// Only the exact spelling selects the shifted preset; anything else is the
/// historical default.
pub open spec fn preset_of(v: Seq<char>) -> Preset {
    if v == "ctrl-shift-alt"@ {
        Preset::CtrlShiftAlt
    } else {
        Preset::CtrlAlt
    }
}

pub open spec fn preset_modifiers(p: Preset) -> u32 {
    match p {
        Preset::CtrlAlt => 0x0003,
        Preset::CtrlShiftAlt => 0x0007,
    }
}

impl Preset {
    pub fn from_config(value: &str) -> (r: Self)
        ensures
            r == preset_of(value@),
    {
        if str_eq(value, "ctrl-shift-alt") {
            Preset::CtrlShiftAlt
        } else {
            Preset::CtrlAlt
        }
    }

    pub fn as_str(self) -> (r: &'static str)
        ensures
            r@ == preset_name(self),
    {
        match self {
            Preset::CtrlAlt => "ctrl-alt",
            Preset::CtrlShiftAlt => "ctrl-shift-alt",
        }
    }

    /// Never `MOD_WIN`: those combinations are reserved by the shell.
    pub fn modifiers(self) -> (r: u32)
        ensures
            r == preset_modifiers(self),
    {
        assert(MOD_CONTROL | MOD_ALT == 3u32) by (bit_vector);
        assert(MOD_CONTROL | MOD_SHIFT | MOD_ALT == 7u32) by (bit_vector);
        match self {
            Preset::CtrlAlt => MOD_CONTROL | MOD_ALT,
            Preset::CtrlShiftAlt => MOD_CONTROL | MOD_SHIFT | MOD_ALT,
        }
    }
}

/// Every preset survives a trip through its config spelling.
pub proof fn preset_round_trip(p: Preset)
    ensures
        preset_of(preset_name(p)) == p,
{
    reveal_strlit("ctrl-alt");
    reveal_strlit("ctrl-shift-alt");
    assert("ctrl-alt"@.len() != "ctrl-shift-alt"@.len());
}

/// Every preset holds Ctrl and Alt and never the Windows key, and the shifted
/// preset only adds Shift to the plain one.
pub proof fn presets_use_ctrl_alt_never_win(p: Preset)
    ensures
        preset_modifiers(p) & MOD_WIN == 0,
        preset_modifiers(p) & MOD_CONTROL != 0,
        preset_modifiers(p) & MOD_ALT != 0,
        preset_modifiers(Preset::CtrlShiftAlt) & preset_modifiers(Preset::CtrlAlt)
            == preset_modifiers(Preset::CtrlAlt),
        preset_modifiers(Preset::CtrlShiftAlt) & MOD_SHIFT != 0,
{
    assert(3u32 & 8u32 == 0) by (bit_vector);
    assert(7u32 & 8u32 == 0) by (bit_vector);
    assert(3u32 & 2u32 != 0) by (bit_vector);
    assert(7u32 & 2u32 != 0) by (bit_vector);
    assert(3u32 & 1u32 != 0) by (bit_vector);
    assert(7u32 & 1u32 != 0) by (bit_vector);
    assert(7u32 & 3u32 == 3u32) by (bit_vector);
    assert(7u32 & 4u32 != 0) by (bit_vector);
}

/// What registering the hotkeys achieved.
#[derive(Debug, PartialEq, Eq)]
pub struct Registration {
    pub registered: usize,
    /// Human names of the combinations that could not be claimed.
    pub failed: Vec<&'static str>,
}

impl Default for Registration {
    fn default() -> (r: Self)
        ensures
            r.registered == 0,
            r.failed@.len() == 0,
    {
        Registration { registered: 0, failed: Vec::new() }
    }
}

impl Registration {
    /// Records one combination: claimed (plainly or with Shift added) or
    /// failed under its readable name.
    pub fn record(&mut self, claimed: bool, name: &'static str)
        requires
            old(self).registered < usize::MAX,
        ensures
            claimed ==> final(self).registered == old(self).registered + 1 && final(self).failed@
                == old(self).failed@,
            !claimed ==> final(self).registered == old(self).registered && final(self).failed@
                == old(self).failed@.push(name),
    {
        if claimed {
            self.registered = self.registered + 1;
        } else {
            self.failed.push(name);
        }
    }

    /// Whether any hotkey is held after this registration.
    pub fn any_registered(&self) -> (r: bool)
        ensures
            r == (self.registered > 0),
    {
        self.registered > 0
    }
}

/// Which action a hotkey id maps to.
#[derive(Debug, Clone, Copy, PartialEq, Eq, Structural)]
pub enum HotkeyAction {
    TogglePause,
    Next,
    Prev,
    VolumeUp,
    VolumeDown,
}

pub open spec fn action_spec(id: i32) -> Option<HotkeyAction> {
    if id == HK_PLAYPAUSE {
        Some(HotkeyAction::TogglePause)
    } else if id == HK_NEXT {
        Some(HotkeyAction::Next)
    } else if id == HK_PREV {
        Some(HotkeyAction::Prev)
    } else if id == HK_VOLUP {
        Some(HotkeyAction::VolumeUp)
    } else if id == HK_VOLDOWN {
        Some(HotkeyAction::VolumeDown)
    } else {
        None
    }
}

pub fn action_for(id: i32) -> (r: Option<HotkeyAction>)
    ensures
        r == action_spec(id),
{
    if id == HK_PLAYPAUSE {
        Some(HotkeyAction::TogglePause)
    } else if id == HK_NEXT {
        Some(HotkeyAction::Next)
    } else if id == HK_PREV {
        Some(HotkeyAction::Prev)
    } else if id == HK_VOLUP {
        Some(HotkeyAction::VolumeUp)
    } else if id == HK_VOLDOWN {
        Some(HotkeyAction::VolumeDown)
    } else {
        None
    }
}

/// No two combinations share an id, and every id has a handler.
pub proof fn combos_are_distinct_and_handled()
    ensures
        forall|i: int, j: int| 0 <= i < j < 5 ==> COMBOS@[i].0 != COMBOS@[j].0,
        forall|i: int| 0 <= i < 5 ==> (#[trigger] action_spec(COMBOS@[i].0)) is Some,
{
}

} // verus!
