use vstd::prelude::*;

pub mod app;
pub mod audio;
pub mod autostart;
pub mod cli;
pub mod config;
pub mod hotkeys;
pub mod library;
pub mod log;
pub mod menu;
pub mod resources;
pub mod scan;
pub mod screen;
pub mod settings;
pub mod lists;
pub mod text;
pub mod theme;
pub mod validation;

verus! {

/// Version of this build, as shown by `--version` and in the About box.
pub const VERSION: &'static str = "1.0.5";

/// Window class of the card.
pub const CLASS_NAME: &'static str = "DesktopMusicWidget_v1";

/// Window class of the settings window.
pub const SETTINGS_CLASS_NAME: &'static str = "DesktopMusicWidget_Settings_v1";

/// Name of the mutex that keeps a second instance from starting.
pub const MUTEX_NAME: &'static str = "DesktopMusicWidget_SingleInstance_v1";

/// Window title, also the tray tooltip when nothing is playing.
pub const WINDOW_TITLE: &'static str = "DesktopMusicWidget";

/// Where the source lives, shown in the About box.
pub const HOMEPAGE: &'static str = "github.com/DuanLingLan/DesktopMusicWidget";

/// The package's repository, as published with the package.
pub const REPOSITORY: &'static str = "https://github.com/DuanLingLan/DesktopMusicWidget";

} // verus!
