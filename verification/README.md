# DesktopMusicWidget

A lightweight always-on-desktop music widget. This repository holds its
library, written in Verus: every decision the widget makes is a verified
function whose behaviour is stated in its `requires` / `ensures` contract.

## Layout

- `src/` — the verified library.
  - `cli` — command-line parsing; `--opt=value` and `--opt value` agree, and
    `--play` takes the paths up to the next flag.
  - `config`, `validation` — the config schema, validation, v1 migration and
    where the file lives; what every validated config satisfies, and that
    validation reports every change it makes.
  - `library` — the scan status, the options a walk runs with, every decision
    about a folder entry, and the walk itself as a state machine that asks the
    front end for folder listings; a whole walk finds exactly the tracks of a
    recursive depth-first walk.
  - `scan` — a whole library scan as a state machine: the status shown, the
    starter album first and the rest behind it, the retries while a drive
    spins up, and what goes to the player; `app/` lists folders, runs walks
    and sleeps for it.
  - `audio` — play modes, track picking and the playback bookkeeping engine.
  - `menu`, `app`, `settings`, `hotkeys`, `screen` — the tray menu and what each
    entry dispatches to, tray and hotkey responses, settings-window helpers,
    hotkey presets, monitor ordering and card placement.
  - `autostart` — the logon entry's value and when it is written.
  - `log`, `resources`, `theme`, `text`, `lists` — log lines, the Windows
    resource script, colours, and string/list helpers.
- `tests/` — tests of the library.
- `app/` — a headless program around the library: command-line modes,
  reading and writing the config file, folder listing, the audio device and
  decoders, and the log file.

The Windows front end is not here. There is no card window and no drawing of
it, no tray icon, no menu popup, no settings window, no global hotkey
registration and no writing of the autostart registry entry. The library
holds what each of those decides (the menu and what its entries dispatch to,
tray and hotkey responses, the settings-window choices, hotkey presets, card
placement, the autostart value), but `app/` does not show or register any of
them: `--open-config` prints the config path, and `--install-autostart` /
`--remove-autostart` stop with an error.

Outside crates called from the library go through small trusted wrappers,
each documented with what its contract claims of the crate.
