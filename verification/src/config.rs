//! Configuration: schema v2, validation, v1 migration and where the file lives.
//!
//! Loading must never fail: out-of-range values are clamped with a warning, so
//! editing a text file can never make the widget unstartable. The two
//! floating-point appearance values (corner radius and card opacity) are
//! clamped by the front end; everything else is validated here.

use vstd::prelude::*;
use crate::lists::{contains_string, dedup, dedup_keep_order, drop_empty, same_strings, strings_view, trim_all, trimmed_nonblank};
use crate::text::{
    ascii_lowercase, debug_quote, debug_text, dec_int, fmt_i64, lower_ascii_seq, str_eq, strip_dots,
    strip_dots_str, trim, trim_str,
};
use crate::theme::Theme;

verus! {

/// Bumped whenever the on-disk shape changes. See `migrate`.
pub const CONFIG_VERSION: u32 = 2;

/// Decoders compiled into the audio backend. Opus and WMA are deliberately
/// absent: advertising those extensions would only produce silent decode
/// failures.
pub const DEFAULT_EXTENSIONS: [&'static str; 9] = [
    "mp3",
    "flac",
    "wav",
    "m4a",
    "m4b",
    "aac",
    "ogg",
    "oga",
    "aiff",
];

pub const PLAY_MODES: [&'static str; 3] = ["sequential", "shuffle", "repeat-one"];

pub const ANCHORS: [&'static str; 4] = ["top-left", "top-center", "top-right", "free"];

pub const MODES: [&'static str; 2] = ["bottom", "topmost"];

pub const SHOW_CONTROLS: [&'static str; 2] = ["hover", "always"];

pub const LANGUAGES: [&'static str; 3] = ["auto", "zh-CN", "en"];

pub const HOTKEY_PRESETS: [&'static str; 2] = ["ctrl-alt", "ctrl-shift-alt"];

pub const WIDTH_RANGE: (i32, i32) = (200, 900);

pub const HEIGHT_RANGE: (i32, i32) = (64, 400);

/// The range of `monitor`: -1 is the primary monitor.
pub const MONITOR_RANGE: (i32, i32) = (-1, 64);

/// The characters of a list of string literals.
pub open spec fn strs_view(v: Seq<&'static str>) -> Seq<Seq<char>> {
    v.map_values(|s: &'static str| s@)
}

/// The configuration, minus the two floating-point appearance values that
/// the front end keeps beside it.
#[derive(Debug, Clone)]
pub struct Config {
    /// Schema version of the file on disk; a file without it is from v1.
    pub config_version: u32,
    /// `auto` | `zh-CN` | `en`
    pub language: String,
    /// Directories to scan for music. Empty means "not configured yet", which
    /// triggers the first-run folder picker.
    pub library: Vec<String>,
    pub scan_recursive: bool,
    /// Folder names (matched case-insensitively) or absolute paths to skip.
    pub exclude_dirs: Vec<String>,
    /// Lower-case extensions without a leading dot.
    pub extensions: Vec<String>,
    /// `sequential` | `shuffle` | `repeat-one`
    pub play_mode: String,
    /// 0-100 UI volume.
    pub volume: u32,
    /// Start playing as soon as a queue is available.
    pub autoplay: bool,
    /// Mirror of the logon entry; the app reconciles the registry to match.
    pub autostart: bool,
    pub hotkeys_enabled: bool,
    /// `ctrl-alt` | `ctrl-shift-alt`
    pub hotkey_preset: String,
    /// `bottom` (desktop layer, default) | `topmost`
    pub mode: String,
    /// `-1` = primary monitor, otherwise a zero-based monitor index.
    pub monitor: i32,
    /// `top-left` | `top-center` | `top-right` | `free`
    pub anchor: String,
    /// With `anchor = "free"` these are absolute logical pixels on `monitor`.
    pub offset_x: i32,
    pub offset_y: i32,
    /// Card size in logical (96-dpi) pixels.
    pub width: i32,
    pub height: i32,
    /// `hover` (default) | `always`
    pub show_controls: String,
    pub font_family: String,
    pub theme: Theme,
}

/// The mathematical content of a [`Config`].
pub struct ConfigModel {
    pub config_version: u32,
    pub language: Seq<char>,
    pub library: Seq<Seq<char>>,
    pub scan_recursive: bool,
    pub exclude_dirs: Seq<Seq<char>>,
    pub extensions: Seq<Seq<char>>,
    pub play_mode: Seq<char>,
    pub volume: u32,
    pub autoplay: bool,
    pub autostart: bool,
    pub hotkeys_enabled: bool,
    pub hotkey_preset: Seq<char>,
    pub mode: Seq<char>,
    pub monitor: i32,
    pub anchor: Seq<char>,
    pub offset_x: i32,
    pub offset_y: i32,
    pub width: i32,
    pub height: i32,
    pub show_controls: Seq<char>,
    pub font_family: Seq<char>,
    pub theme: Theme,
}

impl View for Config {
    type V = ConfigModel;

    open spec fn view(&self) -> ConfigModel {
        ConfigModel {
            config_version: self.config_version,
            language: self.language@,
            library: strings_view(self.library@),
            scan_recursive: self.scan_recursive,
            exclude_dirs: strings_view(self.exclude_dirs@),
            extensions: strings_view(self.extensions@),
            play_mode: self.play_mode@,
            volume: self.volume,
            autoplay: self.autoplay,
            autostart: self.autostart,
            hotkeys_enabled: self.hotkeys_enabled,
            hotkey_preset: self.hotkey_preset@,
            mode: self.mode@,
            monitor: self.monitor,
            anchor: self.anchor@,
            offset_x: self.offset_x,
            offset_y: self.offset_y,
            width: self.width,
            height: self.height,
            show_controls: self.show_controls@,
            font_family: self.font_family@,
            theme: self.theme,
        }
    }
}

/// The shipped defaults. The library is deliberately empty: the author's
/// personal path must not ship as a default, and an empty library triggers
/// the first-run folder picker.
pub open spec fn is_default(c: ConfigModel) -> bool {
    &&& c.config_version == CONFIG_VERSION
    &&& c.language == "auto"@
    &&& c.library.len() == 0
    &&& c.scan_recursive
    &&& c.exclude_dirs.len() == 0
    &&& c.extensions == strs_view(DEFAULT_EXTENSIONS@)
    &&& c.play_mode == "shuffle"@
    &&& c.volume == 70
    &&& c.autoplay
    &&& !c.autostart
    &&& c.hotkeys_enabled
    &&& c.hotkey_preset == "ctrl-alt"@
    &&& c.mode == "bottom"@
    &&& c.monitor == -1
    &&& c.anchor == "top-center"@
    &&& c.offset_x == 0
    &&& c.offset_y == 24
    &&& c.width == 340
    &&& c.height == 96
    &&& c.show_controls == "hover"@
    &&& c.font_family == "Segoe UI"@
    &&& c.theme.background@ == "#121217"@
    &&& c.theme.art_bg@ == "#ffffff1a"@
    &&& c.theme.title@ == "#fffffff5"@
    &&& c.theme.subtitle@ == "#ffffff99"@
    &&& c.theme.bar_bg@ == "#ffffff29"@
    &&& c.theme.bar_fg@ == "#ffffffd9"@
}

/// The default extension list as owned strings.
pub fn default_extensions() -> (r: Vec<String>)
    ensures
        strings_view(r@) == strs_view(DEFAULT_EXTENSIONS@),
{
    let mut out: Vec<String> = Vec::new();
    let mut i: usize = 0;
    while i < 9
        invariant
            i <= 9,
            DEFAULT_EXTENSIONS@.len() == 9,
            strings_view(out@) == strs_view(DEFAULT_EXTENSIONS@.subrange(0, i as int)),
        decreases 9 - i,
    {
        out.push(String::from_str(DEFAULT_EXTENSIONS[i]));
        assert(strs_view(DEFAULT_EXTENSIONS@.subrange(0, i + 1)) =~= strs_view(
            DEFAULT_EXTENSIONS@.subrange(0, i as int),
        ).push(DEFAULT_EXTENSIONS@[i as int]@));
        assert(strings_view(out@) =~= strs_view(DEFAULT_EXTENSIONS@.subrange(0, i as int)).push(
            DEFAULT_EXTENSIONS@[i as int]@,
        ));
        i = i + 1;
    }
    assert(DEFAULT_EXTENSIONS@.subrange(0, 9) =~= DEFAULT_EXTENSIONS@);
    out
}

impl Default for Config {
    fn default() -> (c: Self)
        ensures
            is_default(c@),
    {
        let c = Config {
            config_version: CONFIG_VERSION,
            language: String::from_str("auto"),
            library: Vec::new(),
            scan_recursive: true,
            exclude_dirs: Vec::new(),
            extensions: default_extensions(),
            play_mode: String::from_str("shuffle"),
            volume: 70,
            autoplay: true,
            autostart: false,
            hotkeys_enabled: true,
            hotkey_preset: String::from_str("ctrl-alt"),
            mode: String::from_str("bottom"),
            monitor: -1,
            anchor: String::from_str("top-center"),
            offset_x: 0,
            offset_y: 24,
            width: 340,
            height: 96,
            show_controls: String::from_str("hover"),
            font_family: String::from_str("Segoe UI"),
            theme: Theme::default(),
        };
        c
    }
}

impl Config {
    /// The configured music folders.
    pub fn library_paths(&self) -> (r: Vec<String>)
        ensures
            strings_view(r@) == strings_view(self.library@),
    {
        let mut out: Vec<String> = Vec::new();
        let mut i: usize = 0;
        while i < self.library.len()
            invariant
                i <= self.library@.len(),
                strings_view(out@) == strings_view(self.library@.subrange(0, i as int)),
            decreases self.library@.len() - i,
        {
            let entry = self.library[i].clone();
            assert(entry@ == self.library@[i as int]@);
            out.push(entry);
            assert(strings_view(self.library@.subrange(0, i + 1)) =~= strings_view(
                self.library@.subrange(0, i as int),
            ).push(self.library@[i as int]@));
            assert(strings_view(out@) =~= strings_view(self.library@.subrange(0, i + 1)));
            i = i + 1;
        }
        assert(self.library@.subrange(0, self.library@.len() as int) =~= self.library@);
        out
    }

    /// True when nothing should be scanned, which is the first-run state.
    pub fn needs_library_setup(&self) -> (r: bool)
        ensures
            r == (self.library@.len() == 0),
    {
        self.library.len() == 0
    }
}


// ---------------------------------------------------------------------------
// Validation
// ---------------------------------------------------------------------------

/// The first entry of `allowed` that equals `t` once ASCII case is ignored,
/// looking from index `i`.
pub open spec fn canonical_from(allowed: Seq<Seq<char>>, t: Seq<char>, i: int) -> Option<Seq<char>>
    decreases allowed.len() - i,
{
    if i < 0 || i >= allowed.len() {
        None
    } else if lower_ascii_seq(allowed[i]) == t {
        Some(allowed[i])
    } else {
        canonical_from(allowed, t, i + 1)
    }
}

/// The canonical spelling of an enum value: matched case-insensitively in both
/// directions after trimming.
pub open spec fn canonical(allowed: Seq<Seq<char>>, v: Seq<char>) -> Option<Seq<char>> {
    canonical_from(allowed, lower_ascii_seq(trim(v)), 0)
}

/// What a validated enum field holds.
pub open spec fn fixed_enum(v: Seq<char>, allowed: Seq<Seq<char>>, default: Seq<char>) -> Seq<char> {
    match canonical(allowed, v) {
        Some(a) => a,
        None => default,
    }
}

/// `{name} = {value} 无效，已改为 {default}`, with the value and the default
/// already written as `Debug` writes them.
pub open spec fn invalid_enum_text(name: Seq<char>, value: Seq<char>, default: Seq<char>) -> Seq<char> {
    name + " = "@ + value + " 无效，已改为 "@ + default
}

/// `{name} = {field:?} 无效，已改为 {default:?}`
pub open spec fn enum_message(name: Seq<char>, v: Seq<char>, default: Seq<char>) -> Seq<char> {
    invalid_enum_text(name, debug_text(v), debug_text(default))
}

/// The warning for an unrecognised enum value, from the quoted value and
/// the quoted default.
pub fn invalid_enum_message(name: &str, quoted_value: &str, quoted_default: &str) -> (r: String)
    ensures
        r@ == invalid_enum_text(name@, quoted_value@, quoted_default@),
{
    let mut msg = String::from_str(name);
    msg.append(" = ");
    msg.append(quoted_value);
    msg.append(" 无效，已改为 ");
    msg.append(quoted_default);
    msg
}

/// `{name} = {value} 已改为 {canonical}`, with the value and its canonical
/// spelling already written as `Debug` writes them.
pub open spec fn respelled_text(name: Seq<char>, value: Seq<char>, canonical: Seq<char>) -> Seq<char> {
    name + " = "@ + value + " 已改为 "@ + canonical
}

/// `{name} = {field:?} 已改为 {canonical:?}`
pub open spec fn respell_message(name: Seq<char>, v: Seq<char>, canonical: Seq<char>) -> Seq<char> {
    respelled_text(name, debug_text(v), debug_text(canonical))
}

/// The warning for a recognised enum value written in another spelling, from
/// the quoted value and its quoted canonical spelling.
pub fn respelled_enum_message(name: &str, quoted_value: &str, quoted_canonical: &str) -> (r: String)
    ensures
        r@ == respelled_text(name@, quoted_value@, quoted_canonical@),
{
    let mut msg = String::from_str(name);
    msg.append(" = ");
    msg.append(quoted_value);
    msg.append(" 已改为 ");
    msg.append(quoted_canonical);
    msg
}

/// The warnings an enum field produces: one when it was not recognised, and
/// one when it was recognised in a spelling other than the canonical one.
pub open spec fn enum_warnings(name: Seq<char>, v: Seq<char>, allowed: Seq<Seq<char>>, default: Seq<char>) -> Seq<Seq<char>> {
    match canonical(allowed, v) {
        Some(a) => if a == v {
            Seq::empty()
        } else {
            seq![respell_message(name, v, a)]
        },
        None => seq![enum_message(name, v, default)],
    }
}

/// Replaces an unknown enum value by its default and writes back the canonical
/// spelling of a known one, reporting either change.
pub fn fix_enum(field: &mut String, allowed: &[&'static str], default: &str, name: &str, w: &mut Vec<String>)
    ensures
        final(field)@ == fixed_enum(old(field)@, strs_view(allowed@), default@),
        strings_view(final(w)@) == strings_view(old(w)@) + enum_warnings(
            name@,
            old(field)@,
            strs_view(allowed@),
            default@,
        ),
{
    let ghost av = strs_view(allowed@);
    let trimmed = trim_str(field.as_str());
    let lowered = ascii_lowercase(trimmed.as_str());
    let mut i: usize = 0;
    while i < allowed.len()
        invariant
            i <= allowed@.len(),
            av == strs_view(allowed@),
            *field == *old(field),
            *w == *old(w),
            lowered@ == lower_ascii_seq(trim(field@)),
            canonical(av, field@) == canonical_from(av, lowered@, i as int),
        decreases allowed@.len() - i,
    {
        let candidate = ascii_lowercase(allowed[i]);
        assert(av[i as int] == allowed@[i as int]@);
        if str_eq(candidate.as_str(), lowered.as_str()) {
            if str_eq(allowed[i], field.as_str()) {
                assert(strings_view(w@) + Seq::<Seq<char>>::empty() =~= strings_view(w@));
            } else {
                let ghost before = strings_view(w@);
                let quoted_value = debug_quote(field.as_str());
                let quoted_canonical = debug_quote(allowed[i]);
                let msg = respelled_enum_message(name, quoted_value.as_str(), quoted_canonical.as_str());
                w.push(msg);
                assert(strings_view(w@) =~= before + seq![respell_message(name@, old(field)@, av[i as int])]);
            }
            *field = String::from_str(allowed[i]);
            return;
        }
        i = i + 1;
    }
    let ghost before = strings_view(w@);
    let quoted_value = debug_quote(field.as_str());
    let quoted_default = debug_quote(default);
    let msg = invalid_enum_message(name, quoted_value.as_str(), quoted_default.as_str());
    w.push(msg);
    assert(strings_view(w@) =~= before + seq![enum_message(name@, old(field)@, default@)]);
    *field = String::from_str(default);
}

/// `i32::clamp`.
pub open spec fn clamp_spec(v: i32, lo: i32, hi: i32) -> i32 {
    if v < lo {
        lo
    } else if v > hi {
        hi
    } else {
        v
    }
}

/// `{name} = {v} 超出范围 {lo}..={hi}，已改为 {clamped}`
pub open spec fn range_message(name: Seq<char>, v: i32, lo: i32, hi: i32) -> Seq<char> {
    name + " = "@ + dec_int(v as int) + " 超出范围 "@ + dec_int(lo as int) + "..="@ + dec_int(hi as int)
        + "，已改为 "@ + dec_int(clamp_spec(v, lo, hi) as int)
}

pub open spec fn range_warnings(name: Seq<char>, v: i32, lo: i32, hi: i32) -> Seq<Seq<char>> {
    if clamp_spec(v, lo, hi) == v {
        Seq::empty()
    } else {
        seq![range_message(name, v, lo, hi)]
    }
}

/// Clamps `v` into `range`, reporting the change.
pub fn clamp_int(v: &mut i32, range: (i32, i32), name: &str, w: &mut Vec<String>)
    requires
        range.0 <= range.1,
    ensures
        *final(v) == clamp_spec(*old(v), range.0, range.1),
        strings_view(final(w)@) == strings_view(old(w)@) + range_warnings(name@, *old(v), range.0, range.1),
{
    let (lo, hi) = range;
    let clamped: i32 = if *v < lo {
        lo
    } else if *v > hi {
        hi
    } else {
        *v
    };
    if clamped != *v {
        let ghost before = strings_view(w@);
        let mut msg = String::from_str(name);
        msg.append(" = ");
        msg.append(fmt_i64(*v as i64).as_str());
        msg.append(" 超出范围 ");
        msg.append(fmt_i64(lo as i64).as_str());
        msg.append("..=");
        msg.append(fmt_i64(hi as i64).as_str());
        msg.append("，已改为 ");
        msg.append(fmt_i64(clamped as i64).as_str());
        w.push(msg);
        assert(strings_view(w@) =~= before + seq![range_message(name@, *old(v), lo, hi)]);
        *v = clamped;
    } else {
        assert(strings_view(w@) + Seq::<Seq<char>>::empty() =~= strings_view(w@));
    }
}


/// The enum fields made canonical, the config version current, and the card
/// size and monitor index clamped into range.
pub open spec fn shape_spec(c: ConfigModel) -> ConfigModel {
    ConfigModel {
        config_version: CONFIG_VERSION,
        language: fixed_enum(c.language, strs_view(LANGUAGES@), "auto"@),
        play_mode: fixed_enum(c.play_mode, strs_view(PLAY_MODES@), "shuffle"@),
        mode: fixed_enum(c.mode, strs_view(MODES@), "bottom"@),
        anchor: fixed_enum(c.anchor, strs_view(ANCHORS@), "top-center"@),
        show_controls: fixed_enum(c.show_controls, strs_view(SHOW_CONTROLS@), "hover"@),
        hotkey_preset: fixed_enum(c.hotkey_preset, strs_view(HOTKEY_PRESETS@), "ctrl-alt"@),
        width: clamp_spec(c.width, 200, 900),
        height: clamp_spec(c.height, 64, 400),
        monitor: clamp_spec(c.monitor, -1i32, 64),
        ..c
    }
}

/// The corrections [`validate_shape`] reports, in order.
pub open spec fn shape_warnings(c: ConfigModel) -> Seq<Seq<char>> {
    enum_warnings("language"@, c.language, strs_view(LANGUAGES@), "auto"@)
        + enum_warnings("play_mode"@, c.play_mode, strs_view(PLAY_MODES@), "shuffle"@)
        + enum_warnings("mode"@, c.mode, strs_view(MODES@), "bottom"@)
        + enum_warnings("anchor"@, c.anchor, strs_view(ANCHORS@), "top-center"@)
        + enum_warnings("show_controls"@, c.show_controls, strs_view(SHOW_CONTROLS@), "hover"@)
        + enum_warnings("hotkey_preset"@, c.hotkey_preset, strs_view(HOTKEY_PRESETS@), "ctrl-alt"@)
        + range_warnings("width"@, c.width, 200, 900)
        + range_warnings("height"@, c.height, 64, 400)
        + range_warnings("monitor"@, c.monitor, -1i32, 64)
}

/// First half of [`validate`]: enums, schema version, card size and monitor.
/// The front end clamps the corner radius (bounded by half the height set
/// here) and the opacity between the two halves.
pub fn validate_shape(cfg: &mut Config) -> (w: Vec<String>)
    ensures
        final(cfg)@ == shape_spec(old(cfg)@),
        strings_view(w@) == shape_warnings(old(cfg)@),
{
    let mut w: Vec<String> = Vec::new();
    cfg.config_version = CONFIG_VERSION;
    fix_enum(&mut cfg.language, &LANGUAGES, "auto", "language", &mut w);
    fix_enum(&mut cfg.play_mode, &PLAY_MODES, "shuffle", "play_mode", &mut w);
    fix_enum(&mut cfg.mode, &MODES, "bottom", "mode", &mut w);
    fix_enum(&mut cfg.anchor, &ANCHORS, "top-center", "anchor", &mut w);
    fix_enum(&mut cfg.show_controls, &SHOW_CONTROLS, "hover", "show_controls", &mut w);
    fix_enum(&mut cfg.hotkey_preset, &HOTKEY_PRESETS, "ctrl-alt", "hotkey_preset", &mut w);
    clamp_int(&mut cfg.width, WIDTH_RANGE, "width", &mut w);
    clamp_int(&mut cfg.height, HEIGHT_RANGE, "height", &mut w);
    clamp_int(&mut cfg.monitor, MONITOR_RANGE, "monitor", &mut w);
    assert(strings_view(w@) =~= shape_warnings(old(cfg)@));
    w
}


/// A path list with blanks dropped, each entry trimmed and repeats removed.
pub open spec fn clean_list(v: Seq<Seq<char>>) -> Seq<Seq<char>> {
    dedup(drop_empty(trim_all(v)))
}

/// One extension normalised: trimmed, leading dots dropped, ASCII lower case.
pub open spec fn normalize_ext(e: Seq<char>) -> Seq<char> {
    lower_ascii_seq(strip_dots(trim(e)))
}

pub open spec fn normalize_exts(v: Seq<Seq<char>>) -> Seq<Seq<char>> {
    v.map_values(|e: Seq<char>| normalize_ext(e))
}

/// The extension list after validation: normalised, blanks and repeats
/// dropped, and the defaults when nothing is left.
pub open spec fn clean_extensions(v: Seq<Seq<char>>) -> Seq<Seq<char>> {
    let e = dedup(drop_empty(normalize_exts(v)));
    if e.len() == 0 {
        strs_view(DEFAULT_EXTENSIONS@)
    } else {
        e
    }
}

/// Volume capped at 100, a blank font replaced, and the folder, exclusion and
/// extension lists cleaned.
pub open spec fn rest_spec(c: ConfigModel) -> ConfigModel {
    ConfigModel {
        volume: if c.volume > 100 {
            100
        } else {
            c.volume
        },
        font_family: if trim(c.font_family).len() == 0 {
            "Segoe UI"@
        } else {
            c.font_family
        },
        library: clean_list(c.library),
        exclude_dirs: clean_list(c.exclude_dirs),
        extensions: clean_extensions(c.extensions),
        ..c
    }
}

/// `volume = {v} 超出 0..100，已改为 100`
pub open spec fn volume_message(v: u32) -> Seq<char> {
    "volume = "@ + dec_int(v as int) + " 超出 0..100，已改为 100"@
}

/// The corrections [`validate_rest`] reports, in order.
pub open spec fn rest_warnings(c: ConfigModel) -> Seq<Seq<char>> {
    (if c.volume > 100 {
        seq![volume_message(c.volume)]
    } else {
        Seq::empty()
    }) + (if trim(c.font_family).len() == 0 {
        seq!["font_family 为空，已改为 Segoe UI"@]
    } else {
        Seq::empty()
    }) + (if clean_list(c.library) != c.library {
        seq!["library 中的空白或重复项已清理"@]
    } else {
        Seq::empty()
    }) + (if clean_list(c.exclude_dirs) != c.exclude_dirs {
        seq!["exclude_dirs 中的空白或重复项已清理"@]
    } else {
        Seq::empty()
    }) + extension_warnings(c.extensions)
}

/// What cleaning the extension list reports: that it was restored when nothing
/// was left, or that it was rewritten when it changed otherwise.
pub open spec fn extension_warnings(v: Seq<Seq<char>>) -> Seq<Seq<char>> {
    let e = dedup(drop_empty(normalize_exts(v)));
    if e.len() == 0 {
        seq!["extensions 为空，已恢复为默认列表"@]
    } else if e != v {
        seq!["extensions 中的大小写、点号、空白或重复项已规范"@]
    } else {
        Seq::empty()
    }
}

/// Every extension normalised, blanks dropped.
pub fn normalized_extensions(v: &Vec<String>) -> (r: Vec<String>)
    ensures
        strings_view(r@) == drop_empty(normalize_exts(strings_view(v@))),
{
    let ghost orig = normalize_exts(strings_view(v@));
    let mut out: Vec<String> = Vec::new();
    let mut i: usize = 0;
    while i < v.len()
        invariant
            i <= v@.len(),
            orig == normalize_exts(strings_view(v@)),
            orig.len() == v@.len(),
            strings_view(out@) == drop_empty(orig.subrange(0, i as int)),
        decreases v@.len() - i,
    {
        let t = trim_str(v[i].as_str());
        let d = strip_dots_str(t.as_str());
        let e = ascii_lowercase(d.as_str());
        assert(e@ == orig[i as int]);
        assert(orig.subrange(0, i + 1).drop_last() =~= orig.subrange(0, i as int));
        if e.unicode_len() > 0 {
            out.push(e);
            assert(strings_view(out@) =~= drop_empty(orig.subrange(0, i as int)).push(orig[i as int]));
        }
        i = i + 1;
    }
    assert(orig.subrange(0, v@.len() as int) =~= orig);
    out
}

fn push_literal(w: &mut Vec<String>, text: &str)
    ensures
        strings_view(final(w)@) == strings_view(old(w)@) + seq![text@],
{
    w.push(String::from_str(text));
    assert(strings_view(w@) =~= strings_view(old(w)@) + seq![text@]);
}

/// Second half of [`validate`]: volume, font, and the three lists.
pub fn validate_rest(cfg: &mut Config) -> (w: Vec<String>)
    ensures
        final(cfg)@ == rest_spec(old(cfg)@),
        strings_view(w@) == rest_warnings(old(cfg)@),
{
    let ghost c = cfg@;
    let mut w: Vec<String> = Vec::new();
    let ghost w0 = strings_view(w@);
    if cfg.volume > 100 {
        let mut msg = String::from_str("volume = ");
        msg.append(fmt_i64(cfg.volume as i64).as_str());
        msg.append(" 超出 0..100，已改为 100");
        w.push(msg);
        cfg.volume = 100;
    }
    let ghost w1 = strings_view(w@);
    assert(w1 =~= w0 + (if c.volume > 100 {
        seq![volume_message(c.volume)]
    } else {
        Seq::empty()
    }));
    if trim_str(cfg.font_family.as_str()).unicode_len() == 0 {
        push_literal(&mut w, "font_family 为空，已改为 Segoe UI");
        cfg.font_family = String::from_str("Segoe UI");
    }
    let ghost w2 = strings_view(w@);
    assert(w2 =~= w1 + (if trim(c.font_family).len() == 0 {
        seq!["font_family 为空，已改为 Segoe UI"@]
    } else {
        Seq::empty()
    }));
    // Library paths: drop blanks, keep duplicates out, keep missing paths.
    let mut library = trimmed_nonblank(&cfg.library);
    dedup_keep_order(&mut library);
    let changed = !same_strings(&library, &cfg.library);
    cfg.library = library;
    if changed {
        push_literal(&mut w, "library 中的空白或重复项已清理");
    }
    let ghost w3 = strings_view(w@);
    assert(w3 =~= w2 + (if clean_list(c.library) != c.library {
        seq!["library 中的空白或重复项已清理"@]
    } else {
        Seq::empty()
    }));
    let mut excludes = trimmed_nonblank(&cfg.exclude_dirs);
    dedup_keep_order(&mut excludes);
    let changed = !same_strings(&excludes, &cfg.exclude_dirs);
    cfg.exclude_dirs = excludes;
    if changed {
        push_literal(&mut w, "exclude_dirs 中的空白或重复项已清理");
    }
    let ghost w4 = strings_view(w@);
    assert(w4 =~= w3 + (if clean_list(c.exclude_dirs) != c.exclude_dirs {
        seq!["exclude_dirs 中的空白或重复项已清理"@]
    } else {
        Seq::empty()
    }));
    let mut exts = normalized_extensions(&cfg.extensions);
    dedup_keep_order(&mut exts);
    if exts.len() == 0 {
        push_literal(&mut w, "extensions 为空，已恢复为默认列表");
        exts = default_extensions();
    } else if !same_strings(&exts, &cfg.extensions) {
        push_literal(&mut w, "extensions 中的大小写、点号、空白或重复项已规范");
    }
    assert(strings_view(w@) =~= w4 + extension_warnings(c.extensions));
    cfg.extensions = exts;
    assert(cfg@ == rest_spec(c));
    w
}

/// Clamps and normalises in place, returning a description of every change.
/// The floating-point appearance values are the front end's part.
pub fn validate(cfg: &mut Config) -> (w: Vec<String>)
    ensures
        final(cfg)@ == rest_spec(shape_spec(old(cfg)@)),
        strings_view(w@) == shape_warnings(old(cfg)@) + rest_warnings(shape_spec(old(cfg)@)),
{
    let mut w = validate_shape(cfg);
    let rest = validate_rest(cfg);
    crate::lists::append_strings(&mut w, &rest);
    w
}


// ---------------------------------------------------------------------------
// Migration
// ---------------------------------------------------------------------------

/// The top-level boolean `key` of the TOML document `text`, or `None` when the
/// text is not a TOML document or the key is absent or not a boolean.
pub uninterp spec fn toml_top_level_bool(text: Seq<char>, key: Seq<char>) -> Option<bool>;

/// Parses `text` as a TOML document (`toml::Table::from_str`) and reads the
/// boolean stored under `key` at its top level (`Table::get`, then
/// `Value::as_bool`). The contract only names the result as a function of the
/// text and the key; the TOML grammar is the toml crate's.
#[verifier::external_body]
fn read_toml_bool(text: &str, key: &str) -> (r: Option<bool>)
    ensures
        r == toml_top_level_bool(text@, key@),
{
    match text.parse::<toml::Table>() {
        Ok(table) => table.get(key).and_then(toml::Value::as_bool),
        Err(_) => None,
    }
}

/// v1 to v2, given the `shuffle` flag that the v1 file held (if any). The only
/// shape change is `shuffle: bool` becoming `play_mode`.
pub open spec fn migrate_model(c: ConfigModel, shuffle: Option<bool>) -> ConfigModel {
    if c.config_version >= CONFIG_VERSION {
        c
    } else {
        ConfigModel {
            config_version: CONFIG_VERSION,
            play_mode: match shuffle {
                Some(true) => "shuffle"@,
                Some(false) => "sequential"@,
                None => c.play_mode,
            },
            ..c
        }
    }
}

/// v1 to v2 for the file text `text`.
pub open spec fn migrate_spec(c: ConfigModel, text: Seq<char>) -> ConfigModel {
    if c.config_version >= CONFIG_VERSION {
        c
    } else {
        migrate_model(c, toml_top_level_bool(text, "shuffle"@))
    }
}

/// v1 to v2 with the file's `shuffle` flag already read: `true` becomes the
/// `shuffle` play mode, `false` becomes `sequential`, and without the flag the
/// play mode stays as it was. A current config is returned unchanged.
pub fn migrate_with(cfg: Config, shuffle: Option<bool>) -> (r: Config)
    ensures
        r@ == migrate_model(cfg@, shuffle),
{
    let mut cfg = cfg;
    if cfg.config_version >= CONFIG_VERSION {
        return cfg;
    }
    match shuffle {
        Some(true) => {
            cfg.play_mode = String::from_str("shuffle");
        },
        Some(false) => {
            cfg.play_mode = String::from_str("sequential");
        },
        None => {},
    }
    cfg.config_version = CONFIG_VERSION;
    cfg
}

/// v1 to v2: a v1 file's `shuffle` flag becomes the play mode, and the config
/// is stamped with the current schema version. A current config is returned
/// unchanged, whatever its text holds.
pub fn migrate(cfg: Config, text: &str) -> (r: Config)
    ensures
        r@ == migrate_spec(cfg@, text@),
{
    if cfg.config_version >= CONFIG_VERSION {
        return cfg;
    }
    let shuffle = read_toml_bool(text, "shuffle");
    migrate_with(cfg, shuffle)
}

// ---------------------------------------------------------------------------
// Where the file lives
// ---------------------------------------------------------------------------

pub open spec fn is_sep(c: char) -> bool {
    c == '\\' || c == '/'
}

/// `Path::join` with Windows rules for a relative `name`: a separator is put
/// between the two unless `base` is empty, already ends with a separator, or
/// is a bare drive such as `C:`.
pub open spec fn join_spec(base: Seq<char>, name: Seq<char>) -> Seq<char> {
    if base.len() == 0 || is_sep(base.last()) || (base.len() == 2 && base[1] == ':') {
        base + name
    } else {
        base + seq!['\\'] + name
    }
}

pub fn join_path(base: &str, name: &str) -> (r: String)
    ensures
        r@ == join_spec(base@, name@),
{
    let n = base.unicode_len();
    let mut out = String::from_str(base);
    let bare = n == 0 || base.get_char(n - 1) == '\\' || base.get_char(n - 1) == '/' || (n == 2
        && base.get_char(1) == ':');
    if !bare {
        crate::text::push_char(&mut out, '\\');
    }
    out.append(name);
    out
}

/// Which directory holds the config. Order: `--config-dir` > `--portable` >
/// the environment variable (unless blank) > a `config.toml` sitting next to
/// the exe (an unpacked portable zip) > `%APPDATA%\DesktopMusicWidget`.
pub open spec fn choose_dir_spec(
    flag: Option<Seq<char>>,
    portable: bool,
    env: Option<Seq<char>>,
    exe_dir: Seq<char>,
    exe_has_config: bool,
    appdata: Seq<char>,
) -> Seq<char> {
    if flag is Some {
        flag->0
    } else if portable {
        exe_dir
    } else if env is Some && trim(env->0).len() > 0 {
        trim(env->0)
    } else if exe_has_config {
        exe_dir
    } else {
        join_spec(appdata, "DesktopMusicWidget"@)
    }
}

pub open spec fn opt_str_view(o: Option<&str>) -> Option<Seq<char>> {
    match o {
        Some(s) => Some(s@),
        None => None,
    }
}

/// The config directory, given what the caller found out: the command-line
/// flags, the environment variable, the executable's folder, whether that
/// folder holds a `config.toml`, and `%APPDATA%`.
pub fn choose_dir(
    flag: Option<&str>,
    portable: bool,
    env: Option<&str>,
    exe_dir: &str,
    exe_has_config: bool,
    appdata: &str,
) -> (r: String)
    ensures
        r@ == choose_dir_spec(
            opt_str_view(flag),
            portable,
            opt_str_view(env),
            exe_dir@,
            exe_has_config,
            appdata@,
        ),
{
    if let Some(d) = flag {
        return String::from_str(d);
    }
    if portable {
        return String::from_str(exe_dir);
    }
    if let Some(e) = env {
        let e = trim_str(e);
        if e.unicode_len() > 0 {
            return e;
        }
    }
    if exe_has_config {
        return String::from_str(exe_dir);
    }
    join_path(appdata, "DesktopMusicWidget")
}

/// `config.toml` inside the config directory `dir`.
pub fn config_path(dir: &str) -> (r: String)
    ensures
        r@ == join_spec(dir@, "config.toml"@),
{
    join_path(dir, "config.toml")
}

/// Where the pre-rename build stored its config, under `%APPDATA%`. It is
/// only ever read, never modified.
pub fn legacy_config_path(appdata: &str) -> (r: String)
    ensures
        r@ == join_spec(join_spec(appdata@, "HorizMusicWidget"@), "config.toml"@),
{
    let dir = join_path(appdata, "HorizMusicWidget");
    join_path(dir.as_str(), "config.toml")
}

// ---------------------------------------------------------------------------
// Loading decisions
// ---------------------------------------------------------------------------

/// How the config that is now in use came about.
#[derive(Debug, Clone, Copy, PartialEq, Eq, Structural)]
pub enum LoadNote {
    /// Read an existing config unchanged.
    Loaded,
    /// No config anywhere: defaults were written (first run).
    Fresh,
    /// Adopted the config from the pre-rename build.
    MigratedLegacy,
    /// The file could not be parsed; it was backed up and defaults are in use.
    RecoveredFromBadFile,
}

/// The text to load: the config file when it could be read, else the
/// pre-rename build's file, else nothing (first run).
pub fn load_source(primary: Option<String>, legacy: Option<String>) -> (r: (String, LoadNote))
    ensures
        match primary {
            Some(t) => r.0@ == t@ && r.1 == LoadNote::Loaded,
            None => match legacy {
                Some(t) => r.0@ == t@ && r.1 == LoadNote::MigratedLegacy,
                None => r.0@.len() == 0 && r.1 == LoadNote::Fresh,
            },
        },
{
    match primary {
        Some(t) => (t, LoadNote::Loaded),
        None => match legacy {
            Some(t) => (t, LoadNote::MigratedLegacy),
            None => (String::new(), LoadNote::Fresh),
        },
    }
}

/// A blank file means defaults rather than a parse error.
pub fn is_blank(text: &str) -> (r: bool)
    ensures
        r == (trim(text@).len() == 0),
{
    trim_str(text).unicode_len() == 0
}

/// The file is rewritten when it was created, migrated, recovered or
/// corrected, so the file on disk always describes what is actually running.
pub fn needs_rewrite(note: LoadNote, had_corrections: bool) -> (r: bool)
    ensures
        r == (note != LoadNote::Loaded || had_corrections),
{
    note != LoadNote::Loaded || had_corrections
}

} // verus!
