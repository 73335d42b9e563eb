//! The settings window's decisions: which entry a drop-down shows, what a
//! choice writes into the draft, reading the number fields, restoring
//! defaults, and what the preview counter says.
//!
//! The window and its controls are the front end's.

use vstd::prelude::*;
use crate::config::{Config, is_default, strs_view};
use crate::library::{same_options, same_scope, ScanOptions};
use crate::lists::strings_view;
use crate::screen::{primary_index, primary_index_spec, Rect};
use crate::text::{dec_int, fmt_i64, parse_i32, parse_i32_str, trim, trim_str};

pub use crate::menu::index_of;

verus! {

/// The selection a drop-down of `len` entries shows for `selected`: clamped
/// to the last entry, 0 for an empty list.
pub fn combo_selection(len: usize, selected: usize) -> (r: usize)
    ensures
        len == 0 ==> r == 0,
        len > 0 ==> r == (if selected < len {
            selected
        } else {
            (len - 1) as usize
        }),
{
    if len == 0 {
        0
    } else if selected < len {
        selected
    } else {
        len - 1
    }
}

/// A drop-down's reply: a negative reply (nothing selected) reads as the
/// first entry.
pub fn combo_result(reply: isize) -> (r: usize)
    ensures
        reply < 0 ==> r == 0,
        reply >= 0 ==> r == reply,
{
    if reply < 0 {
        0
    } else {
        reply as usize
    }
}

/// A list box's reply: negative means no selection.
pub fn list_result(reply: isize) -> (r: Option<usize>)
    ensures
        reply < 0 ==> r is None,
        reply >= 0 ==> r == Some(reply as usize),
{
    if reply < 0 {
        None
    } else {
        Some(reply as usize)
    }
}

/// The config value a drop-down choice stands for; a choice past the end
/// reads as the last option.
pub fn option_at(options: &[&'static str], choice: usize) -> (r: String)
    requires
        options@.len() > 0,
    ensures
        r@ == options@[if choice < options@.len() {
            choice as int
        } else {
            options@.len() - 1
        }]@,
{
    let i = if choice < options.len() {
        choice
    } else {
        options.len() - 1
    };
    String::from_str(options[i])
}

/// Which monitor the drop-down selects for the configured `monitor`: the
/// primary one for -1, else the index clamped to the list.
pub fn monitor_selection(all: &Vec<Rect>, monitor: i32) -> (r: usize)
    ensures
        monitor < 0 ==> r == primary_index_spec(all@),
        monitor >= 0 && all@.len() == 0 ==> r == 0,
        monitor >= 0 && all@.len() > 0 ==> r == (if monitor < all@.len() {
            monitor as int
        } else {
            all@.len() - 1
        }),
{
    if monitor < 0 {
        primary_index(all)
    } else if all.len() == 0 {
        0
    } else if (monitor as usize) < all.len() {
        monitor as usize
    } else {
        all.len() - 1
    }
}

/// A number field: its trimmed text as an `i32`.
pub fn read_int(text: &str) -> (r: Option<i32>)
    ensures
        r == parse_i32(trim(text@)),
{
    let t = trim_str(text);
    parse_i32_str(t.as_str())
}

/// The card size and corner radius typed into the number fields, or the
/// bounds of the first field that does not hold a number, for the message
/// that names them.
pub fn read_numbers(width: &str, height: &str, corners: &str) -> (r: Result<(i32, i32, i32), (i32, i32)>)
    ensures
        parse_i32(trim(width@)) is None ==> r == Err::<(i32, i32, i32), (i32, i32)>((200i32, 900i32)),
        parse_i32(trim(width@)) is Some && parse_i32(trim(height@)) is None ==> r == Err::<
            (i32, i32, i32),
            (i32, i32),
        >((64i32, 400i32)),
        parse_i32(trim(width@)) is Some && parse_i32(trim(height@)) is Some && parse_i32(
            trim(corners@),
        ) is None ==> r == Err::<(i32, i32, i32), (i32, i32)>((0i32, 200i32)),
        parse_i32(trim(width@)) is Some && parse_i32(trim(height@)) is Some && parse_i32(
            trim(corners@),
        ) is Some ==> r == Ok::<(i32, i32, i32), (i32, i32)>(
            (
                parse_i32(trim(width@))->0,
                parse_i32(trim(height@))->0,
                parse_i32(trim(corners@))->0,
            ),
        ),
{
    let (wlo, whi) = crate::config::WIDTH_RANGE;
    let (hlo, hhi) = crate::config::HEIGHT_RANGE;
    let w = match read_int(width) {
        Some(v) => v,
        None => {
            return Err((wlo, whi));
        },
    };
    let h = match read_int(height) {
        Some(v) => v,
        None => {
            return Err((hlo, hhi));
        },
    };
    let c = match read_int(corners) {
        Some(v) => v,
        None => {
            return Err((0, hhi / 2));
        },
    };
    Ok((w, h, c))
}

/// `{low}..{high}`, the range named in the "not a number" message.
pub fn range_text(low: i32, high: i32) -> (r: String)
    ensures
        r@ == dec_int(low as int) + ".."@ + dec_int(high as int),
{
    let mut s = fmt_i64(low as i64);
    s.append("..");
    s.append(fmt_i64(high as i64).as_str());
    s
}

/// "Restore defaults" keeps the folders and exclusions the user picked:
/// silently dropping their library behind a button would be a nasty
/// surprise.
pub fn defaults_keeping_folders(draft: &Config) -> (r: Config)
    ensures
        is_default(
            crate::config::ConfigModel {
                library: Seq::empty(),
                exclude_dirs: Seq::empty(),
                ..r@
            },
        ),
        strings_view(r.library@) == strings_view(draft.library@),
        strings_view(r.exclude_dirs@) == strings_view(draft.exclude_dirs@),
{
    let mut c = Config::default();
    c.library = draft.library_paths();
    let mut ex: Vec<String> = Vec::new();
    crate::lists::append_strings(&mut ex, &draft.exclude_dirs);
    assert(strings_view(ex@) =~= strings_view(draft.exclude_dirs@));
    c.exclude_dirs = ex;
    c
}

/// What the preview counter shows.
#[derive(Debug, Clone, Copy, PartialEq, Eq, Structural)]
pub enum PreviewLabel {
    Scanning,
    NoLibrary,
    Found(usize),
}

/// "Scanning" while the preview runs; then "no folder" for an empty
/// library, or the count.
pub fn preview_label(running: bool, library_empty: bool, count: usize) -> (r: PreviewLabel)
    ensures
        running ==> r == PreviewLabel::Scanning,
        !running && library_empty ==> r == PreviewLabel::NoLibrary,
        !running && !library_empty ==> r == PreviewLabel::Found(count),
{
    if running {
        PreviewLabel::Scanning
    } else if library_empty {
        PreviewLabel::NoLibrary
    } else {
        PreviewLabel::Found(count)
    }
}

/// A preview for the same scope that is still running is left alone;
/// anything else starts a new one.
pub fn should_restart_preview(options: &ScanOptions, running_for: &ScanOptions, running: bool) -> (r: bool)
    ensures
        r == !(same_scope(*options, *running_for) && running),
{
    !(same_options(options, running_for) && running)
}

/// Every warning, separated by `; `.
pub open spec fn joined(w: Seq<Seq<char>>) -> Seq<char>
    decreases w.len(),
{
    if w.len() == 0 {
        Seq::empty()
    } else if w.len() == 1 {
        w[0]
    } else {
        joined(w.drop_last()) + "; "@ + w.last()
    }
}

/// The note shown after Apply when validation corrected something.
pub fn join_warnings(w: &Vec<String>) -> (r: String)
    ensures
        r@ == joined(strings_view(w@)),
{
    let ghost wv = strings_view(w@);
    let mut out = String::new();
    let mut i: usize = 0;
    while i < w.len()
        invariant
            i <= w@.len(),
            wv == strings_view(w@),
            out@ == joined(wv.subrange(0, i as int)),
        decreases w@.len() - i,
    {
        assert(wv.subrange(0, i + 1).drop_last() =~= wv.subrange(0, i as int));
        if i > 0 {
            out.append("; ");
        }
        out.append(w[i].as_str());
        assert(out@ =~= joined(wv.subrange(0, i + 1)));
        i = i + 1;
    }
    assert(wv.subrange(0, w@.len() as int) =~= wv);
    out
}

} // verus!
