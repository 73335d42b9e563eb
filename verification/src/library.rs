//! Library scanning: the scan status shared with the UI, the options the walk
//! runs with, and every decision the walk makes about an entry.
//!
//! The walk itself reads directories, so it runs in the front end; it asks
//! this module whether to descend into a folder, collect a file, or skip it,
//! and which top-level entry becomes the starter album.

use vstd::prelude::*;
use std::sync::atomic::{AtomicBool, AtomicU32, AtomicUsize, Ordering};
use std::sync::Arc;
use crate::config::{normalize_ext, Config};
use crate::lists::{drop_empty, same_strings, strings_view};
use crate::text::{
    ascii_lowercase, contains_char, has_prefix, lower_ascii_seq, starts_with, str_eq, strip_dots_str,
    trim, trim_str,
};

verus! {

/// Files collected between progress reports.
pub const PROGRESS_EVERY: usize = 256;

/// Cheap insurance against a junction/symlink cycle turning the walk infinite.
pub const MAX_DEPTH: usize = 64;

/// At boot the drive may not be spun up yet; retry before calling it empty.
pub const RETRIES: usize = 12;

pub const STATE_IDLE: u32 = 0;

pub const STATE_SCANNING: u32 = 1;

pub const STATE_READY: u32 = 2;

pub const STATE_EMPTY: u32 = 3;

pub const STATE_NO_DIRS: u32 = 4;

/// What the library currently looks like, for the card's status line.
#[derive(Debug, Clone, Copy, PartialEq, Eq, Structural)]
pub enum ScanStatus {
    Idle,
    /// Still walking; `found` is a running count.
    Scanning { found: usize },
    Ready { total: usize },
    /// Folders configured, but no playable files in them.
    Empty,
    /// No folders configured at all (first run).
    NoDirs,
}

/// The status a state code and a count describe; unknown codes read as idle.
pub open spec fn status_of(state: u32, total: usize) -> ScanStatus {
    if state == STATE_SCANNING {
        ScanStatus::Scanning { found: total }
    } else if state == STATE_READY {
        ScanStatus::Ready { total }
    } else if state == STATE_EMPTY {
        ScanStatus::Empty
    } else if state == STATE_NO_DIRS {
        ScanStatus::NoDirs
    } else {
        ScanStatus::Idle
    }
}

pub fn status_from(state: u32, total: usize) -> (r: ScanStatus)
    ensures
        r == status_of(state, total),
{
    if state == STATE_SCANNING {
        ScanStatus::Scanning { found: total }
    } else if state == STATE_READY {
        ScanStatus::Ready { total }
    } else if state == STATE_EMPTY {
        ScanStatus::Empty
    } else if state == STATE_NO_DIRS {
        ScanStatus::NoDirs
    } else {
        ScanStatus::Idle
    }
}

/// Shared scan status, readable from the UI thread on every timer tick. The
/// values come from atomics written by the walking thread, so what a read
/// returns depends on that thread.
#[derive(Debug)]
pub struct ScanState {
    state: AtomicU32,
    total: AtomicUsize,
}

impl ScanState {
    pub fn new() -> Arc<Self> {
        Arc::new(ScanState { state: AtomicU32::new(STATE_IDLE), total: AtomicUsize::new(0) })
    }

    /// The current status: whatever state code and count were last stored,
    /// interpreted by [`status_from`].
    pub fn status(&self) -> (r: ScanStatus)
        ensures
            exists|s: u32, t: usize| r == status_of(s, t),
    {
        let total = self.total.load(Ordering::Relaxed);
        let state = self.state.load(Ordering::Relaxed);
        status_from(state, total)
    }

    /// Publishes a final or initial state together with its count.
    pub fn set(&self, state: u32, total: usize) {
        self.total.store(total, Ordering::Relaxed);
        self.state.store(state, Ordering::Relaxed);
    }

    /// Publishes a running count while a walk is in progress.
    pub fn report(&self, n: usize) {
        self.total.store(n, Ordering::Relaxed);
    }
}

/// What a finished walk reports: ready with tracks, or empty.
pub fn finished_state(total: usize) -> (r: u32)
    ensures
        r == (if total == 0 {
            STATE_EMPTY
        } else {
            STATE_READY
        }),
{
    if total == 0 {
        STATE_EMPTY
    } else {
        STATE_READY
    }
}

/// Everything the scanner needs, taken from the config.
#[derive(Debug, Clone, PartialEq, Eq)]
pub struct ScanOptions {
    pub dirs: Vec<String>,
    pub recursive: bool,
    /// Folder names or absolute paths, as typed by the user.
    pub excludes: Vec<String>,
    /// Extensions without a leading dot.
    pub extensions: Vec<String>,
}

fn copy_strings(v: &Vec<String>) -> (r: Vec<String>)
    ensures
        strings_view(r@) == strings_view(v@),
{
    let mut out: Vec<String> = Vec::new();
    crate::lists::append_strings(&mut out, v);
    assert(strings_view(out@) =~= strings_view(v@));
    out
}

impl ScanOptions {
    pub fn from_config(cfg: &Config) -> (r: Self)
        ensures
            strings_view(r.dirs@) == strings_view(cfg.library@),
            r.recursive == cfg.scan_recursive,
            strings_view(r.excludes@) == strings_view(cfg.exclude_dirs@),
            strings_view(r.extensions@) == strings_view(cfg.extensions@),
    {
        ScanOptions {
            dirs: cfg.library_paths(),
            recursive: cfg.scan_recursive,
            excludes: copy_strings(&cfg.exclude_dirs),
            extensions: copy_strings(&cfg.extensions),
        }
    }

    pub fn has_dirs(&self) -> (r: bool)
        ensures
            r == (self.dirs@.len() > 0),
    {
        self.dirs.len() > 0
    }
}

/// What the two option sets scan is the same, entry for entry.
pub open spec fn same_scope(a: ScanOptions, b: ScanOptions) -> bool {
    &&& strings_view(a.dirs@) == strings_view(b.dirs@)
    &&& a.recursive == b.recursive
    &&& strings_view(a.excludes@) == strings_view(b.excludes@)
    &&& strings_view(a.extensions@) == strings_view(b.extensions@)
}

/// Whether two option sets describe the same scan, so a settings change that
/// leaves them equal needs no rescan.
pub fn same_options(a: &ScanOptions, b: &ScanOptions) -> (r: bool)
    ensures
        r == same_scope(*a, *b),
{
    same_strings(&a.dirs, &b.dirs) && a.recursive == b.recursive && same_strings(&a.excludes, &b.excludes)
        && same_strings(&a.extensions, &b.extensions)
}


/// Pre-lowercased view of the options so the per-file checks compare like
/// with like.
#[derive(Debug, Clone)]
pub struct Prepared {
    pub recursive: bool,
    /// Trimmed and Unicode lower-cased, blanks dropped.
    pub excludes: Vec<String>,
    /// Normalised like the config's extensions, blanks dropped.
    pub extensions: Vec<String>,
}

/// An exclusion as compared: trimmed, then Unicode lower-cased.
pub open spec fn prepare_exclude(e: Seq<char>) -> Seq<char> {
    crate::text::unicode_lower(trim(e))
}

pub open spec fn prepare_excludes(v: Seq<Seq<char>>) -> Seq<Seq<char>> {
    drop_empty(v.map_values(|e: Seq<char>| prepare_exclude(e)))
}

/// The exclusions as compared, given each one already trimmed and
/// lower-cased: blanks dropped.
pub fn nonblank(v: &Vec<String>) -> (r: Vec<String>)
    ensures
        strings_view(r@) == drop_empty(strings_view(v@)),
{
    let ghost orig = strings_view(v@);
    let mut out: Vec<String> = Vec::new();
    let mut i: usize = 0;
    while i < v.len()
        invariant
            i <= v@.len(),
            orig == strings_view(v@),
            strings_view(out@) == drop_empty(orig.subrange(0, i as int)),
        decreases v@.len() - i,
    {
        let e = v[i].clone();
        assert(e@ == orig[i as int]);
        assert(orig.subrange(0, i + 1).drop_last() =~= orig.subrange(0, i as int));
        if e.unicode_len() > 0 {
            out.push(e);
            assert(strings_view(out@) =~= drop_empty(orig.subrange(0, i as int)).push(orig[i as int]));
        }
        i = i + 1;
    }
    assert(orig.subrange(0, v@.len() as int) =~= orig);
    out
}

impl Prepared {
    pub fn new(opts: &ScanOptions) -> (r: Self)
        ensures
            r.recursive == opts.recursive,
            strings_view(r.excludes@) == prepare_excludes(strings_view(opts.excludes@)),
            strings_view(r.extensions@) == drop_empty(
                crate::config::normalize_exts(strings_view(opts.extensions@)),
            ),
    {
        let ghost orig = strings_view(opts.excludes@).map_values(|e: Seq<char>| prepare_exclude(e));
        let mut lowered: Vec<String> = Vec::new();
        let mut i: usize = 0;
        while i < opts.excludes.len()
            invariant
                i <= opts.excludes@.len(),
                orig == strings_view(opts.excludes@).map_values(|e: Seq<char>| prepare_exclude(e)),
                orig.len() == opts.excludes@.len(),
                strings_view(lowered@) == orig.subrange(0, i as int),
            decreases opts.excludes@.len() - i,
        {
            let t = trim_str(opts.excludes[i].as_str());
            let e = crate::text::to_lowercase(t.as_str());
            assert(e@ == orig[i as int]);
            let ghost before = lowered@;
            lowered.push(e);
            assert(strings_view(lowered@) =~= strings_view(before).push(orig[i as int]));
            assert(strings_view(lowered@) =~= orig.subrange(0, i + 1));
            i = i + 1;
        }
        assert(orig.subrange(0, opts.excludes@.len() as int) =~= orig);
        Prepared {
            recursive: opts.recursive,
            excludes: nonblank(&lowered),
            extensions: crate::config::normalized_extensions(&opts.extensions),
        }
    }
}

/// Index of the last `.` in a file name.
pub open spec fn last_dot(s: Seq<char>) -> Option<int>
    decreases s.len(),
{
    if s.len() == 0 {
        None
    } else if s.last() == '.' {
        Some(s.len() - 1)
    } else {
        last_dot(s.drop_last())
    }
}

/// `Path::extension` of a file name: the text after the last dot, unless
/// there is no dot or the only dot starts the name (a hidden file).
pub open spec fn extension_of(name: Seq<char>) -> Option<Seq<char>> {
    match last_dot(name) {
        Some(i) => if i > 0 {
            Some(name.subrange(i + 1, name.len() as int))
        } else {
            None
        },
        None => None,
    }
}

proof fn lemma_last_dot_bounds(s: Seq<char>)
    ensures
        last_dot(s) matches Some(i) ==> 0 <= i < s.len() && s[i] == '.',
    decreases s.len(),
{
    if s.len() > 0 && s.last() != '.' {
        lemma_last_dot_bounds(s.drop_last());
    }
}

/// The extension of the file name `name`, as `Path::extension` finds it.
pub fn extension(name: &str) -> (r: Option<String>)
    ensures
        opt_view(r) == extension_of(name@),
{
    let n = name.unicode_len();
    let mut j: usize = n;
    assert(name@.subrange(0, n as int) =~= name@);
    while j > 0 && name.get_char(j - 1) != '.'
        invariant
            n == name@.len(),
            j <= n,
            last_dot(name@) == last_dot(name@.subrange(0, j as int)),
        decreases j,
    {
        assert(name@.subrange(0, j as int).drop_last() =~= name@.subrange(0, j - 1));
        j = j - 1;
    }
    if j <= 1 {
        proof {
            if j == 1 {
                assert(last_dot(name@.subrange(0, 1)) == Some(0int));
            } else {
                assert(last_dot(name@.subrange(0, 0)) is None);
            }
        }
        return None;
    }
    assert(last_dot(name@.subrange(0, j as int)) == Some(j - 1));
    Some(crate::text::substring(name, j, n))
}

pub open spec fn opt_view(o: Option<String>) -> Option<Seq<char>> {
    match o {
        Some(s) => Some(s@),
        None => None,
    }
}

/// A file counts as audio when its extension, ASCII lower-cased, is one of
/// the prepared extensions.
pub open spec fn is_audio_spec(name: Seq<char>, p: Prepared) -> bool {
    match extension_of(name) {
        Some(ext) => strings_view(p.extensions@).contains(lower_ascii_seq(ext)),
        None => false,
    }
}

/// Whether the file called `name` is a track, going by its extension.
pub fn is_audio(name: &str, p: &Prepared) -> (r: bool)
    ensures
        r == is_audio_spec(name@, *p),
{
    match extension(name) {
        Some(ext) => {
            let lowered = ascii_lowercase(ext.as_str());
            crate::lists::contains_string(&p.extensions, lowered.as_str())
        },
        None => false,
    }
}

/// An exclusion written as a path (rather than a bare folder name) holds a
/// separator or a drive colon.
pub open spec fn is_path_pattern(e: Seq<char>) -> bool {
    e.contains('\\') || e.contains('/') || e.contains(':')
}

pub open spec fn is_separator(c: char) -> bool {
    c == '\\' || c == '/'
}

/// The path exclusion `e` names the path `lfull` itself or a folder above it:
/// `lfull` starts with `e`, and the match ends at the end of the path, at a
/// separator that follows it, or with a separator of its own.
pub open spec fn covers_path(lfull: Seq<char>, e: Seq<char>) -> bool {
    &&& has_prefix(lfull, e)
    &&& {
        ||| lfull.len() == e.len()
        ||| (e.len() > 0 && is_separator(e.last()))
        ||| is_separator(lfull[e.len() as int])
    }
}

/// Whether the path exclusion `e` covers `lfull`.
pub fn covers(lfull: &str, e: &str) -> (r: bool)
    ensures
        r == covers_path(lfull@, e@),
{
    if !starts_with(lfull, e) {
        return false;
    }
    let n = lfull.unicode_len();
    let m = e.unicode_len();
    if n == m {
        return true;
    }
    if m > 0 {
        let last = e.get_char(m - 1);
        if last == '\\' || last == '/' {
            return true;
        }
    }
    let next = lfull.get_char(m);
    next == '\\' || next == '/'
}

/// An entry whose lower-cased name is `lname` and lower-cased full path is
/// `lfull` is excluded when the name is a bare exclusion, or when an
/// exclusion written as a path covers it (that folder and everything under
/// it).
pub open spec fn excluded_lowered(lname: Seq<char>, lfull: Seq<char>, p: Prepared) -> bool {
    let ex = strings_view(p.excludes@);
    ||| ex.contains(lname)
    ||| exists|i: int| 0 <= i < ex.len() && is_path_pattern(#[trigger] ex[i]) && covers_path(lfull, ex[i])
}

/// An entry is excluded by its name and full path, both lower-cased.
pub open spec fn is_excluded_spec(name: Seq<char>, full: Seq<char>, p: Prepared) -> bool {
    excluded_lowered(crate::text::unicode_lower(name), crate::text::unicode_lower(full), p)
}

/// Whether the entry with the lower-cased file name `lname` and lower-cased
/// full path `lfull` is excluded.
pub fn is_excluded_lowered(lname: &str, lfull: &str, p: &Prepared) -> (r: bool)
    ensures
        r == excluded_lowered(lname@, lfull@, *p),
{
    if crate::lists::contains_string(&p.excludes, lname) {
        return true;
    }
    let ghost ex = strings_view(p.excludes@);
    let mut i: usize = 0;
    while i < p.excludes.len()
        invariant
            i <= p.excludes@.len(),
            ex == strings_view(p.excludes@),
            forall|k: int|
                0 <= k < i ==> !(is_path_pattern(#[trigger] ex[k]) && covers_path(lfull@, ex[k])),
        decreases p.excludes@.len() - i,
    {
        let e = p.excludes[i].as_str();
        assert(e@ == ex[i as int]);
        if (contains_char(e, '\\') || contains_char(e, '/') || contains_char(e, ':')) && covers(lfull, e) {
            return true;
        }
        i = i + 1;
    }
    false
}

/// Whether the entry with file name `name` (empty when it has none) and full
/// path `full` is excluded.
pub fn is_excluded(name: &str, full: &str, p: &Prepared) -> (r: bool)
    ensures
        r == is_excluded_spec(name@, full@, *p),
{
    let lname = crate::text::to_lowercase(name);
    let lfull = crate::text::to_lowercase(full);
    is_excluded_lowered(lname.as_str(), lfull.as_str(), p)
}

/// What the walk does with one directory entry.
#[derive(Debug, Clone, Copy, PartialEq, Eq, Structural)]
pub enum EntryAction {
    /// Walk into this folder.
    Descend,
    /// Add this file to the library.
    Collect,
    Skip,
}

pub open spec fn entry_action_spec(is_dir: bool, is_file: bool, name: Seq<char>, full: Seq<char>, p: Prepared) -> EntryAction {
    if is_dir {
        if !p.recursive || is_excluded_spec(name, full, p) {
            EntryAction::Skip
        } else {
            EntryAction::Descend
        }
    } else if is_file && !is_excluded_spec(name, full, p) && is_audio_spec(name, p) {
        EntryAction::Collect
    } else {
        EntryAction::Skip
    }
}

/// Folders are entered only in a recursive scan and when not excluded. Files
/// are checked against the exclusions too, so excluding a folder path also
/// drops the loose tracks directly inside it.
pub fn entry_action(is_dir: bool, is_file: bool, name: &str, full: &str, p: &Prepared) -> (r: EntryAction)
    ensures
        r == entry_action_spec(is_dir, is_file, name@, full@, *p),
{
    if is_dir {
        if !p.recursive || is_excluded(name, full, p) {
            EntryAction::Skip
        } else {
            EntryAction::Descend
        }
    } else if is_file && !is_excluded(name, full, p) && is_audio(name, p) {
        EntryAction::Collect
    } else {
        EntryAction::Skip
    }
}

/// A folder at this depth is still read; deeper ones are cut off.
pub fn depth_allowed(depth: usize) -> (r: bool)
    ensures
        r == (depth <= MAX_DEPTH),
{
    depth <= MAX_DEPTH
}

/// Progress is published every [`PROGRESS_EVERY`] collected files.
pub fn should_publish(found: usize) -> (r: bool)
    ensures
        r == (found % PROGRESS_EVERY == 0),
{
    found % PROGRESS_EVERY == 0
}


/// `IndexedRandom::choose` (rand 0.9) on a list of indices: `None` for an
/// empty list, otherwise one of its entries, drawn uniformly.
#[verifier::external_body]
fn choose_one(rng: &mut rand::rngs::ThreadRng, items: &[usize]) -> (r: Option<usize>)
    ensures
        items@.len() == 0 <==> r is None,
        r matches Some(x) ==> items@.contains(x),
{
    rand::seq::IndexedRandom::choose(items, rng).copied()
}

/// Picks the starter among the top-level entries (already filtered by the
/// exclusions), given which of them are folders. Folders are preferred, so a
/// starter is a whole album rather than one orphan file; `None` when there is
/// nothing to pick from.
pub fn choose_starter(rng: &mut rand::rngs::ThreadRng, is_dir: &[bool]) -> (r: Option<usize>)
    ensures
        is_dir@.len() == 0 <==> r is None,
        r matches Some(i) ==> i < is_dir@.len(),
        r matches Some(i) ==> ((exists|k: int| 0 <= k < is_dir@.len() && is_dir@[k]) ==> is_dir@[i as int]),
{
    let mut dirs: Vec<usize> = Vec::new();
    let mut all: Vec<usize> = Vec::new();
    let mut i: usize = 0;
    while i < is_dir.len()
        invariant
            i <= is_dir@.len(),
            all@.len() == i,
            forall|k: int| 0 <= k < i ==> all@[k] == k,
            forall|k: int| 0 <= k < dirs@.len() ==> dirs@[k] < is_dir@.len() && is_dir@[dirs@[k] as int],
            (dirs@.len() == 0) == (forall|k: int| 0 <= k < i ==> !is_dir@[k]),
        decreases is_dir@.len() - i,
    {
        all.push(i);
        if is_dir[i] {
            dirs.push(i);
        }
        i = i + 1;
    }
    if dirs.len() > 0 {
        let r = choose_one(rng, dirs.as_slice());
        proof {
            if let Some(x) = r {
                let k = choose|k: int| 0 <= k < dirs@.len() && dirs@[k] == x;
                assert(dirs@[k] == x);
            }
        }
        r
    } else {
        let r = choose_one(rng, all.as_slice());
        proof {
            if let Some(x) = r {
                let k = choose|k: int| 0 <= k < all@.len() && all@[k] == x;
                assert(all@[k] == x);
            }
        }
        r
    }
}

/// What the caller wants the found tracks to do.
#[derive(Debug, Clone, Copy, PartialEq, Eq, Structural)]
pub enum ScanTarget {
    /// Startup: play a starter album immediately, then queue the rest.
    Play,
    /// Rescan: replace the track pool but keep the current track playing.
    Pool,
}

/// A lightweight "how many tracks would this find?" scan that the settings
/// window polls while the user edits the scope. Written by the scanning
/// thread, read by the UI thread.
#[derive(Debug)]
pub struct PreviewState {
    running: AtomicBool,
    done: AtomicBool,
    count: AtomicUsize,
}

/// Whether a preview of `opts` is finished before it starts: there is no
/// folder to scan.
pub fn preview_finished_at_once(opts: &ScanOptions) -> (r: bool)
    ensures
        r == (opts.dirs@.len() == 0),
{
    !opts.has_dirs()
}

impl PreviewState {
    /// A preview that has started and found nothing yet.
    pub fn started() -> Arc<Self> {
        Arc::new(
            PreviewState {
                running: AtomicBool::new(true),
                done: AtomicBool::new(false),
                count: AtomicUsize::new(0),
            },
        )
    }

    /// A preview with nothing to scan: finished at once with no tracks.
    pub fn finished_empty() -> Arc<Self> {
        Arc::new(
            PreviewState {
                running: AtomicBool::new(false),
                done: AtomicBool::new(true),
                count: AtomicUsize::new(0),
            },
        )
    }

    /// The preview for a scope: finished at once when there is no folder to
    /// scan, else started.
    pub fn for_options(opts: &ScanOptions) -> Arc<Self> {
        if preview_finished_at_once(opts) {
            PreviewState::finished_empty()
        } else {
            PreviewState::started()
        }
    }

    /// Publishes a running count.
    pub fn publish(&self, n: usize) {
        self.count.store(n, Ordering::Relaxed);
    }

    /// Publishes the final count and marks the preview finished.
    pub fn finish(&self, n: usize) {
        self.count.store(n, Ordering::Relaxed);
        self.running.store(false, Ordering::Relaxed);
        self.done.store(true, Ordering::Relaxed);
    }

    pub fn running(&self) -> bool {
        self.running.load(Ordering::Relaxed)
    }

    pub fn done(&self) -> bool {
        self.done.load(Ordering::Relaxed)
    }

    pub fn count(&self) -> usize {
        self.count.load(Ordering::Relaxed)
    }
}

// ---------------------------------------------------------------------------
// The walk
// ---------------------------------------------------------------------------

/// One entry of a folder listing, as the front end read it.
#[derive(Debug, Clone)]
pub struct DirEntry {
    /// The file name; empty when the entry has none.
    pub name: String,
    /// The full path.
    pub full: String,
    pub is_dir: bool,
    pub is_file: bool,
}

pub struct EntryModel {
    pub name: Seq<char>,
    pub full: Seq<char>,
    pub is_dir: bool,
    pub is_file: bool,
}

impl View for DirEntry {
    type V = EntryModel;

    open spec fn view(&self) -> EntryModel {
        EntryModel { name: self.name@, full: self.full@, is_dir: self.is_dir, is_file: self.is_file }
    }
}

fn copy_entry(e: &DirEntry) -> (r: DirEntry)
    ensures
        r@ == e@,
{
    let name = e.name.clone();
    let full = e.full.clone();
    DirEntry { name, full, is_dir: e.is_dir, is_file: e.is_file }
}

/// A folder being listed: its entries, how many of them were handled, and
/// its depth below the library root.
struct Frame {
    entries: Vec<DirEntry>,
    next: usize,
    depth: usize,
}

pub struct FrameModel {
    pub entries: Seq<EntryModel>,
    pub next: int,
    pub depth: int,
}

impl View for Frame {
    type V = FrameModel;

    closed spec fn view(&self) -> FrameModel {
        FrameModel {
            entries: self.entries@.map_values(|e: DirEntry| e@),
            next: self.next as int,
            depth: self.depth as int,
        }
    }
}

/// A walk over the library roots in progress. The walk reads nothing itself:
/// [`Walk::step`] says which folder to list next, and the front end hands the
/// listing back with [`Walk::feed`]. Folders are entered depth first, in
/// listing order, exactly where they occur among the files, so the tracks
/// come out in the order a recursive walk finds them.
pub struct Walk {
    prepared: Prepared,
    roots: Vec<String>,
    next_root: usize,
    frames: Vec<Frame>,
    found: Vec<String>,
    waiting: Option<usize>,
}

pub struct WalkModel {
    pub roots: Seq<Seq<char>>,
    pub next_root: int,
    pub frames: Seq<FrameModel>,
    pub found: Seq<Seq<char>>,
    /// The depth of the folder the front end was asked to list, until its
    /// listing is fed back.
    pub waiting: Option<int>,
    /// The options entries are judged by.
    pub prepared: Prepared,
}

impl View for Walk {
    type V = WalkModel;

    closed spec fn view(&self) -> WalkModel {
        WalkModel {
            roots: strings_view(self.roots@),
            next_root: self.next_root as int,
            frames: self.frames@.map_values(|f: Frame| f@),
            found: strings_view(self.found@),
            waiting: match self.waiting {
                Some(d) => Some(d as int),
                None => None,
            },
            prepared: self.prepared,
        }
    }
}

/// What the front end does next for a walk.
#[derive(Debug, Clone, PartialEq, Eq)]
pub enum WalkStep {
    /// List this folder and feed the listing back (`None` when it cannot be
    /// read).
    Read { path: String, depth: usize },
    /// Publish this running count of tracks.
    Progress { found: usize },
    /// Nothing to do this time; step again.
    Continue,
    /// The walk is over.
    Done,
}

pub enum StepModel {
    Read { path: Seq<char>, depth: int },
    Progress { found: int },
    Continue,
    Done,
}

pub open spec fn step_view(s: WalkStep) -> StepModel {
    match s {
        WalkStep::Read { path, depth } => StepModel::Read { path: path@, depth: depth as int },
        WalkStep::Progress { found } => StepModel::Progress { found: found as int },
        WalkStep::Continue => StepModel::Continue,
        WalkStep::Done => StepModel::Done,
    }
}

/// The walk's own invariant: roots are handed out in order, every open
/// folder is within the depth limit and no further along than its listing.
pub open spec fn walk_wf(w: WalkModel) -> bool {
    &&& 0 <= w.next_root <= w.roots.len()
    &&& forall|i: int|
        0 <= i < w.frames.len() ==> 0 <= (#[trigger] w.frames[i]).next <= w.frames[i].entries.len()
            && 0 <= w.frames[i].depth <= MAX_DEPTH
    &&& w.waiting matches Some(d) ==> 0 <= d <= MAX_DEPTH
}

/// One step of the walk: the next root when no folder is open, else the
/// next entry of the innermost open folder. A collected file is added to
/// the tracks (with a progress report every [`PROGRESS_EVERY`] tracks); a
/// folder to descend into is read unless it lies beyond the depth limit; a
/// finished folder is closed.
pub open spec fn step_spec(w: WalkModel, p: Prepared) -> (WalkModel, StepModel) {
    if w.frames.len() == 0 {
        if w.next_root < w.roots.len() {
            (
                WalkModel { next_root: w.next_root + 1, waiting: Some(0), ..w },
                StepModel::Read { path: w.roots[w.next_root], depth: 0 },
            )
        } else {
            (w, StepModel::Done)
        }
    } else {
        let top = w.frames.last();
        if top.next >= top.entries.len() {
            (WalkModel { frames: w.frames.drop_last(), ..w }, StepModel::Continue)
        } else {
            let e = top.entries[top.next];
            let frames = w.frames.update(w.frames.len() - 1, FrameModel { next: top.next + 1, ..top });
            match entry_action_spec(e.is_dir, e.is_file, e.name, e.full, p) {
                EntryAction::Collect => {
                    let found = w.found.push(e.full);
                    (
                        WalkModel { frames, found, ..w },
                        if found.len() % (PROGRESS_EVERY as nat) == 0 {
                            StepModel::Progress { found: found.len() as int }
                        } else {
                            StepModel::Continue
                        },
                    )
                },
                EntryAction::Descend => {
                    if top.depth + 1 <= MAX_DEPTH {
                        (
                            WalkModel { frames, waiting: Some(top.depth + 1), ..w },
                            StepModel::Read { path: e.full, depth: top.depth + 1 },
                        )
                    } else {
                        (WalkModel { frames, ..w }, StepModel::Continue)
                    }
                },
                EntryAction::Skip => (WalkModel { frames, ..w }, StepModel::Continue),
            }
        }
    }
}

/// A listing fed back: the folder is opened at the depth it was asked for,
/// or passed over when it could not be read.
pub open spec fn feed_spec(w: WalkModel, listing: Option<Seq<EntryModel>>) -> WalkModel {
    let d = w.waiting->0;
    match listing {
        Some(entries) => WalkModel {
            frames: w.frames.push(FrameModel { entries, next: 0, depth: d }),
            waiting: None,
            ..w
        },
        None => WalkModel { waiting: None, ..w },
    }
}

pub open spec fn listing_view(l: Option<Vec<DirEntry>>) -> Option<Seq<EntryModel>> {
    match l {
        Some(v) => Some(v@.map_values(|e: DirEntry| e@)),
        None => None,
    }
}

impl Walk {
    /// A walk keeps its own invariant at all times.
    #[verifier::type_invariant]
    spec fn well_formed(self) -> bool {
        walk_wf(self@)
    }

    /// A walk over the folders of `opts`, with nothing read yet.
    pub fn new(opts: &ScanOptions) -> (r: Self)
        ensures
            r@.roots == strings_view(opts.dirs@),
            r@.next_root == 0,
            r@.frames.len() == 0,
            r@.found.len() == 0,
            r@.waiting is None,
            r.prepared_options().recursive == opts.recursive,
            strings_view(r.prepared_options().excludes@) == prepare_excludes(strings_view(opts.excludes@)),
            strings_view(r.prepared_options().extensions@) == drop_empty(
                crate::config::normalize_exts(strings_view(opts.extensions@)),
            ),
            walk_wf(r@),
    {
        let prepared = Prepared::new(opts);
        let roots = copy_strings(&opts.dirs);
        let w = Walk { prepared, roots, next_root: 0, frames: Vec::new(), found: Vec::new(), waiting: None };
        assert(w@.frames =~= Seq::<FrameModel>::empty());
        w
    }

    /// The prepared options the walk judges entries by.
    pub closed spec fn prepared_options(&self) -> Prepared {
        self@.prepared
    }

    /// Whether the walk is waiting for a listing.
    pub fn is_waiting(&self) -> (r: bool)
        ensures
            r == (self@.waiting is Some),
    {
        self.waiting.is_some()
    }

    /// One step; see [`step_spec`]. It may not be taken while a listing is
    /// awaited.
    pub fn step(&mut self) -> (r: WalkStep)
        requires
            old(self)@.waiting is None,
        ensures
            walk_wf(old(self)@),
            walk_wf(final(self)@),
            (final(self)@, step_view(r)) == step_spec(old(self)@, old(self).prepared_options()),
            final(self).prepared_options() == old(self).prepared_options(),
    {
        proof {
            use_type_invariant(&*self);
        }
        let ghost w = self@;
        if self.frames.len() == 0 {
            if self.next_root < self.roots.len() {
                let path = self.roots[self.next_root].clone();
                assert(path@ == w.roots[w.next_root]);
                self.next_root = self.next_root + 1;
                self.waiting = Some(0);
                return WalkStep::Read { path, depth: 0 };
            }
            return WalkStep::Done;
        }
        let mut frames: Vec<Frame> = Vec::new();
        std::mem::swap(&mut frames, &mut self.frames);
        let ghost old_frames = frames@;
        assert(old_frames.map_values(|f: Frame| f@) == w.frames);
        let top = frames.pop().unwrap();
        assert(frames@ =~= old_frames.drop_last());
        assert(top@ == w.frames.last());
        if top.next >= top.entries.len() {
            assert(frames@.map_values(|f: Frame| f@) =~= w.frames.drop_last());
            self.frames = frames;
            assert(self@.frames =~= w.frames.drop_last());
            return WalkStep::Continue;
        }
        let e = copy_entry(&top.entries[top.next]);
        assert(e@ == top@.entries[top.next as int]);
        let depth = top.depth;
        let next = top.next + 1;
        let moved = Frame { entries: top.entries, next, depth };
        frames.push(moved);
        assert(frames@.map_values(|f: Frame| f@) =~= w.frames.update(
            w.frames.len() - 1,
            FrameModel { next: w.frames.last().next + 1, ..w.frames.last() },
        ));
        self.frames = frames;
        assert(self@.frames =~= w.frames.update(
            w.frames.len() - 1,
            FrameModel { next: w.frames.last().next + 1, ..w.frames.last() },
        ));
        let action = entry_action(e.is_dir, e.is_file, e.name.as_str(), e.full.as_str(), &self.prepared);
        match action {
            EntryAction::Collect => {
                let mut found: Vec<String> = Vec::new();
                std::mem::swap(&mut found, &mut self.found);
                found.push(e.full);
                self.found = found;
                assert(strings_view(self.found@) =~= w.found.push(e@.full));
                if self.found.len() % PROGRESS_EVERY == 0 {
                    WalkStep::Progress { found: self.found.len() }
                } else {
                    WalkStep::Continue
                }
            },
            EntryAction::Descend => {
                if depth < MAX_DEPTH {
                    self.waiting = Some(depth + 1);
                    WalkStep::Read { path: e.full, depth: depth + 1 }
                } else {
                    WalkStep::Continue
                }
            },
            EntryAction::Skip => WalkStep::Continue,
        }
    }

    /// Hands back the listing of the folder that the last `Read` asked for.
    pub fn feed(&mut self, listing: Option<Vec<DirEntry>>)
        requires
            old(self)@.waiting is Some,
        ensures
            walk_wf(old(self)@),
            walk_wf(final(self)@),
            final(self)@ == feed_spec(old(self)@, listing_view(listing)),
            final(self).prepared_options() == old(self).prepared_options(),
    {
        proof {
            use_type_invariant(&*self);
        }
        let ghost w = self@;
        let depth = match self.waiting {
            Some(d) => d,
            None => 0,
        };
        self.waiting = None;
        match listing {
            Some(entries) => {
                let ghost em = entries@.map_values(|e: DirEntry| e@);
                let mut frames: Vec<Frame> = Vec::new();
                std::mem::swap(&mut frames, &mut self.frames);
                frames.push(Frame { entries, next: 0, depth });
                assert(frames@.map_values(|f: Frame| f@) =~= w.frames.push(
                    FrameModel { entries: em, next: 0, depth: depth as int },
                ));
                self.frames = frames;
                assert(self@.frames =~= w.frames.push(FrameModel { entries: em, next: 0, depth: depth as int }));
            },
            None => {},
        }
    }

    /// How many tracks the walk has collected so far.
    pub fn found_count(&self) -> (r: usize)
        ensures
            r == self@.found.len(),
    {
        self.found.len()
    }

    /// The tracks collected so far, in the order they were found.
    pub fn into_found(self) -> (r: Vec<String>)
        ensures
            strings_view(r@) == self@.found,
    {
        self.found
    }
}

/// The entries of `all` that are not in `taken`, in order.
pub open spec fn without(all: Seq<Seq<char>>, taken: Seq<Seq<char>>) -> Seq<Seq<char>>
    decreases all.len(),
{
    if all.len() == 0 {
        all
    } else {
        let r = without(all.drop_last(), taken);
        if taken.contains(all.last()) {
            r
        } else {
            r.push(all.last())
        }
    }
}

/// The whole library minus the starter album that is already playing, so the
/// album is not queued a second time.
pub fn without_starter(all: &Vec<String>, starter: &Vec<String>) -> (r: Vec<String>)
    ensures
        strings_view(r@) == without(strings_view(all@), strings_view(starter@)),
{
    let ghost a = strings_view(all@);
    let mut out: Vec<String> = Vec::new();
    let mut i: usize = 0;
    while i < all.len()
        invariant
            i <= all@.len(),
            a == strings_view(all@),
            strings_view(out@) == without(a.subrange(0, i as int), strings_view(starter@)),
        decreases all@.len() - i,
    {
        let item = all[i].clone();
        assert(item@ == a[i as int]);
        assert(a.subrange(0, i + 1).drop_last() =~= a.subrange(0, i as int));
        if !crate::lists::contains_string(starter, item.as_str()) {
            out.push(item);
            assert(strings_view(out@) =~= without(a.subrange(0, i as int), strings_view(starter@)).push(
                a[i as int],
            ));
        }
        i = i + 1;
    }
    assert(a.subrange(0, all@.len() as int) =~= a);
    out
}

/// The entries of a listing that survive the exclusions.
pub open spec fn visible(entries: Seq<EntryModel>, p: Prepared) -> Seq<EntryModel>
    decreases entries.len(),
{
    if entries.len() == 0 {
        entries
    } else {
        let r = visible(entries.drop_last(), p);
        let e = entries.last();
        if is_excluded_spec(e.name, e.full, p) {
            r
        } else {
            r.push(e)
        }
    }
}

/// The top-level entries a starter may be picked from: the listings of the
/// library roots, minus what the exclusions remove.
pub fn visible_entries(entries: &Vec<DirEntry>, p: &Prepared) -> (r: Vec<DirEntry>)
    ensures
        r@.map_values(|e: DirEntry| e@) == visible(entries@.map_values(|e: DirEntry| e@), *p),
{
    let ghost a = entries@.map_values(|e: DirEntry| e@);
    let mut out: Vec<DirEntry> = Vec::new();
    let mut i: usize = 0;
    while i < entries.len()
        invariant
            i <= entries@.len(),
            a == entries@.map_values(|e: DirEntry| e@),
            out@.map_values(|e: DirEntry| e@) == visible(a.subrange(0, i as int), *p),
        decreases entries@.len() - i,
    {
        let e = copy_entry(&entries[i]);
        assert(e@ == a[i as int]);
        assert(a.subrange(0, i + 1).drop_last() =~= a.subrange(0, i as int));
        if !is_excluded(e.name.as_str(), e.full.as_str(), p) {
            let ghost before = out@.map_values(|e: DirEntry| e@);
            out.push(e);
            assert(out@.map_values(|e: DirEntry| e@) =~= before.push(a[i as int]));
        }
        i = i + 1;
    }
    assert(a.subrange(0, entries@.len() as int) =~= a);
    out
}

/// The full paths of the entries that are tracks by their extension.
pub open spec fn loose_audio(entries: Seq<EntryModel>, p: Prepared) -> Seq<Seq<char>>
    decreases entries.len(),
{
    if entries.len() == 0 {
        Seq::empty()
    } else {
        let r = loose_audio(entries.drop_last(), p);
        let e = entries.last();
        if is_audio_spec(e.name, p) {
            r.push(e.full)
        } else {
            r
        }
    }
}

/// Last resort for a starter: the tracks lying directly in the library roots.
pub fn loose_tracks(entries: &Vec<DirEntry>, p: &Prepared) -> (r: Vec<String>)
    ensures
        strings_view(r@) == loose_audio(entries@.map_values(|e: DirEntry| e@), *p),
{
    let ghost a = entries@.map_values(|e: DirEntry| e@);
    let mut out: Vec<String> = Vec::new();
    let mut i: usize = 0;
    while i < entries.len()
        invariant
            i <= entries@.len(),
            a == entries@.map_values(|e: DirEntry| e@),
            strings_view(out@) == loose_audio(a.subrange(0, i as int), *p),
        decreases entries@.len() - i,
    {
        let e = copy_entry(&entries[i]);
        assert(e@ == a[i as int]);
        assert(a.subrange(0, i + 1).drop_last() =~= a.subrange(0, i as int));
        if is_audio(e.name.as_str(), p) {
            let ghost before = strings_view(out@);
            out.push(e.full);
            assert(strings_view(out@) =~= before.push(a[i as int].full));
        }
        i = i + 1;
    }
    assert(a.subrange(0, entries@.len() as int) =~= a);
    out
}

impl Walk {
    /// The prepared options, for judging the top-level entries of a starter
    /// pick by the same rules.
    pub fn prepared(&self) -> (r: &Prepared)
        ensures
            *r == self.prepared_options(),
    {
        &self.prepared
    }
}


// ---------------------------------------------------------------------------
// What a whole walk finds
// ---------------------------------------------------------------------------

/// How far below a root a folder at `depth` may still be read, as a
/// termination measure.
pub open spec fn depth_left(depth: int) -> nat {
    if 0 <= depth <= MAX_DEPTH {
        (MAX_DEPTH + 1 - depth) as nat
    } else {
        0
    }
}

/// The tracks a recursive walk finds in the folder `path` at `depth`, when
/// every folder lists as `listing` says (`None`: it cannot be read): its
/// entries' tracks in listing order, each subfolder's right where it occurs.
pub open spec fn dir_tracks(
    listing: spec_fn(Seq<char>) -> Option<Seq<EntryModel>>,
    path: Seq<char>,
    depth: int,
    p: Prepared,
) -> Seq<Seq<char>>
    decreases depth_left(depth), 1nat, 0nat,
{
    if 0 <= depth <= MAX_DEPTH {
        match listing(path) {
            Some(entries) => entries_tracks(listing, entries, depth, p),
            None => Seq::empty(),
        }
    } else {
        Seq::empty()
    }
}

/// The tracks found from a run of entries of a folder at `depth`.
pub open spec fn entries_tracks(
    listing: spec_fn(Seq<char>) -> Option<Seq<EntryModel>>,
    entries: Seq<EntryModel>,
    depth: int,
    p: Prepared,
) -> Seq<Seq<char>>
    decreases depth_left(depth), 0nat, entries.len(),
{
    if entries.len() == 0 {
        Seq::empty()
    } else {
        let e = entries[0];
        let head = match entry_action_spec(e.is_dir, e.is_file, e.name, e.full, p) {
            EntryAction::Collect => seq![e.full],
            EntryAction::Descend => if 0 <= depth && depth + 1 <= MAX_DEPTH {
                dir_tracks(listing, e.full, depth + 1, p)
            } else {
                Seq::empty()
            },
            EntryAction::Skip => Seq::empty(),
        };
        head + entries_tracks(listing, entries.drop_first(), depth, p)
    }
}

/// The tracks of the library roots, one root after the other.
pub open spec fn roots_tracks(
    listing: spec_fn(Seq<char>) -> Option<Seq<EntryModel>>,
    roots: Seq<Seq<char>>,
    p: Prepared,
) -> Seq<Seq<char>>
    decreases roots.len(),
{
    if roots.len() == 0 {
        Seq::empty()
    } else {
        dir_tracks(listing, roots[0], 0, p) + roots_tracks(listing, roots.drop_first(), p)
    }
}

/// The tracks the open folders still hold, innermost first.
pub open spec fn frames_tracks(
    listing: spec_fn(Seq<char>) -> Option<Seq<EntryModel>>,
    frames: Seq<FrameModel>,
    p: Prepared,
) -> Seq<Seq<char>>
    decreases frames.len(),
{
    if frames.len() == 0 {
        Seq::empty()
    } else {
        let top = frames.last();
        entries_tracks(listing, top.entries.skip(top.next), top.depth, p) + frames_tracks(
            listing,
            frames.drop_last(),
            p,
        )
    }
}

/// The tracks a walk has still to find.
pub open spec fn pending_tracks(
    listing: spec_fn(Seq<char>) -> Option<Seq<EntryModel>>,
    w: WalkModel,
    p: Prepared,
) -> Seq<Seq<char>> {
    frames_tracks(listing, w.frames, p) + roots_tracks(listing, w.roots.skip(w.next_root), p)
}

/// A walk that is not waiting, has found `w.found` and has `pending_tracks`
/// still to find, out of `total`.
pub open spec fn on_track(
    listing: spec_fn(Seq<char>) -> Option<Seq<EntryModel>>,
    w: WalkModel,
    p: Prepared,
    total: Seq<Seq<char>>,
) -> bool {
    &&& w.waiting is None
    &&& w.found + pending_tracks(listing, w, p) == total
}

/// A new walk over `roots` is on track to find the roots' tracks.
pub proof fn a_new_walk_is_on_track(
    listing: spec_fn(Seq<char>) -> Option<Seq<EntryModel>>,
    w: WalkModel,
    p: Prepared,
)
    requires
        w.next_root == 0,
        w.frames.len() == 0,
        w.found.len() == 0,
        w.waiting is None,
    ensures
        on_track(listing, w, p, roots_tracks(listing, w.roots, p)),
{
    assert(w.roots.skip(0) =~= w.roots);
    assert(w.found + pending_tracks(listing, w, p) =~= roots_tracks(listing, w.roots, p));
}

/// Each step keeps a walk on track when every listing the front end hands
/// back is the folder's listing, and a walk that is done has found all of
/// its tracks: whatever the folders hold, the walk finds exactly the tracks
/// of a recursive, depth-first walk, in the same order.
pub proof fn each_step_stays_on_track(
    listing: spec_fn(Seq<char>) -> Option<Seq<EntryModel>>,
    w: WalkModel,
    p: Prepared,
    total: Seq<Seq<char>>,
)
    requires
        walk_wf(w),
        on_track(listing, w, p, total),
    ensures
        ({
            let (w2, s) = step_spec(w, p);
            match s {
                StepModel::Read { path, depth } => w2.waiting == Some(depth) && on_track(
                    listing,
                    feed_spec(w2, listing(path)),
                    p,
                    total,
                ),
                StepModel::Done => w.found == total,
                _ => on_track(listing, w2, p, total),
            }
        }),
{
    let (w2, s) = step_spec(w, p);
    if w.frames.len() == 0 {
        assert(frames_tracks(listing, w.frames, p) =~= Seq::<Seq<char>>::empty());
        if w.next_root < w.roots.len() {
            let rest = w.roots.skip(w.next_root);
            assert(rest[0] == w.roots[w.next_root]);
            assert(rest.drop_first() =~= w.roots.skip(w.next_root + 1));
            let root = w.roots[w.next_root];
            let w3 = feed_spec(w2, listing(root));
            let later = roots_tracks(listing, w.roots.skip(w.next_root + 1), p);
            assert(roots_tracks(listing, rest, p) == dir_tracks(listing, root, 0, p) + later);
            match listing(root) {
                Some(es) => {
                    let f = FrameModel { entries: es, next: 0, depth: 0 };
                    assert(w3.frames =~= seq![f]);
                    assert(w3.frames.last() == f);
                    assert(w3.frames.drop_last() =~= Seq::<FrameModel>::empty());
                    assert(es.skip(0) =~= es);
                    assert(dir_tracks(listing, root, 0, p) == entries_tracks(listing, es, 0, p));
                    assert(frames_tracks(listing, w3.frames.drop_last(), p) =~= Seq::<Seq<char>>::empty());
                    assert(entries_tracks(listing, f.entries.skip(f.next), f.depth, p) == entries_tracks(
                        listing,
                        es,
                        0,
                        p,
                    ));
                    assert(frames_tracks(listing, w3.frames, p) =~= entries_tracks(listing, es, 0, p));
                },
                None => {
                    assert(w3.frames =~= Seq::<FrameModel>::empty());
                    assert(dir_tracks(listing, root, 0, p) =~= Seq::<Seq<char>>::empty());
                },
            }
            assert(pending_tracks(listing, w3, p) =~= dir_tracks(listing, root, 0, p) + later);
            assert(pending_tracks(listing, w, p) =~= dir_tracks(listing, root, 0, p) + later);
        } else {
            assert(w.roots.skip(w.next_root) =~= Seq::<Seq<char>>::empty());
            assert(w.found + pending_tracks(listing, w, p) =~= w.found);
        }
    } else {
        let top = w.frames.last();
        assert(w.frames[w.frames.len() - 1] == top);
        let below = frames_tracks(listing, w.frames.drop_last(), p);
        let roots_rest = roots_tracks(listing, w.roots.skip(w.next_root), p);
        if top.next >= top.entries.len() {
            assert(top.entries.skip(top.next) =~= Seq::<EntryModel>::empty());
            assert(w.found + pending_tracks(listing, w2, p) =~= w.found + pending_tracks(listing, w, p));
        } else {
            let rest = top.entries.skip(top.next);
            let e = top.entries[top.next];
            assert(rest[0] == e);
            assert(rest.drop_first() =~= top.entries.skip(top.next + 1));
            let moved = FrameModel { next: top.next + 1, ..top };
            let frames = w.frames.update(w.frames.len() - 1, moved);
            assert(frames.last() == moved);
            assert(frames.drop_last() =~= w.frames.drop_last());
            let after = entries_tracks(listing, top.entries.skip(top.next + 1), top.depth, p);
            assert(frames_tracks(listing, frames, p) =~= after + below);
            match entry_action_spec(e.is_dir, e.is_file, e.name, e.full, p) {
                EntryAction::Collect => {
                    assert(w2.found + pending_tracks(listing, w2, p) =~= w.found + pending_tracks(
                        listing,
                        w,
                        p,
                    ));
                },
                EntryAction::Descend => {
                    if top.depth + 1 <= MAX_DEPTH {
                        let w3 = feed_spec(w2, listing(e.full));
                        let inner = dir_tracks(listing, e.full, top.depth + 1, p);
                        assert(entries_tracks(listing, rest, top.depth, p) == inner + after);
                        match listing(e.full) {
                            Some(es) => {
                                let f = FrameModel { entries: es, next: 0, depth: top.depth + 1 };
                                assert(w3.frames =~= frames.push(f));
                                assert(w3.frames.last() == f);
                                assert(w3.frames.drop_last() =~= frames);
                                assert(es.skip(0) =~= es);
                                assert(inner == entries_tracks(listing, es, top.depth + 1, p));
                                assert(frames_tracks(listing, w3.frames, p) =~= inner + (after + below));
                            },
                            None => {
                                assert(w3.frames =~= frames);
                                assert(inner =~= Seq::<Seq<char>>::empty());
                            },
                        }
                        assert(pending_tracks(listing, w3, p) =~= inner + after + below + roots_rest);
                        assert(pending_tracks(listing, w, p) =~= inner + after + below + roots_rest);
                        assert(w3.found + pending_tracks(listing, w3, p) =~= w.found + pending_tracks(
                            listing,
                            w,
                            p,
                        ));
                    } else {
                        assert(w2.found + pending_tracks(listing, w2, p) =~= w.found + pending_tracks(
                            listing,
                            w,
                            p,
                        ));
                    }
                },
                EntryAction::Skip => {
                    assert(w2.found + pending_tracks(listing, w2, p) =~= w.found + pending_tracks(
                        listing,
                        w,
                        p,
                    ));
                },
            }
        }
    }
}

} // verus!
