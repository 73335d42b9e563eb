//! A library scan from start to end, as a state machine. The front end
//! lists folders, runs walks, sleeps and talks to the player; every decision
//! in between is here: the status shown, the starter album first and then
//! the rest of the library, the retries while a drive spins up, and what
//! goes to the player.

use vstd::prelude::*;
use crate::library::{
    choose_starter, loose_audio, loose_tracks, visible, visible_entries, without, without_starter,
    DirEntry, EntryModel, Prepared, ScanOptions, ScanTarget, RETRIES, STATE_EMPTY, STATE_NO_DIRS,
    STATE_READY, STATE_SCANNING,
};
use crate::lists::{append_strings, strings_view};

verus! {

/// How long to wait before walking the library again when it came back empty.
pub const RETRY_WAIT_MS: u64 = 1000;

/// Where a scan stands.
#[derive(Debug, Clone, Copy, PartialEq, Eq, Structural)]
pub enum RunPhase {
    /// Nothing done yet.
    Begin,
    /// "Scanning" is shown.
    Scanning,
    /// A rescan is walking the whole library.
    PoolWalk,
    /// The library roots are being listed to choose a starter.
    Listing,
    /// The chosen starter entry is being walked.
    StarterWalk,
    /// The starter album went to the player.
    Queued,
    /// The whole library is being walked.
    FullWalk,
    /// The library came back empty; waiting before the next try.
    Waiting,
    /// Everything is delivered.
    Finished,
}

/// What the front end reports back.
#[derive(Debug)]
pub enum ScanEvent {
    /// The last action is done.
    Go,
    /// The entries of every readable library root, root after root.
    Listed(Vec<DirEntry>),
    /// The tracks the requested walk found, in order.
    Walked(Vec<String>),
}

pub enum EventModel {
    Go,
    Listed(Seq<EntryModel>),
    Walked(Seq<Seq<char>>),
}

impl View for ScanEvent {
    type V = EventModel;

    open spec fn view(&self) -> EventModel {
        match self {
            ScanEvent::Go => EventModel::Go,
            ScanEvent::Listed(v) => EventModel::Listed(v@.map_values(|e: DirEntry| e@)),
            ScanEvent::Walked(v) => EventModel::Walked(strings_view(v@)),
        }
    }
}

/// What the front end is asked to do next.
#[derive(Debug)]
pub enum ScanAction {
    /// Show this scan status and track count.
    SetStatus { state: u32, count: usize },
    /// List every library root and report the entries.
    ListRoots,
    /// Walk these folders with the scan's options and report the tracks;
    /// publish running counts when `report` holds.
    Walk { dirs: Vec<String>, report: bool },
    /// Hand the starter album to the player to play at once.
    Queue(Vec<String>),
    /// Sleep this long.
    Wait { millis: u64 },
    /// Show this status, then replace the player's pool with these tracks.
    SetPool { state: u32, count: usize, tracks: Vec<String> },
    /// Show this status, then add these tracks behind the starter.
    Enqueue { state: u32, count: usize, tracks: Vec<String> },
    /// The scan is over.
    Stop,
}

pub enum ActionModel {
    SetStatus { state: u32, count: int },
    ListRoots,
    Walk { dirs: Seq<Seq<char>>, report: bool },
    Queue(Seq<Seq<char>>),
    Wait { millis: u64 },
    SetPool { state: u32, count: int, tracks: Seq<Seq<char>> },
    Enqueue { state: u32, count: int, tracks: Seq<Seq<char>> },
    Stop,
}

impl View for ScanAction {
    type V = ActionModel;

    open spec fn view(&self) -> ActionModel {
        match self {
            ScanAction::SetStatus { state, count } => ActionModel::SetStatus {
                state: *state,
                count: *count as int,
            },
            ScanAction::ListRoots => ActionModel::ListRoots,
            ScanAction::Walk { dirs, report } => ActionModel::Walk {
                dirs: strings_view(dirs@),
                report: *report,
            },
            ScanAction::Queue(v) => ActionModel::Queue(strings_view(v@)),
            ScanAction::Wait { millis } => ActionModel::Wait { millis: *millis },
            ScanAction::SetPool { state, count, tracks } => ActionModel::SetPool {
                state: *state,
                count: *count as int,
                tracks: strings_view(tracks@),
            },
            ScanAction::Enqueue { state, count, tracks } => ActionModel::Enqueue {
                state: *state,
                count: *count as int,
                tracks: strings_view(tracks@),
            },
            ScanAction::Stop => ActionModel::Stop,
        }
    }
}

/// One scan of the library.
pub struct ScanRun {
    dirs: Vec<String>,
    pool: bool,
    prepared: Prepared,
    phase: RunPhase,
    attempt: usize,
    starter: Vec<String>,
    visible: Vec<DirEntry>,
}

#[verifier::ext_equal]
pub struct RunModel {
    /// The library roots.
    pub dirs: Seq<Seq<char>>,
    /// A rescan that replaces the pool, rather than the startup scan.
    pub pool: bool,
    /// The options entries are judged by.
    pub prepared: Prepared,
    pub phase: RunPhase,
    /// How many walks of the whole library came back empty so far.
    pub attempt: int,
    /// The starter album, once chosen.
    pub starter: Seq<Seq<char>>,
    /// The visible entries of the library roots, once listed.
    pub visible: Seq<EntryModel>,
}

impl View for ScanRun {
    type V = RunModel;

    closed spec fn view(&self) -> RunModel {
        RunModel {
            dirs: strings_view(self.dirs@),
            pool: self.pool,
            prepared: self.prepared,
            phase: self.phase,
            attempt: self.attempt as int,
            starter: strings_view(self.starter@),
            visible: self.visible@.map_values(|e: DirEntry| e@),
        }
    }
}

/// The status shown once a scan has delivered `total` tracks.
pub open spec fn finished_status(total: int) -> u32 {
    if total == 0 {
        STATE_EMPTY
    } else {
        STATE_READY
    }
}

/// A choice of starter among the visible root entries, as a random draw may
/// make it: none exactly when there is nothing to choose from, and a folder
/// whenever there is one.
pub open spec fn choice_ok(vis: Seq<EntryModel>, c: Option<usize>) -> bool {
    &&& (vis.len() == 0 <==> c is None)
    &&& (c matches Some(i) ==> i < vis.len())
    &&& (c matches Some(i) ==> ((exists|k: int| 0 <= k < vis.len() && vis[k].is_dir) ==> vis[i as int].is_dir))
}

/// Walk the whole library, as try number `attempt`.
pub open spec fn full_walk(m: RunModel, attempt: int) -> (RunModel, ActionModel) {
    (
        RunModel { phase: RunPhase::FullWalk, attempt: attempt, ..m },
        ActionModel::Walk { dirs: m.dirs, report: true },
    )
}

/// With the starter known: play it at once if there is one, else go
/// straight to the whole library.
pub open spec fn with_starter(m: RunModel, starter: Seq<Seq<char>>) -> (RunModel, ActionModel) {
    if starter.len() > 0 {
        (RunModel { phase: RunPhase::Queued, starter: starter, ..m }, ActionModel::Queue(starter))
    } else {
        full_walk(RunModel { starter: starter, ..m }, 0)
    }
}

/// The end of a startup scan: the tracks found that are not in the starter
/// (which is already playing) go behind it; the count shown is both together.
pub open spec fn finish(m: RunModel, all: Seq<Seq<char>>) -> (RunModel, ActionModel) {
    let rest = without(all, m.starter);
    let total = (rest.len() + m.starter.len()) as int;
    (
        RunModel { phase: RunPhase::Finished, ..m },
        ActionModel::Enqueue { state: finished_status(total), count: total, tracks: rest },
    )
}

/// With the visible root entries listed and a starter chosen among them:
/// walk the chosen entry, or settle for the loose tracks in the roots.
pub open spec fn after_listing(m: RunModel, vis: Seq<EntryModel>, c: Option<usize>) -> (RunModel, ActionModel) {
    let m1 = RunModel { visible: vis, ..m };
    if vis.len() == 0 {
        with_starter(m1, Seq::empty())
    } else {
        match c {
            Some(i) => (
                RunModel { phase: RunPhase::StarterWalk, ..m1 },
                ActionModel::Walk { dirs: seq![vis[i as int].full], report: false },
            ),
            None => with_starter(m1, loose_audio(vis, m.prepared)),
        }
    }
}

/// The visible entries of a listing, for any event.
pub open spec fn listed_visible(m: RunModel, e: EventModel) -> Seq<EntryModel> {
    match e {
        EventModel::Listed(entries) => visible(entries, m.prepared),
        _ => Seq::empty(),
    }
}

/// One step of a scan: the next state and action for an event, given the
/// starter choice `c` (used only on the root listing).
pub open spec fn run_step(m: RunModel, e: EventModel, c: Option<usize>) -> (RunModel, ActionModel) {
    match (m.phase, e) {
        (RunPhase::Begin, EventModel::Go) => if m.dirs.len() == 0 {
            (
                RunModel { phase: RunPhase::Finished, ..m },
                ActionModel::SetStatus { state: STATE_NO_DIRS, count: 0 },
            )
        } else {
            (
                RunModel { phase: RunPhase::Scanning, ..m },
                ActionModel::SetStatus { state: STATE_SCANNING, count: 0 },
            )
        },
        (RunPhase::Scanning, EventModel::Go) => if m.pool {
            (RunModel { phase: RunPhase::PoolWalk, ..m }, ActionModel::Walk { dirs: m.dirs, report: true })
        } else {
            (RunModel { phase: RunPhase::Listing, ..m }, ActionModel::ListRoots)
        },
        (RunPhase::PoolWalk, EventModel::Walked(all)) => (
            RunModel { phase: RunPhase::Finished, ..m },
            ActionModel::SetPool { state: finished_status(all.len() as int), count: all.len() as int, tracks: all },
        ),
        (RunPhase::Listing, EventModel::Listed(entries)) => after_listing(m, visible(entries, m.prepared), c),
        (RunPhase::StarterWalk, EventModel::Walked(out)) => with_starter(
            m,
            if out.len() == 0 {
                loose_audio(m.visible, m.prepared)
            } else {
                out
            },
        ),
        (RunPhase::Queued, EventModel::Go) => full_walk(m, 0),
        (RunPhase::FullWalk, EventModel::Walked(all)) => if all.len() > 0 {
            finish(m, all)
        } else {
            (RunModel { phase: RunPhase::Waiting, ..m }, ActionModel::Wait { millis: RETRY_WAIT_MS })
        },
        (RunPhase::Waiting, EventModel::Go) => if m.attempt + 1 < RETRIES {
            full_walk(m, m.attempt + 1)
        } else {
            finish(m, Seq::empty())
        },
        _ => (m, ActionModel::Stop),
    }
}

/// Whether finishing with the tracks `all` keeps the count in a `usize`.
pub open spec fn total_fits(m: RunModel, all: Seq<Seq<char>>) -> bool {
    without(all, m.starter).len() + m.starter.len() <= usize::MAX
}

fn copy_strings(v: &Vec<String>) -> (r: Vec<String>)
    ensures
        strings_view(r@) == strings_view(v@),
{
    let mut out: Vec<String> = Vec::new();
    append_strings(&mut out, v);
    assert(strings_view(out@) =~= strings_view(v@));
    out
}

fn dir_flags(v: &Vec<DirEntry>) -> (r: Vec<bool>)
    ensures
        r@.len() == v@.len(),
        forall|k: int| 0 <= k < v@.len() ==> r@[k] == v@[k].is_dir,
{
    let mut out: Vec<bool> = Vec::new();
    let mut i: usize = 0;
    while i < v.len()
        invariant
            i <= v@.len(),
            out@.len() == i,
            forall|k: int| 0 <= k < i ==> out@[k] == v@[k].is_dir,
        decreases v@.len() - i,
    {
        out.push(v[i].is_dir);
        i = i + 1;
    }
    out
}

impl ScanRun {
    /// A scan of `opts`'s folders for `target`, not started yet.
    pub fn new(opts: &ScanOptions, target: ScanTarget) -> (r: Self)
        ensures
            r@.dirs == strings_view(opts.dirs@),
            r@.pool == (target == ScanTarget::Pool),
            r@.prepared.recursive == opts.recursive,
            strings_view(r@.prepared.excludes@) == crate::library::prepare_excludes(
                strings_view(opts.excludes@),
            ),
            strings_view(r@.prepared.extensions@) == crate::lists::drop_empty(
                crate::config::normalize_exts(strings_view(opts.extensions@)),
            ),
            r@.phase == RunPhase::Begin,
            r@.attempt == 0,
            r@.starter == Seq::<Seq<char>>::empty(),
            r@.visible == Seq::<EntryModel>::empty(),
    {
        let r = ScanRun {
            dirs: copy_strings(&opts.dirs),
            pool: match target {
                ScanTarget::Pool => true,
                ScanTarget::Play => false,
            },
            prepared: Prepared::new(opts),
            phase: RunPhase::Begin,
            attempt: 0,
            starter: Vec::new(),
            visible: Vec::new(),
        };
        assert(r@.starter =~= Seq::<Seq<char>>::empty());
        assert(r@.visible =~= Seq::<EntryModel>::empty());
        r
    }

    /// The starter album chosen so far.
    pub fn starter(&self) -> (r: &Vec<String>)
        ensures
            strings_view(r@) == self@.starter,
    {
        &self.starter
    }

    fn walk_full(&mut self, attempt: usize) -> (a: ScanAction)
        ensures
            (final(self)@, a@) == full_walk(old(self)@, attempt as int),
    {
        self.phase = RunPhase::FullWalk;
        self.attempt = attempt;
        ScanAction::Walk { dirs: copy_strings(&self.dirs), report: true }
    }

    fn take_starter(&mut self, starter: Vec<String>) -> (a: ScanAction)
        ensures
            (final(self)@, a@) == with_starter(old(self)@, strings_view(starter@)),
    {
        self.starter = starter;
        if self.starter.len() > 0 {
            self.phase = RunPhase::Queued;
            ScanAction::Queue(copy_strings(&self.starter))
        } else {
            self.walk_full(0)
        }
    }

    fn finish_with(&mut self, all: Vec<String>) -> (a: ScanAction)
        requires
            total_fits(old(self)@, strings_view(all@)),
        ensures
            (final(self)@, a@) == finish(old(self)@, strings_view(all@)),
    {
        let rest = without_starter(&all, &self.starter);
        let total = rest.len() + self.starter.len();
        self.phase = RunPhase::Finished;
        let state = if total == 0 {
            STATE_EMPTY
        } else {
            STATE_READY
        };
        ScanAction::Enqueue { state, count: total, tracks: rest }
    }

    /// The step after the root listing, for the visible entries `vis` and
    /// the starter choice `choice` among them.
    pub fn after_listing(&mut self, vis: Vec<DirEntry>, choice: Option<usize>) -> (a: ScanAction)
        requires
            choice matches Some(i) ==> i < vis@.len(),
        ensures
            (final(self)@, a@) == after_listing(old(self)@, vis@.map_values(|e: DirEntry| e@), choice),
    {
        let ghost vm = vis@.map_values(|e: DirEntry| e@);
        self.visible = vis;
        if self.visible.len() == 0 {
            return self.take_starter(Vec::new());
        }
        match choice {
            Some(i) => {
                self.phase = RunPhase::StarterWalk;
                let full = self.visible[i].full.clone();
                let dirs = vec![full];
                assert(strings_view(dirs@) =~= seq![vm[i as int].full]);
                ScanAction::Walk { dirs, report: false }
            },
            None => {
                let loose = loose_tracks(&self.visible, &self.prepared);
                self.take_starter(loose)
            },
        }
    }

    /// Handles one event and says what to do next. The root listing is where
    /// the starter is drawn at random.
    pub fn step(&mut self, event: ScanEvent, rng: &mut rand::rngs::ThreadRng) -> (a: ScanAction)
        requires
            old(self)@.phase == RunPhase::FullWalk ==> (event matches ScanEvent::Walked(v) ==> total_fits(
                old(self)@,
                strings_view(v@),
            )),
        ensures
            !(event is Listed) || old(self)@.phase != RunPhase::Listing ==> (final(self)@, a@)
                == run_step(old(self)@, event@, None),
            event is Listed && old(self)@.phase == RunPhase::Listing ==> exists|c: Option<usize>|
                choice_ok(listed_visible(old(self)@, event@), c) && (final(self)@, a@) == run_step(
                    old(self)@,
                    event@,
                    c,
                ),
    {
        let ghost m = self@;
        match event {
            ScanEvent::Go => match self.phase {
                RunPhase::Begin => {
                    if self.dirs.len() == 0 {
                        self.phase = RunPhase::Finished;
                        ScanAction::SetStatus { state: STATE_NO_DIRS, count: 0 }
                    } else {
                        self.phase = RunPhase::Scanning;
                        ScanAction::SetStatus { state: STATE_SCANNING, count: 0 }
                    }
                },
                RunPhase::Scanning => {
                    if self.pool {
                        self.phase = RunPhase::PoolWalk;
                        ScanAction::Walk { dirs: copy_strings(&self.dirs), report: true }
                    } else {
                        self.phase = RunPhase::Listing;
                        ScanAction::ListRoots
                    }
                },
                RunPhase::Queued => self.walk_full(0),
                RunPhase::Waiting => {
                    if self.attempt < RETRIES - 1 {
                        let next = self.attempt + 1;
                        self.walk_full(next)
                    } else {
                        let none: Vec<String> = Vec::new();
                        let _n: usize = self.starter.len();
                        assert(strings_view(none@) =~= Seq::<Seq<char>>::empty());
                        self.finish_with(none)
                    }
                },
                _ => ScanAction::Stop,
            },
            ScanEvent::Walked(v) => match self.phase {
                RunPhase::PoolWalk => {
                    let n = v.len();
                    self.phase = RunPhase::Finished;
                    let state = if n == 0 {
                        STATE_EMPTY
                    } else {
                        STATE_READY
                    };
                    ScanAction::SetPool { state, count: n, tracks: v }
                },
                RunPhase::StarterWalk => {
                    if v.len() == 0 {
                        let loose = loose_tracks(&self.visible, &self.prepared);
                        self.take_starter(loose)
                    } else {
                        self.take_starter(v)
                    }
                },
                RunPhase::FullWalk => {
                    if v.len() > 0 {
                        self.finish_with(v)
                    } else {
                        self.phase = RunPhase::Waiting;
                        ScanAction::Wait { millis: RETRY_WAIT_MS }
                    }
                },
                _ => ScanAction::Stop,
            },
            ScanEvent::Listed(entries) => {
                let ghost vis = visible(entries@.map_values(|e: DirEntry| e@), m.prepared);
                if self.phase == RunPhase::Listing {
                    let shown = visible_entries(&entries, &self.prepared);
                    let is_dir = dir_flags(&shown);
                    let choice = choose_starter(rng, is_dir.as_slice());
                    proof {
                        let sv = shown@.map_values(|e: DirEntry| e@);
                        assert(sv == vis);
                        if choice is Some {
                            let i = choice->0;
                            assert(is_dir@[i as int] == sv[i as int].is_dir);
                            if exists|k: int| 0 <= k < vis.len() && vis[k].is_dir {
                                let k = choose|k: int| 0 <= k < vis.len() && vis[k].is_dir;
                                assert(is_dir@[k]);
                            }
                        }
                        assert(choice_ok(vis, choice));
                        assert(run_step(m, EventModel::Listed(entries@.map_values(|e: DirEntry| e@)), choice)
                            == after_listing(m, vis, choice));
                    }
                    self.after_listing(shown, choice)
                } else {
                    ScanAction::Stop
                }
            },
        }
    }
}

/// The tracks added behind the starter never repeat one of its tracks, so
/// the starter album is not played twice.
pub proof fn the_rest_never_repeats_the_starter(all: Seq<Seq<char>>, starter: Seq<Seq<char>>, x: Seq<char>)
    ensures
        without(all, starter).contains(x) ==> !starter.contains(x) && all.contains(x),
    decreases all.len(),
{
    if all.len() > 0 {
        the_rest_never_repeats_the_starter(all.drop_last(), starter, x);
        let r = without(all.drop_last(), starter);
        if without(all, starter).contains(x) {
            if r.contains(x) {
                let k = choose|k: int| 0 <= k < all.drop_last().len() && all.drop_last()[k] == x;
                assert(all[k] == x);
            } else {
                let k = choose|k: int| 0 <= k < without(all, starter).len() && without(all, starter)[k] == x;
                if k < r.len() {
                    assert(r[k] == x);
                }
                assert(all[all.len() - 1] == x);
            }
        }
    }
}

/// However often the library comes back empty, a scan tries at most
/// [`RETRIES`] whole walks: no step takes the try count to the limit.
pub proof fn retries_stay_below_the_limit(m: RunModel, e: EventModel, c: Option<usize>)
    requires
        0 <= m.attempt < RETRIES,
    ensures
        0 <= run_step(m, e, c).0.attempt < RETRIES,
{
}

/// Every status a scan publishes with its tracks says "empty" exactly when
/// the count is 0 and "ready" otherwise. A rescan's count is the number of
/// tracks it hands over; a startup scan's count is the tracks it adds behind
/// the starter plus the starter's own.
pub proof fn published_counts_match_their_status(m: RunModel, e: EventModel, c: Option<usize>)
    ensures
        run_step(m, e, c).1 matches ActionModel::SetPool { state, count, tracks } ==> {
            &&& count == tracks.len()
            &&& (count == 0 ==> state == STATE_EMPTY)
            &&& (count != 0 ==> state == STATE_READY)
        },
        run_step(m, e, c).1 matches ActionModel::Enqueue { state, count, tracks } ==> {
            &&& count == tracks.len() + m.starter.len()
            &&& (count == 0 ==> state == STATE_EMPTY)
            &&& (count != 0 ==> state == STATE_READY)
        },
{
}

/// What a startup scan adds behind the starter was found by the walk just
/// reported, and none of it is a track of the starter; the starter handed to
/// the player is the one the scan remembers, and it is never empty.
pub proof fn the_rest_is_new_and_found(m: RunModel, e: EventModel, c: Option<usize>, x: Seq<char>)
    ensures
        run_step(m, e, c).1 matches ActionModel::Enqueue { tracks, .. } ==> (tracks.contains(x) ==> {
            &&& !m.starter.contains(x)
            &&& e matches EventModel::Walked(all) && all.contains(x)
        }),
        run_step(m, e, c).1 matches ActionModel::Queue(q) ==> q.len() > 0 && run_step(m, e, c).0.starter
            == q,
{
    if let EventModel::Walked(all) = e {
        the_rest_never_repeats_the_starter(all, m.starter, x);
    }
    the_rest_never_repeats_the_starter(Seq::empty(), m.starter, x);
}

/// A scan waits only after a walk of the whole library that found nothing.
pub proof fn it_waits_only_after_an_empty_walk(m: RunModel, e: EventModel, c: Option<usize>)
    ensures
        run_step(m, e, c).1 is Wait ==> m.phase == RunPhase::FullWalk && (e matches EventModel::Walked(
            all,
        ) && all.len() == 0),
{
}

/// Once a scan has finished, every further event is answered with `Stop`
/// and changes nothing.
pub proof fn a_finished_scan_stays_finished(m: RunModel, e: EventModel, c: Option<usize>)
    requires
        m.phase == RunPhase::Finished,
    ensures
        run_step(m, e, c) == (m, ActionModel::Stop),
{
}

} // verus!
