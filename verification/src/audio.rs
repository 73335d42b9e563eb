//! Playback decisions: the play mode and which track comes next.
//!
//! The audio device and decoders live in the front end; this module decides
//! what they are asked to play.

use vstd::prelude::*;
use crate::text::{str_eq, trim, trim_str};

verus! {

/// The thread-local generator that picks shuffled tracks and starter albums.
#[verifier::external_type_specification]
#[verifier::external_body]
pub struct ExThreadRng(rand::rngs::ThreadRng);

/// `Rng::random_range(0..n)` (rand 0.9): a random index below `n`. The range
/// must not be empty, which the crate asserts.
#[verifier::external_body]
fn random_index(rng: &mut rand::rngs::ThreadRng, n: usize) -> (r: usize)
    requires
        n > 0,
    ensures
        r < n,
{
    rand::Rng::random_range(rng, 0..n)
}

/// How the next track is chosen once the current one ends.
#[derive(Debug, Clone, Copy, PartialEq, Eq, Structural)]
pub enum PlayMode {
    Sequential,
    Shuffle,
    RepeatOne,
}

/// The config spelling of a play mode.
pub open spec fn mode_name(m: PlayMode) -> Seq<char> {
    match m {
        PlayMode::Sequential => "sequential"@,
        PlayMode::Shuffle => "shuffle"@,
        PlayMode::RepeatOne => "repeat-one"@,
    }
}

/// The play mode a config value names; anything unknown is the historical
/// default, shuffle.
pub open spec fn mode_of(v: Seq<char>) -> PlayMode {
    if v == "sequential"@ {
        PlayMode::Sequential
    } else if v == "repeat-one"@ {
        PlayMode::RepeatOne
    } else {
        PlayMode::Shuffle
    }
}

impl PlayMode {
    pub fn from_config(value: &str) -> (r: Self)
        ensures
            r == mode_of(value@),
    {
        if str_eq(value, "sequential") {
            PlayMode::Sequential
        } else if str_eq(value, "repeat-one") {
            PlayMode::RepeatOne
        } else {
            PlayMode::Shuffle
        }
    }

    pub fn as_str(self) -> (r: &'static str)
        ensures
            r@ == mode_name(self),
    {
        match self {
            PlayMode::Sequential => "sequential",
            PlayMode::Shuffle => "shuffle",
            PlayMode::RepeatOne => "repeat-one",
        }
    }
}

/// Every play mode survives a trip through its config spelling.
pub proof fn play_mode_round_trip(m: PlayMode)
    ensures
        mode_of(mode_name(m)) == m,
{
    reveal_strlit("sequential");
    reveal_strlit("shuffle");
    reveal_strlit("repeat-one");
    assert("shuffle"@[1] != "sequential"@[1]);
    assert("shuffle"@[1] != "repeat-one"@[1]);
    assert("repeat-one"@[0] != "sequential"@[0]);
}

/// What the audio thread is currently playing.
#[derive(Debug, Clone)]
pub struct NowPlaying {
    pub path: String,
    pub title: String,
    pub artist: String,
}

impl Default for NowPlaying {
    fn default() -> (r: Self)
        ensures
            r.path@.len() == 0,
            r.title@.len() == 0,
            r.artist@.len() == 0,
    {
        NowPlaying { path: String::new(), title: String::new(), artist: String::new() }
    }
}

/// The UI volume scale tops out at 100.
pub fn clamp_volume(v: u32) -> (r: u32)
    ensures
        r == (if v > 100 {
            100
        } else {
            v
        }),
{
    if v > 100 {
        100
    } else {
        v
    }
}

/// The lock that guards the track text shared with the UI thread.
#[verifier::external_type_specification]
#[verifier::external_body]
#[verifier::reject_recursive_types(T)]
pub struct ExMutex<T: ?Sized>(std::sync::Mutex<T>);

/// `Mutex::new` (std): a new, unlocked lock holding `now`. Nothing is stated
/// of the lock; the UI reads it with `lock`.
#[verifier::external_body]
fn new_lock(now: NowPlaying) -> std::sync::Mutex<NowPlaying> {
    std::sync::Mutex::new(now)
}

/// Shared with the UI thread. Scalars are atomics; the text is behind a lock
/// and guarded by `generation`, which the audio thread bumps whenever it
/// changes.
pub struct PlayerState {
    pub pos_ms: std::sync::atomic::AtomicU64,
    pub dur_ms: std::sync::atomic::AtomicU64,
    pub playing: std::sync::atomic::AtomicBool,
    pub volume: std::sync::atomic::AtomicU32,
    pub generation: std::sync::atomic::AtomicU64,
    pub now: std::sync::Mutex<NowPlaying>,
    /// Set when the output device could not be opened (e.g. not ready at boot).
    pub device_error: std::sync::atomic::AtomicBool,
}

impl PlayerState {
    /// Nothing playing, at `volume` capped to 100.
    pub fn new(volume: u32) -> Self {
        PlayerState {
            pos_ms: std::sync::atomic::AtomicU64::new(0),
            dur_ms: std::sync::atomic::AtomicU64::new(0),
            playing: std::sync::atomic::AtomicBool::new(false),
            volume: std::sync::atomic::AtomicU32::new(clamp_volume(volume)),
            generation: std::sync::atomic::AtomicU64::new(0),
            now: new_lock(NowPlaying::default()),
            device_error: std::sync::atomic::AtomicBool::new(false),
        }
    }
}

/// On a pool of strings what [`pick`] hands out is the entry itself, not
/// merely a clone of it: a cloned `String` equals the original. So the
/// sequential pick is the entry under the cursor and a shuffle pick is one of
/// the pool's entries.
pub proof fn picks_from_strings_are_the_entries(pool: Seq<String>, i: int, r: String)
    requires
        0 <= i < pool.len(),
        cloned(pool[i], r),
    ensures
        r == pool[i],
        pool.contains(r),
{
}

/// Picks the next track. `Sequential` walks the pool with a wrapping cursor,
/// `Shuffle` draws uniformly, and `RepeatOne` replays the current track,
/// falling back to the sequential cursor for the very first pick. An empty
/// pool picks nothing.
pub fn pick<T: Clone>(
    pool: &[T],
    mode: PlayMode,
    seq_pos: &mut usize,
    current: Option<&T>,
    rng: &mut rand::rngs::ThreadRng,
) -> (r: Option<T>)
    ensures
        pool@.len() == 0 ==> r is None && *final(seq_pos) == *old(seq_pos),
        pool@.len() > 0 ==> r is Some,
        pool@.len() > 0 && (mode == PlayMode::Sequential || (mode == PlayMode::RepeatOne
            && current is None)) ==> {
            &&& cloned(pool@[(*old(seq_pos) as int) % (pool@.len() as int)], r->0)
            &&& *final(seq_pos) == (*old(seq_pos) + 1) % (pool@.len() as int)
        },
        pool@.len() > 0 && mode == PlayMode::Shuffle ==> {
            &&& exists|i: int| 0 <= i < pool@.len() && cloned(pool@[i], r->0)
            &&& *final(seq_pos) == *old(seq_pos)
        },
        pool@.len() > 0 && mode == PlayMode::RepeatOne && current is Some ==> {
            &&& cloned(*current->0, r->0)
            &&& *final(seq_pos) == *old(seq_pos)
        },
{
    let n = pool.len();
    if n == 0 {
        return None;
    }
    match mode {
        PlayMode::Shuffle => {
            let i = random_index(rng, n);
            let t = pool[i].clone();
            Some(t)
        },
        PlayMode::RepeatOne if current.is_some() => {
            let c = current.unwrap();
            Some(c.clone())
        },
        _ => {
            let at = *seq_pos % n;
            let t = pool[at].clone();
            *seq_pos = (at + 1) % n;
            proof {
                let s = *old(seq_pos) as int;
                vstd::arithmetic::div_mod::lemma_fundamental_div_mod(s, n as int);
                vstd::arithmetic::div_mod::lemma_mod_add_multiples_vanish(
                    (at as int) + 1,
                    n as int,
                );
                vstd::arithmetic::div_mod::lemma_mod_multiples_vanish(
                    s / (n as int),
                    (at as int) + 1,
                    n as int,
                );
                assert(s + 1 == (n as int) * (s / (n as int)) + ((at as int) + 1));
            }
            Some(t)
        },
    }
}


/// Tracks remembered for "previous" once playback moves on by itself.
pub const HISTORY_LIMIT: usize = 200;

/// The audio thread's bookkeeping, apart from the device and decoder handles.
///
/// `P` is a track (its path) and `D` its duration. The player is handed every
/// track in `appended` after `current`, so the player's length drops below
/// `current + appended` exactly when a track has finished.
pub struct Engine<P, D> {
    /// Every track the library walk has found so far.
    pub pool: Vec<P>,
    pub mode: PlayMode,
    /// Automatic start; turned off by the user's autoplay setting.
    pub autoplay: bool,
    /// The sequential cursor into `pool`.
    pub seq_pos: usize,
    /// Set by "previous" (or a device change) so the next fill plays this
    /// track instead of picking one.
    pub override_next: Option<P>,
    /// Tracks appended to the player but not yet started, in order.
    pub appended: Vec<(P, D)>,
    /// The track currently audible.
    pub current: Option<(P, D)>,
    pub history: Vec<P>,
    /// Set whenever the queue is rebuilt; cleared once playback starts.
    pub needs_play: bool,
    /// Set when playback must resume even though autoplay is off, because
    /// the user was already listening (a device change).
    pub force_play: bool,
}

/// The content of an [`Engine`], its lists taken as sequences.
pub struct EngineView<P, D> {
    pub pool: Seq<P>,
    pub mode: PlayMode,
    pub autoplay: bool,
    pub seq_pos: usize,
    pub override_next: Option<P>,
    pub appended: Seq<(P, D)>,
    pub current: Option<(P, D)>,
    pub history: Seq<P>,
    pub needs_play: bool,
    pub force_play: bool,
}

impl<P, D> View for Engine<P, D> {
    type V = EngineView<P, D>;

    open spec fn view(&self) -> EngineView<P, D> {
        EngineView {
            pool: self.pool@,
            mode: self.mode,
            autoplay: self.autoplay,
            seq_pos: self.seq_pos,
            override_next: self.override_next,
            appended: self.appended@,
            current: self.current,
            history: self.history@,
            needs_play: self.needs_play,
            force_play: self.force_play,
        }
    }
}

/// "Next": nothing stays queued, the current track goes on the history, and
/// a new track is to be started.
pub open spec fn next_model<P, D>(e: EngineView<P, D>) -> EngineView<P, D> {
    EngineView {
        appended: Seq::empty(),
        current: None,
        history: match e.current {
            Some(c) => e.history.push(c.0),
            None => e.history,
        },
        needs_play: true,
        ..e
    }
}

/// "Previous": with a history, its last track is queued to play next,
/// nothing else stays queued, and the track being skipped takes its place on
/// the history; without one, nothing changes. The flag says which.
pub open spec fn prev_model<P, D>(e: EngineView<P, D>) -> (EngineView<P, D>, bool) {
    if e.history.len() > 0 {
        (
            EngineView {
                override_next: Some(e.history.last()),
                appended: Seq::empty(),
                current: None,
                history: match e.current {
                    Some(c) => e.history.drop_last().push(c.0),
                    None => e.history.drop_last(),
                },
                needs_play: true,
                ..e
            },
            true,
        )
    } else {
        (e, false)
    }
}

/// After "next", "previous" brings back the track that was skipped: it is
/// queued to play next, and the history is as before.
pub proof fn previous_undoes_next<P, D>(e: EngineView<P, D>)
    requires
        e.current is Some,
    ensures
        prev_model(next_model(e)).1,
        prev_model(next_model(e)).0.override_next == Some((e.current->0).0),
        prev_model(next_model(e)).0.history == e.history,
{
    assert(e.history.push((e.current->0).0).drop_last() =~= e.history);
}

/// Stepping back twice in a row returns to the track that was playing: it is
/// queued to play next, and the history has lost only the track stepped
/// back to.
pub proof fn stepping_back_twice_returns<P, D>(e: EngineView<P, D>)
    requires
        e.current is Some,
        e.history.len() > 0,
    ensures
        prev_model(prev_model(e).0).1,
        prev_model(prev_model(e).0).0.override_next == Some((e.current->0).0),
        prev_model(prev_model(e).0).0.history == e.history.drop_last(),
{
    assert(e.history.drop_last().push((e.current->0).0).drop_last() =~= e.history.drop_last());
}

impl<P: Clone, D: Clone> Engine<P, D> {
    /// Nothing queued, shuffle, autoplay on, waiting for a first queue.
    pub fn new() -> (e: Self)
        ensures
            e.pool@.len() == 0,
            e.mode == PlayMode::Shuffle,
            e.autoplay,
            e.seq_pos == 0,
            e.override_next is None,
            e.appended@.len() == 0,
            e.current is None,
            e.history@.len() == 0,
            e.needs_play,
            !e.force_play,
    {
        Engine {
            pool: Vec::new(),
            mode: PlayMode::Shuffle,
            autoplay: true,
            seq_pos: 0,
            override_next: None,
            appended: Vec::new(),
            current: None,
            history: Vec::new(),
            needs_play: true,
            force_play: false,
        }
    }

    /// Adds to the pool without disturbing what is playing.
    pub fn enqueue(&mut self, paths: Vec<P>)
        ensures
            final(self)@ == (EngineView { pool: old(self)@.pool + paths@, ..old(self)@ }),
    {
        let mut paths = paths;
        self.pool.append(&mut paths);
    }

    /// Replaces the pool but keeps the current track playing: changing the
    /// scan scope must not interrupt what is being listened to.
    pub fn set_pool(&mut self, paths: Vec<P>)
        ensures
            final(self)@ == (EngineView { pool: paths@, seq_pos: 0, ..old(self)@ }),
    {
        self.pool = paths;
        self.seq_pos = 0;
    }

    /// Gates automatic start. Turning it off cancels a pending automatic
    /// start but never pauses what is already playing.
    pub fn set_autoplay(&mut self, on: bool)
        ensures
            final(self)@ == (EngineView {
                autoplay: on,
                needs_play: old(self).needs_play && on,
                ..old(self)@
            }),
    {
        self.autoplay = on;
        if !on {
            self.needs_play = false;
        }
    }

    /// A new queue: the player is cleared by the caller, and everything
    /// about the old queue is forgotten.
    pub fn set_queue(&mut self, paths: Vec<P>)
        ensures
            final(self)@ == (EngineView {
                pool: paths@,
                seq_pos: 0,
                appended: Seq::empty(),
                current: None,
                history: Seq::empty(),
                needs_play: true,
                ..old(self)@
            }),
    {
        self.appended = Vec::new();
        self.current = None;
        self.history = Vec::new();
        self.pool = paths;
        self.seq_pos = 0;
        self.needs_play = true;
    }

    /// The user paused or resumed; the caller flips the player. Any pending
    /// automatic start is dropped.
    pub fn toggle_pause(&mut self)
        ensures
            final(self)@ == (EngineView { needs_play: false, ..old(self)@ }),
    {
        self.needs_play = false;
    }

    /// Skips ahead: the caller clears the player; the current track goes on
    /// the history.
    pub fn next(&mut self)
        ensures
            final(self)@ == next_model(old(self)@),
    {
        self.appended = Vec::new();
        if let Some(c) = self.current.take() {
            self.history.push(c.0);
        }
        self.needs_play = true;
    }

    /// Steps back to the last track in the history, if there is one; returns
    /// whether it did, in which case the caller clears the player. The track
    /// being skipped goes on the history, so stepping back again returns to it.
    pub fn prev(&mut self) -> (r: bool)
        ensures
            (final(self)@, r) == prev_model(old(self)@),
    {
        match self.history.pop() {
            Some(prev) => {
                self.appended = Vec::new();
                if let Some(c) = self.current.take() {
                    self.history.push(c.0);
                }
                self.override_next = Some(prev);
                self.needs_play = true;
                true
            },
            None => false,
        }
    }

    /// Publishes the first track once something is queued: when nothing is
    /// current, the head of `appended` becomes current. Returns whether the
    /// current track changed.
    pub fn promote_first(&mut self) -> (r: bool)
        ensures
            r == (old(self).current is None && old(self).appended@.len() > 0),
            r ==> final(self)@ == (EngineView {
                current: Some(old(self).appended@[0]),
                appended: old(self).appended@.drop_first(),
                ..old(self)@
            }),
            !r ==> final(self)@ == old(self)@,
    {
        if self.current.is_none() && self.appended.len() > 0 {
            let head = self.appended.remove(0);
            self.current = Some(head);
            true
        } else {
            false
        }
    }

    /// How many tracks the player should be holding.
    pub open spec fn queued(&self) -> int {
        (if self.current is Some {
            1int
        } else {
            0int
        }) + self.appended@.len()
    }

    /// Detects the hand-off to the next track: the player holds fewer sources
    /// than `current + appended`, so one finished. The finished track goes on
    /// the (bounded) history and the head of `appended` becomes current.
    /// Returns whether that happened, in which case the caller republishes.
    pub fn hand_off(&mut self, player_len: usize) -> (r: bool)
        ensures
            r == (player_len < old(self).queued()),
            !r ==> final(self)@ == old(self)@,
            r ==> final(self)@ == (EngineView {
                current: if old(self).appended@.len() > 0 {
                    Some(old(self).appended@[0])
                } else {
                    None
                },
                appended: if old(self).appended@.len() > 0 {
                    old(self).appended@.drop_first()
                } else {
                    old(self).appended@
                },
                history: match old(self).current {
                    Some(c) => if old(self).history@.len() + 1 > HISTORY_LIMIT {
                        old(self).history@.push(c.0).drop_first()
                    } else {
                        old(self).history@.push(c.0)
                    },
                    None => old(self).history@,
                },
                ..old(self)@
            }),
            old(self).history@.len() <= HISTORY_LIMIT ==> final(self).history@.len() <= HISTORY_LIMIT,
    {
        let queued: usize = if self.current.is_some() {
            1
        } else {
            0
        };
        if !(player_len < queued || player_len - queued < self.appended.len()) {
            return false;
        }
        if let Some(c) = self.current.take() {
            self.history.push(c.0);
            if self.history.len() > HISTORY_LIMIT {
                self.history.remove(0);
            }
        }
        if self.appended.len() > 0 {
            let head = self.appended.remove(0);
            self.current = Some(head);
        }
        true
    }

    /// The next track to hand to the player: the override left by "previous"
    /// if any, otherwise a pick from the pool by the play mode.
    pub fn next_track(&mut self, rng: &mut rand::rngs::ThreadRng) -> (r: Option<P>)
        ensures
            old(self).override_next is Some ==> r == old(self).override_next
                && final(self).override_next is None && final(self).seq_pos == old(self).seq_pos,
            old(self).override_next is None && old(self).pool@.len() == 0 ==> r is None
                && final(self).seq_pos == old(self).seq_pos,
            old(self).override_next is None && old(self).pool@.len() > 0 ==> r is Some,
            old(self).override_next is None && old(self).pool@.len() > 0 && (old(self).mode
                == PlayMode::Sequential || (old(self).mode == PlayMode::RepeatOne && old(
                self,
            ).current is None)) ==> {
                &&& cloned(
                    old(self).pool@[(old(self).seq_pos as int) % (old(self).pool@.len() as int)],
                    r->0,
                )
                &&& final(self).seq_pos == (old(self).seq_pos + 1) % (old(self).pool@.len() as int)
            },
            old(self).override_next is None && old(self).pool@.len() > 0 && old(self).mode
                == PlayMode::Shuffle ==> {
                &&& exists|i: int| 0 <= i < old(self).pool@.len() && cloned(old(self).pool@[i], r->0)
                &&& final(self).seq_pos == old(self).seq_pos
            },
            old(self).override_next is None && old(self).pool@.len() > 0 && old(self).mode
                == PlayMode::RepeatOne && old(self).current is Some ==> {
                &&& cloned((old(self).current->0).0, r->0)
                &&& final(self).seq_pos == old(self).seq_pos
            },
            final(self)@ == (EngineView {
                override_next: None,
                seq_pos: final(self).seq_pos,
                ..old(self)@
            }),
    {
        match self.override_next.take() {
            Some(p) => Some(p),
            None => {
                let current = match &self.current {
                    Some(c) => Some(&c.0),
                    None => None,
                };
                pick(self.pool.as_slice(), self.mode, &mut self.seq_pos, current, rng)
            },
        }
    }

    /// Records a track the player accepted.
    pub fn appended_track(&mut self, path: P, duration: D)
        ensures
            final(self)@ == (EngineView {
                appended: old(self).appended@.push((path, duration)),
                ..old(self)@
            }),
    {
        self.appended.push((path, duration));
    }

    /// Whether to start the player now: a start is pending, autoplay (or a
    /// forced resume) allows it, and something is queued. Starting clears
    /// both flags.
    pub fn start_if_due(&mut self, player_len: usize) -> (r: bool)
        ensures
            r == (old(self).needs_play && (old(self).autoplay || old(self).force_play) && player_len
                > 0),
            r ==> final(self)@ == (EngineView { needs_play: false, force_play: false, ..old(self)@ }),
            !r ==> final(self)@ == old(self)@,
    {
        if self.needs_play && (self.autoplay || self.force_play) && player_len > 0 {
            self.needs_play = false;
            self.force_play = false;
            true
        } else {
            false
        }
    }

    /// The output device changed and the player was rebuilt: nothing is
    /// queued any more, the track that was playing is queued first again, and
    /// playback resumes only if it was playing. Returns that track.
    pub fn restart_on_new_device(&mut self, was_playing: bool) -> (r: Option<P>)
        ensures
            final(self)@ == (EngineView {
                override_next: match old(self).current {
                    Some(c) => Some(c.0),
                    None => None::<P>,
                },
                current: None,
                appended: Seq::empty(),
                needs_play: was_playing,
                force_play: was_playing,
                ..old(self)@
            }),
            r is Some == old(self).current is Some,
            r matches Some(x) ==> cloned((old(self).current->0).0, x),
    {
        let resume = match self.current.take() {
            Some(c) => Some(c.0),
            None => None,
        };
        self.appended = Vec::new();
        let copy = match &resume {
            Some(p) => Some(p.clone()),
            None => None,
        };
        self.override_next = resume;
        self.needs_play = was_playing;
        self.force_play = was_playing;
        copy
    }
}


/// The title and artist shown for a track: the tag's title when it is not
/// blank, else the file stem, else `unknown`; the tag's artist, trimmed, or
/// nothing. An untagged or unreadable file has neither tag value.
pub open spec fn track_text_spec(
    stem: Seq<char>,
    title: Option<Seq<char>>,
    artist: Option<Seq<char>>,
    unknown: Seq<char>,
) -> (Seq<char>, Seq<char>) {
    let fallback = if stem.len() > 0 {
        stem
    } else {
        unknown
    };
    (
        match title {
            Some(t) => if trim(t).len() > 0 {
                trim(t)
            } else {
                fallback
            },
            None => fallback,
        },
        match artist {
            Some(a) => trim(a),
            None => Seq::empty(),
        },
    )
}

pub fn track_text(stem: &str, title: Option<&str>, artist: Option<&str>, unknown: &str) -> (r: (String, String))
    ensures
        (r.0@, r.1@) == track_text_spec(
            stem@,
            crate::config::opt_str_view(title),
            crate::config::opt_str_view(artist),
            unknown@,
        ),
{
    let fallback = if stem.unicode_len() > 0 {
        String::from_str(stem)
    } else {
        String::from_str(unknown)
    };
    let shown = match title {
        Some(t) => {
            let tt = trim_str(t);
            if tt.unicode_len() > 0 {
                tt
            } else {
                fallback
            }
        },
        None => fallback,
    };
    let by = match artist {
        Some(a) => trim_str(a),
        None => String::new(),
    };
    (shown, by)
}

/// Whether a file name is an MP3 by its extension, in any case; MP3s get
/// the gapless decoder so they do not click between tracks.
pub fn is_mp3_name(name: &str) -> (r: bool)
    ensures
        r == (crate::library::extension_of(name@) matches Some(e) && crate::text::lower_ascii_seq(e)
            == "mp3"@),
{
    match crate::library::extension(name) {
        Some(e) => {
            let lowered = crate::text::ascii_lowercase(e.as_str());
            str_eq(lowered.as_str(), "mp3")
        },
        None => false,
    }
}

/// Where to resume a track on a new output device, in milliseconds: where it
/// was, but at least a second short of its end so a seek cannot run past the
/// last sample. A track of unknown length (0) resumes where it was.
pub fn resume_position(pos_ms: u64, dur_ms: u64) -> (r: u64)
    ensures
        r == (if dur_ms > 0 && pos_ms + 1000 >= dur_ms {
            if dur_ms >= 1000 {
                (dur_ms - 1000) as u64
            } else {
                0
            }
        } else {
            pos_ms
        }),
{
    if dur_ms > 0 && (pos_ms >= dur_ms || dur_ms - pos_ms <= 1000) {
        if dur_ms >= 1000 {
            dur_ms - 1000
        } else {
            0
        }
    } else {
        pos_ms
    }
}

} // verus!
