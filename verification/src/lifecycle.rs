//! The life of the file index behind the window: when it is rebuilt, when a rebuilt
//! index is swapped in, when the live index is written back to disk, and when the
//! window itself is first shown.
//!
//! Times are milliseconds on a clock that never runs backwards, as the application
//! reads it; an earlier reading than a stored one counts as no time passed.

use vstd::prelude::*;

use crate::watcher::{mount_of, names, spec_mount_of};

verus! {

/// Painted frames to wait for before the window is revealed.
pub const FRAMES_BEFORE_SHOW: u8 = 2;

/// The least time between two writes of the live index.
pub const INDEX_PERSIST_COOLDOWN_MS: u64 = 10000;

/// How long the files must have been still before the live index is written.
pub const INDEX_QUIET_WINDOW_MS: u64 = 3000;

/// Time passed from `at` to `now`, never negative.
pub open spec fn elapsed(at: u64, now: u64) -> int {
    if now >= at { now - at } else { 0 }
}

/// The flags and stamps that decide what the index does next.
#[derive(Debug, Clone, Copy, PartialEq, Eq, Structural)]
pub struct IndexState {
    /// A build of the index runs in the background.
    pub rebuild_running: bool,
    /// Another build was asked for while one could not start.
    pub rebuild_queued: bool,
    /// The live index is being written to disk.
    pub persisting: bool,
    /// The live index holds changes not yet written.
    pub dirty: bool,
    /// When the live index was last written.
    pub persisted_at: Option<u64>,
    /// When the last change to the files was applied.
    pub last_change_at: Option<u64>,
    /// The scanner key of a finished build that the caches still have to match.
    pub validated_key: Option<u64>,
}

/// An index at rest: nothing runs, nothing waits.
pub open spec fn spec_idle() -> IndexState {
    IndexState {
        rebuild_running: false,
        rebuild_queued: false,
        persisting: false,
        dirty: false,
        persisted_at: None,
        last_change_at: None,
        validated_key: None,
    }
}

/// Whether the files have been still for the quiet window.
pub open spec fn spec_quiet(s: IndexState, now: u64) -> bool {
    match s.last_change_at {
        None => true,
        Some(at) => elapsed(at, now) >= INDEX_QUIET_WINDOW_MS,
    }
}

/// A request for a build: it starts (and the request is consumed) unless one already
/// runs, the index is not ready, or a mod is being mounted; then it is queued.
pub open spec fn spec_request_rebuild(s: IndexState, vault_ready: bool, mounting: bool) -> (IndexState, bool) {
    if s.rebuild_running || !vault_ready || mounting {
        (IndexState { rebuild_queued: true, ..s }, false)
    } else {
        (IndexState { rebuild_queued: false, rebuild_running: true, ..s }, true)
    }
}

/// A request to write the live index: never while a write or a build is under way or
/// queued, nor without game data; inside the cooldown the write is put off (the index
/// stays dirty); otherwise it starts now.
pub open spec fn spec_persist(s: IndexState, game_present: bool, now: u64) -> (IndexState, bool) {
    if s.persisting || s.rebuild_running || s.rebuild_queued || !game_present {
        (s, false)
    } else if s.persisted_at matches Some(at) && elapsed(at, now) < INDEX_PERSIST_COOLDOWN_MS {
        (IndexState { dirty: true, ..s }, false)
    } else {
        (IndexState { dirty: false, persisted_at: Some(now), persisting: true, ..s }, true)
    }
}

/// The periodic tick: a dirty index is written once the files have been quiet.
pub open spec fn spec_auto_save(s: IndexState, game_present: bool, now: u64) -> (IndexState, bool) {
    if !s.dirty || !spec_quiet(s, now) {
        (s, false)
    } else {
        spec_persist(s, game_present, now)
    }
}

/// The write of the live index finished.
pub open spec fn spec_persisted(s: IndexState) -> IndexState {
    IndexState { persisting: false, ..s }
}

/// Changes to the files were applied to the live index.
pub open spec fn spec_touched(s: IndexState, now: u64) -> IndexState {
    IndexState { dirty: true, last_change_at: Some(now), ..s }
}

/// What the application does once a build has finished.
#[derive(Debug, Clone, PartialEq, Eq)]
pub enum Validated {
    /// The mod changed while indexing: the build is stale, index again.
    Stale,
    /// Swap in the rebuilt index, apply these changes that landed meanwhile, and
    /// index again when more were asked for.
    Adopt { replay: Vec<String>, again: bool },
    /// The stored index still matched, but more changes were asked for: index again.
    Again,
    /// Nothing to reconcile: the scanners may stop showing progress.
    Clear,
    /// Report name clashes and wait for the scanner caches to match this key.
    Reconcile(u64),
}

/// A finished build as the flags see it: the build stops and the queue is consumed;
/// a key to reconcile is kept only when nothing else follows.
pub open spec fn spec_finish(s: IndexState, rebuilt: bool, key: Option<u64>, mod_matches: bool) -> IndexState {
    let t = IndexState { rebuild_running: false, rebuild_queued: false, ..s };
    if !mod_matches || rebuilt || s.rebuild_queued || key is None {
        t
    } else {
        IndexState { validated_key: key, ..t }
    }
}

/// Whether `step` is what a finished build asks of the application (the replayed
/// changes aside).
pub open spec fn spec_finish_step(s: IndexState, rebuilt: bool, key: Option<u64>, mod_matches: bool, step: Validated) -> bool {
    if !mod_matches {
        step == Validated::Stale
    } else if rebuilt {
        step matches Validated::Adopt { again, .. } && again == s.rebuild_queued
    } else if s.rebuild_queued {
        step == Validated::Again
    } else {
        match key {
            None => step == Validated::Clear,
            Some(k) => step == Validated::Reconcile(k),
        }
    }
}

/// The scanner caches compared with the key a build left.
#[derive(Debug, Clone, Copy, PartialEq, Eq, Structural)]
pub enum Reconcile {
    /// No key is waiting.
    Idle,
    /// Some scanner has no cache yet; ask again later.
    Waiting,
    /// Every cache matches: the scanners may stop showing progress.
    Settled,
    /// A cache drifted from the current settings: drop the tables and rescan.
    Rescan,
}

/// The caches compared with the waiting key; the key is consumed once all caches answer.
pub open spec fn spec_reconcile(s: IndexState, cats: Option<u64>, enemies: Option<u64>, stages: Option<u64>) -> (IndexState, Reconcile) {
    match s.validated_key {
        None => (s, Reconcile::Idle),
        Some(k) => if cats is None || enemies is None || stages is None {
            (s, Reconcile::Waiting)
        } else if cats == Some(k) && enemies == Some(k) && stages == Some(k) {
            (IndexState { validated_key: None, ..s }, Reconcile::Settled)
        } else {
            (IndexState { validated_key: None, ..s }, Reconcile::Rescan)
        },
    }
}

/// A changed path as the watcher reports it, with its plain components.
#[derive(Debug, Clone)]
pub struct ChangedPath {
    pub path: String,
    /// The path's normal components, as the path holds them.
    pub parts: Vec<String>,
}

/// Whether a changed path lies under a mount (the game or a mod).
pub open spec fn mounted(c: ChangedPath) -> bool {
    spec_mount_of(names(c.parts@)) is Some
}

/// The changed paths that lie under a mount, in their order.
pub open spec fn under_mounts(changes: Seq<ChangedPath>) -> Seq<String>
    decreases changes.len(),
{
    if changes.len() == 0 {
        Seq::empty()
    } else {
        let rest = under_mounts(changes.drop_last());
        if mounted(changes.last()) {
            rest.push(changes.last().path)
        } else {
            rest
        }
    }
}

/// The changed paths the live index takes: none before the index is ready, else those
/// under a mount.
pub open spec fn kept_changes(vault_ready: bool, changes: Seq<ChangedPath>) -> Seq<String> {
    if vault_ready {
        under_mounts(changes)
    } else {
        Seq::empty()
    }
}

/// The index and the changes held back while a build runs.
#[derive(Debug, Clone)]
pub struct Indexing {
    pub state: IndexState,
    /// Paths that changed while a build ran, applied again once it is swapped in.
    pub replay: Vec<String>,
}

impl Indexing {
    /// An index at rest with nothing held back.
    pub fn new() -> (ix: Indexing)
        ensures
            ix.state == spec_idle(),
            ix.replay@.len() == 0,
    {
        Indexing {
            state: IndexState {
                rebuild_running: false,
                rebuild_queued: false,
                persisting: false,
                dirty: false,
                persisted_at: None,
                last_change_at: None,
                validated_key: None,
            },
            replay: Vec::new(),
        }
    }

    /// Whether the files have been still for the quiet window.
    pub fn quiet(&self, now: u64) -> (b: bool)
        ensures
            b == spec_quiet(self.state, now),
    {
        match self.state.last_change_at {
            None => true,
            Some(at) => if now >= at { now - at >= INDEX_QUIET_WINDOW_MS } else { false },
        }
    }

    /// A build is dispatched (at start-up, or when a request was granted).
    pub fn begin_build(&mut self)
        ensures
            final(self).state == (IndexState { rebuild_running: true, ..old(self).state }),
            final(self).replay@ == old(self).replay@,
    {
        self.state.rebuild_running = true;
    }

    /// Asks for a build; returns whether the application must dispatch it now.
    pub fn request_rebuild(&mut self, vault_ready: bool, mounting: bool) -> (start: bool)
        ensures
            (final(self).state, start) == spec_request_rebuild(old(self).state, vault_ready, mounting),
            final(self).replay@ == old(self).replay@,
    {
        if self.state.rebuild_running || !vault_ready || mounting {
            self.state.rebuild_queued = true;
            false
        } else {
            self.state.rebuild_queued = false;
            self.state.rebuild_running = true;
            true
        }
    }

    /// Asks to write the live index; returns whether the write must start now.
    pub fn persist(&mut self, game_present: bool, now: u64) -> (start: bool)
        ensures
            (final(self).state, start) == spec_persist(old(self).state, game_present, now),
            final(self).replay@ == old(self).replay@,
    {
        if self.state.persisting || self.state.rebuild_running || self.state.rebuild_queued || !game_present {
            return false;
        }
        if let Some(at) = self.state.persisted_at {
            let waited: u64 = if now >= at { now - at } else { 0 };
            if waited < INDEX_PERSIST_COOLDOWN_MS {
                self.state.dirty = true;
                return false;
            }
        }
        self.state.dirty = false;
        self.state.persisted_at = Some(now);
        self.state.persisting = true;
        true
    }

    /// The periodic tick; returns whether a write of the live index must start now.
    pub fn auto_save(&mut self, game_present: bool, now: u64) -> (start: bool)
        ensures
            (final(self).state, start) == spec_auto_save(old(self).state, game_present, now),
            final(self).replay@ == old(self).replay@,
    {
        if !self.state.dirty || !self.quiet(now) {
            return false;
        }
        self.persist(game_present, now)
    }

    /// The write of the live index finished.
    pub fn persisted(&mut self)
        ensures
            final(self).state == spec_persisted(old(self).state),
            final(self).replay@ == old(self).replay@,
    {
        self.state.persisting = false;
    }

    /// Changed paths reached the live index; while a build runs they are also kept to
    /// be applied again to the index that build will hand over.
    pub fn hold_back(&mut self, paths: &Vec<String>)
        ensures
            final(self).state == old(self).state,
            final(self).replay@ == if old(self).state.rebuild_running {
                old(self).replay@ + paths@
            } else {
                old(self).replay@
            },
    {
        if self.state.rebuild_running {
            let mut i: usize = 0;
            while i < paths.len()
                invariant
                    i <= paths.len(),
                    self.state == old(self).state,
                    self.replay@ == old(self).replay@ + paths@.subrange(0, i as int),
                decreases paths.len() - i,
            {
                self.replay.push(paths[i].clone());
                proof {
                    assert(paths@.subrange(0, i as int + 1) =~= paths@.subrange(0, i as int).push(paths@[i as int]));
                }
                i = i + 1;
            }
            assert(paths@.subrange(0, paths@.len() as int) =~= paths@);
        }
    }

    /// Changed paths arrive. Nothing is taken before the index is ready, and only paths
    /// under a mount are kept; while a build runs the kept paths are also held back.
    /// Returns the kept paths, in their order.
    pub fn take_changes(&mut self, vault_ready: bool, changes: &Vec<ChangedPath>) -> (kept: Vec<String>)
        ensures
            kept@ == kept_changes(vault_ready, changes@),
            final(self).state == old(self).state,
            final(self).replay@ == if old(self).state.rebuild_running {
                old(self).replay@ + kept@
            } else {
                old(self).replay@
            },
    {
        let mut kept: Vec<String> = Vec::new();
        if !vault_ready {
            return kept;
        }
        let mut i: usize = 0;
        while i < changes.len()
            invariant
                i <= changes.len(),
                kept@ == under_mounts(changes@.take(i as int)),
            decreases changes.len() - i,
        {
            let ghost before = changes@.take(i as int);
            proof {
                assert(changes@.take(i as int + 1).drop_last() =~= before);
                assert(changes@.take(i as int + 1).last() == changes@[i as int]);
            }
            let mount = mount_of(&changes[i].parts);
            if mount.is_some() {
                kept.push(changes[i].path.clone());
            }
            i = i + 1;
        }
        assert(changes@.take(changes@.len() as int) =~= changes@);
        self.hold_back(&kept);
        kept
    }

    /// The applied changes leave the live index dirty, stamped with the time.
    pub fn touched(&mut self, now: u64)
        ensures
            final(self).state == spec_touched(old(self).state, now),
            final(self).replay@ == old(self).replay@,
    {
        self.state.dirty = true;
        self.state.last_change_at = Some(now);
    }

    /// A build finished. `rebuilt` says whether it handed over a fresh index, `key` is
    /// the scanner key it computed, and `mod_matches` whether the mod it indexed is
    /// still the one meant to be active.
    pub fn finish(&mut self, rebuilt: bool, key: Option<u64>, mod_matches: bool) -> (step: Validated)
        ensures
            final(self).state == spec_finish(old(self).state, rebuilt, key, mod_matches),
            spec_finish_step(old(self).state, rebuilt, key, mod_matches, step),
            step matches Validated::Adopt { replay, .. } ==> replay@ == old(self).replay@,
            final(self).replay@ == if !mod_matches { old(self).replay@ } else { Seq::<String>::empty() },
    {
        let queued = self.state.rebuild_queued;
        self.state.rebuild_running = false;
        self.state.rebuild_queued = false;
        if !mod_matches {
            return Validated::Stale;
        }
        if rebuilt {
            let mut replay: Vec<String> = Vec::new();
            std::mem::swap(&mut replay, &mut self.replay);
            return Validated::Adopt { replay, again: queued };
        }
        self.replay = Vec::new();
        if queued {
            return Validated::Again;
        }
        match key {
            None => Validated::Clear,
            Some(k) => {
                self.state.validated_key = Some(k);
                Validated::Reconcile(k)
            },
        }
    }

    /// Compares the scanner caches with the key a build left.
    pub fn reconcile(&mut self, cats: Option<u64>, enemies: Option<u64>, stages: Option<u64>) -> (r: Reconcile)
        ensures
            (final(self).state, r) == spec_reconcile(old(self).state, cats, enemies, stages),
            final(self).replay@ == old(self).replay@,
    {
        match self.state.validated_key {
            None => Reconcile::Idle,
            Some(k) => {
                if cats.is_none() || enemies.is_none() || stages.is_none() {
                    return Reconcile::Waiting;
                }
                self.state.validated_key = None;
                let same = match (cats, enemies, stages) {
                    (Some(a), Some(b), Some(c)) => a == k && b == k && c == k,
                    _ => false,
                };
                if same { Reconcile::Settled } else { Reconcile::Rescan }
            },
        }
    }
}

/// The window's first appearance: it is revealed once enough frames were painted (so
/// it never shows blank), or on a fallback timer when no frame is ever reported.
#[derive(Debug, Clone, Copy, PartialEq, Eq, Structural)]
pub struct Reveal {
    pub frames_painted: u8,
    pub window_shown: bool,
}

/// A painted frame: counted (without overflow) until the window shows; the window shows
/// on the frame that reaches the threshold.
pub open spec fn spec_frame(r: Reveal) -> (Reveal, bool) {
    if r.window_shown {
        (r, false)
    } else {
        let f = if r.frames_painted == 255 { 255u8 } else { (r.frames_painted + 1) as u8 };
        if f < FRAMES_BEFORE_SHOW {
            (Reveal { frames_painted: f, window_shown: false }, false)
        } else {
            (Reveal { frames_painted: f, window_shown: true }, true)
        }
    }
}

/// The fallback timer fired: the window shows unless it already does.
pub open spec fn spec_fallback(r: Reveal) -> (Reveal, bool) {
    if r.window_shown {
        (r, false)
    } else {
        (Reveal { window_shown: true, ..r }, true)
    }
}

impl Reveal {
    /// A hidden window with no frame painted yet.
    pub fn new() -> (r: Reveal)
        ensures
            r == (Reveal { frames_painted: 0, window_shown: false }),
    {
        Reveal { frames_painted: 0, window_shown: false }
    }

    /// A frame was painted; returns whether the window must be shown now.
    pub fn frame_painted(&mut self) -> (show: bool)
        ensures
            (*final(self), show) == spec_frame(*old(self)),
    {
        if self.window_shown {
            return false;
        }
        self.frames_painted = self.frames_painted.saturating_add(1);
        if self.frames_painted < FRAMES_BEFORE_SHOW {
            return false;
        }
        self.window_shown = true;
        true
    }

    /// The fallback timer fired; returns whether the window must be shown now.
    pub fn fallback(&mut self) -> (show: bool)
        ensures
            (*final(self), show) == spec_fallback(*old(self)),
    {
        if self.window_shown {
            return false;
        }
        self.window_shown = true;
        true
    }
}

/// A build asked for while another runs is not lost: when the running build finishes
/// for the mod still meant to be active, the application is told to index again.
pub proof fn law_queued_build_follows(s: IndexState, vault_ready: bool, mounting: bool, rebuilt: bool, key: Option<u64>, step: Validated)
    requires
        s.rebuild_running,
        spec_finish_step(spec_request_rebuild(s, vault_ready, mounting).0, rebuilt, key, true, step),
    ensures
        !spec_request_rebuild(s, vault_ready, mounting).1,
        step == Validated::Again || step matches Validated::Adopt { again: true, .. },
{
}

/// One build at a time: a request while a build runs never starts another.
pub proof fn law_one_build_at_a_time(s: IndexState, vault_ready: bool, mounting: bool)
    requires
        s.rebuild_running,
    ensures
        !spec_request_rebuild(s, vault_ready, mounting).1,
        spec_request_rebuild(s, vault_ready, mounting).0.rebuild_running,
{
}

/// The live index is written at most once per cooldown: after a write starts at `t`,
/// whatever changes are applied and however the write ends, no write starts again before
/// the cooldown has passed, and the index stays dirty meanwhile.
pub proof fn law_persist_cooldown(s: IndexState, t: u64, changed_at: u64, later: u64)
    requires
        spec_persist(s, true, t).1,
        later >= t,
        later - t < INDEX_PERSIST_COOLDOWN_MS,
    ensures
        ({
            let after = spec_touched(spec_persisted(spec_persist(s, true, t).0), changed_at);
            !spec_auto_save(after, true, later).1 && !spec_persist(after, true, later).1
                && spec_persist(after, true, later).0.dirty
        }),
{
}

/// Changes are written eventually: a dirty index, once the files are quiet, nothing is
/// being built or written and the cooldown has passed, is written on the next tick and
/// is then clean.
pub proof fn law_dirty_index_is_written(s: IndexState, now: u64)
    requires
        s.dirty,
        !s.persisting,
        !s.rebuild_running,
        !s.rebuild_queued,
        spec_quiet(s, now),
        s.persisted_at matches Some(at) ==> elapsed(at, now) >= INDEX_PERSIST_COOLDOWN_MS,
    ensures
        spec_auto_save(s, true, now).1,
        !spec_auto_save(s, true, now).0.dirty,
        spec_auto_save(s, true, now).0.persisting,
{
}

/// A write never starts while a build runs or waits, so it never races the index the
/// build will hand over.
pub proof fn law_no_write_during_build(s: IndexState, game_present: bool, now: u64)
    requires
        s.rebuild_running || s.rebuild_queued,
    ensures
        !spec_auto_save(s, game_present, now).1,
        !spec_persist(s, game_present, now).1,
{
}

/// A key is reconciled once: after the caches answer (all matching or not), the next
/// comparison finds nothing waiting.
pub proof fn law_reconcile_once(s: IndexState, cats: Option<u64>, enemies: Option<u64>, stages: Option<u64>, c2: Option<u64>, e2: Option<u64>, s2: Option<u64>)
    requires
        spec_reconcile(s, cats, enemies, stages).1 == Reconcile::Settled
            || spec_reconcile(s, cats, enemies, stages).1 == Reconcile::Rescan,
    ensures
        spec_reconcile(spec_reconcile(s, cats, enemies, stages).0, c2, e2, s2).1 == Reconcile::Idle,
{
}

/// A fresh window is revealed on its second painted frame, not before, and only once.
pub proof fn law_reveal_on_second_frame()
    ensures
        ({
            let r0 = Reveal { frames_painted: 0, window_shown: false };
            let (r1, first) = spec_frame(r0);
            let (r2, second) = spec_frame(r1);
            let (r3, third) = spec_frame(r2);
            !first && second && !third && r3.window_shown && !spec_fallback(r3).1
        }),
{
}

/// Once shown, the window is never shown again, by a frame or by the fallback.
pub proof fn law_shown_once(r: Reveal)
    requires
        r.window_shown,
    ensures
        spec_frame(r) == (r, false),
        spec_fallback(r) == (r, false),
{
}

/// Ends a start-up phase: returns the milliseconds it took (none when the clock reads
/// earlier) and starts the next phase now.
pub fn split(phase: &mut u64, now: u64) -> (took: u64)
    ensures
        took == elapsed(*old(phase), now),
        *final(phase) == now,
{
    let took = if now >= *phase { now - *phase } else { 0 };
    *phase = now;
    took
}

} // verus!
