//! The file watcher's rules: which file events matter, how a burst of writes is held
//! back until each file stops changing, and when a flood of changes becomes one re-index.

use vstd::prelude::*;
use crate::seqs::{lemma_push_unique, lemma_remove_unique, lemma_index_of_unique};
use crate::text::{all_digits, chars_of, dec_value, has_prefix_at, is_digit, parse_digits_u32, same_text};

verus! {

/// The folder that holds the unpacked game data.
pub const GAME: &'static str = "game";
/// The folder that holds the installed mods, one folder each.
pub const MODS: &'static str = "mods";
/// The folder of the animation studio's workspace.
pub const STUDIO: &'static str = "studio";
/// The folder of the battle sandbox.
pub const SANDBOX: &'static str = "sandbox";

/// The number of paths that may wait at once before the watcher gives up on them and
/// asks for a full re-index instead.
pub const BULK_THRESHOLD: usize = 512;
/// How long settled paths are gathered before they are handed on together (ms).
pub const COALESCE_MS: u64 = 20;
/// How long a settling file waits between two looks at it (ms).
pub const SETTLE_POLL_MS: u64 = 15;
/// How long a file may keep changing before it is handed on anyway (ms).
pub const SETTLE_CEILING_MS: u64 = 2000;
/// How long a flood of changes must stay quiet before the full re-index (ms).
pub const BULK_QUIET_MS: u64 = 500;
/// How long the watcher sleeps when nothing is pending (ms).
pub const IDLE_TICK_MS: u64 = 2000;
/// The shortest sleep between two rounds (ms).
pub const FLOOR_MS: u64 = 1;
/// Times are milliseconds on a monotonic clock below this bound, so every deadline fits.
pub const TIME_LIMIT: u64 = 0x1000_0000_0000_0000;

/// A game asset that a file name stands for.
#[derive(Debug, Clone, Copy, PartialEq, Eq)]
pub enum Asset {
    Unit(u32),
    Enemy(u32),
    Item(u32),
}

/// Why live reload could not start.
#[derive(Debug, Clone, Copy, PartialEq, Eq)]
pub enum Lapse {
    Crowded,
    Broken,
}

/// What the watcher reports to the application.
#[derive(Debug, Clone)]
pub enum Change {
    Batch(Vec<String>),
    Bulk,
    Unavailable(Lapse),
}

/// The kind of modification a file event reports.
#[derive(Debug, Clone, Copy, PartialEq, Eq)]
pub enum ModifyKind {
    Any,
    Data,
    Metadata,
    Name,
    Other,
}

/// The kind of a file event.
#[derive(Debug, Clone, Copy, PartialEq, Eq)]
pub enum EventKind {
    Any,
    Access,
    Create,
    Modify(ModifyKind),
    Remove,
    Other,
}

/// Whether an event already leaves the file complete, so that it needs no settling.
pub open spec fn spec_settled(kind: EventKind) -> bool {
    kind matches EventKind::Remove || kind matches EventKind::Modify(ModifyKind::Name)
}

/// Whether the paths of an event are passed on at all: never while the watcher is
/// suspended for a bulk job, and never for mere reads.
pub open spec fn spec_forwarded(kind: EventKind, suspended: bool) -> bool {
    !suspended && !(kind matches EventKind::Access)
}

/// Events that leave the file complete (a removal or a rename into place) skip the wait.
pub fn settled(kind: EventKind) -> (b: bool)
    ensures
        b == spec_settled(kind),
{
    match kind {
        EventKind::Remove => true,
        EventKind::Modify(ModifyKind::Name) => true,
        _ => false,
    }
}

/// Whether the paths of an event are passed on.
pub fn forwarded(kind: EventKind, suspended: bool) -> (b: bool)
    ensures
        b == spec_forwarded(kind, suspended),
{
    match kind {
        EventKind::Access => false,
        _ => !suspended,
    }
}

/// The length of the run of ASCII digits at the start of `s`.
pub open spec fn lead_len(s: Seq<char>) -> nat
    decreases s.len(),
{
    if s.len() > 0 && is_digit(s[0]) {
        1 + lead_len(s.drop_first())
    } else {
        0
    }
}

/// The id that leads a name: its leading digits, when there are some and they fit a `u32`.
pub open spec fn spec_leading_id(s: Seq<char>) -> Option<u32> {
    let digits = s.take(lead_len(s) as int);
    if lead_len(s) == 0 || dec_value(digits) > u32::MAX {
        None
    } else {
        Some(dec_value(digits) as u32)
    }
}

proof fn lemma_lead_len(s: Seq<char>)
    ensures
        lead_len(s) <= s.len(),
        all_digits(s.take(lead_len(s) as int)),
        lead_len(s) < s.len() ==> !is_digit(s[lead_len(s) as int]),
    decreases s.len(),
{
    if s.len() > 0 && is_digit(s[0]) {
        lemma_lead_len(s.drop_first());
        let n = lead_len(s.drop_first()) as int;
        assert forall|i: int| 0 <= i < n + 1 implies is_digit(#[trigger] s.take(n + 1)[i]) by {
            if i > 0 {
                assert(s.take(n + 1)[i] == s.drop_first().take(n)[i - 1]);
            }
        }
        if n + 1 < s.len() {
            assert(s[n + 1] == s.drop_first()[n]);
        }
    }
}

/// Finds where the leading digits of `v[from..]` end.
fn digits_end(v: &Vec<char>, from: usize) -> (end: usize)
    requires
        from <= v.len(),
    ensures
        end == from + lead_len(v@.subrange(from as int, v@.len() as int)),
    decreases v.len() - from,
{
    if from < v.len() && '0' <= v[from] && v[from] <= '9' {
        let end = digits_end(v, from + 1);
        assert(v@.subrange(from as int, v@.len() as int).drop_first() =~= v@.subrange(from + 1, v@.len() as int));
        end
    } else {
        proof { end_is_here(v, from); }
        from
    }
}

proof fn end_is_here(v: &Vec<char>, from: usize)
    requires
        from <= v.len(),
        !(from < v.len() && is_digit(v@[from as int])),
    ensures
        lead_len(v@.subrange(from as int, v@.len() as int)) == 0,
{
    let s = v@.subrange(from as int, v@.len() as int);
    if s.len() > 0 {
        assert(s[0] == v@[from as int]);
    }
}

/// The id that leads `v[from..]`.
fn leading_id_at(v: &Vec<char>, from: usize) -> (r: Option<u32>)
    requires
        from <= v.len(),
    ensures
        r == spec_leading_id(v@.subrange(from as int, v@.len() as int)),
{
    let ghost s = v@.subrange(from as int, v@.len() as int);
    proof {
        lemma_lead_len(s);
    }
    let end = digits_end(v, from);
    if end == from {
        return None;
    }
    assert(v@.subrange(from as int, end as int) =~= s.take(lead_len(s) as int));
    parse_digits_u32(v, from, end)
}

/// The id at the start of a name: `"044_f.png"` gives 44; a name that does not start
/// with a digit, or whose digits overflow a `u32`, gives `None`.
pub fn leading_id(text: &str) -> (r: Option<u32>)
    ensures
        r == spec_leading_id(text@),
{
    let v = chars_of(text);
    assert(v@.subrange(0, v@.len() as int) =~= text@);
    leading_id_at(&v, 0)
}

/// Whether `s` starts with `p`.
pub open spec fn starts(s: Seq<char>, p: Seq<char>) -> bool {
    p.len() <= s.len() && s.take(p.len() as int) == p
}

/// The asset that a file name stands for: enemy icons, item icons, and unit sprites
/// (`udi` or `uni` names), each followed by the id.
pub open spec fn spec_asset(name: Seq<char>) -> Option<Asset> {
    let enemy = "enemy_icon_"@;
    let item = "gatyaitemD_"@;
    if starts(name, enemy) {
        match spec_leading_id(name.skip(enemy.len() as int)) {
            Some(id) => Some(Asset::Enemy(id)),
            None => None,
        }
    } else if starts(name, item) {
        match spec_leading_id(name.skip(item.len() as int)) {
            Some(id) => Some(Asset::Item(id)),
            None => None,
        }
    } else if starts(name, "udi"@) || starts(name, "uni"@) {
        match spec_leading_id(name.skip(3)) {
            Some(id) => Some(Asset::Unit(id)),
            None => None,
        }
    } else {
        None
    }
}

fn prefixed(v: &Vec<char>, prefix: &str) -> (b: bool)
    ensures
        b == starts(v@, prefix@),
{
    let b = has_prefix_at(v, 0, prefix);
    assert(v@.subrange(0, prefix@.len() as int) =~= v@.take(prefix@.len() as int));
    b
}

/// The asset that a file name stands for, if any.
pub fn asset(name: &str) -> (r: Option<Asset>)
    ensures
        r == spec_asset(name@),
{
    let v = chars_of(name);
    proof {
        reveal_strlit("enemy_icon_");
        reveal_strlit("gatyaitemD_");
        reveal_strlit("udi");
        reveal_strlit("uni");
    }
    if prefixed(&v, "enemy_icon_") {
        assert(v@.subrange(11, v@.len() as int) =~= name@.skip(11));
        return match leading_id_at(&v, 11) {
            Some(id) => Some(Asset::Enemy(id)),
            None => None,
        };
    }
    if prefixed(&v, "gatyaitemD_") {
        assert(v@.subrange(11, v@.len() as int) =~= name@.skip(11));
        return match leading_id_at(&v, 11) {
            Some(id) => Some(Asset::Item(id)),
            None => None,
        };
    }
    if prefixed(&v, "udi") || prefixed(&v, "uni") {
        assert(v@.subrange(3, v@.len() as int) =~= name@.skip(3));
        return match leading_id_at(&v, 3) {
            Some(id) => Some(Asset::Unit(id)),
            None => None,
        };
    }
    None
}


/// The view of a list of names.
pub open spec fn names(v: Seq<String>) -> Seq<Seq<char>> {
    v.map_values(|s: String| s@)
}

/// The mount that a path belongs to, given its plain components: the game for anything
/// under the game folder, and the mod's own folder name for anything under the mods folder.
pub open spec fn spec_mount_of(parts: Seq<Seq<char>>) -> Option<Seq<char>>
    decreases parts.len(),
{
    if parts.len() == 0 {
        None
    } else if parts[0] == GAME@ {
        Some(GAME@)
    } else if parts[0] == MODS@ {
        if parts.len() > 1 {
            Some(parts[1])
        } else {
            None
        }
    } else {
        spec_mount_of(parts.drop_first())
    }
}

/// The mount of the path whose plain components are `parts`.
pub fn mount_of(parts: &Vec<String>) -> (r: Option<String>)
    ensures
        r matches Some(m) ==> spec_mount_of(names(parts@)) == Some(m@),
        r is None ==> spec_mount_of(names(parts@)) is None,
{
    let mut i: usize = 0;
    assert(names(parts@).skip(0) =~= names(parts@));
    while i < parts.len()
        invariant
            i <= parts.len(),
            spec_mount_of(names(parts@)) == spec_mount_of(names(parts@).skip(i as int)),
        decreases parts.len() - i,
    {
        let ghost rest = names(parts@).skip(i as int);
        assert(rest[0] == parts@[i as int]@);
        if same_text(parts[i].as_str(), GAME) {
            return Some(GAME.to_owned());
        }
        if same_text(parts[i].as_str(), MODS) {
            if i + 1 < parts.len() {
                assert(rest[1] == parts@[i + 1]@);
                return Some(parts[i + 1].clone());
            }
            return None;
        }
        assert(rest.drop_first() =~= names(parts@).skip(i + 1));
        i = i + 1;
    }
    assert(names(parts@).skip(i as int).len() == 0);
    None
}

/// Whether a (lower-case) component is one of the watched roots.
pub open spec fn watched(part: Seq<char>) -> bool {
    part == GAME@ || part == MODS@ || part == STUDIO@ || part == SANDBOX@
}

/// The first watched component at or after `i`, or the length when there is none.
pub open spec fn first_watched(parts: Seq<Seq<char>>, i: int) -> int
    decreases parts.len() - i,
{
    if i >= parts.len() {
        parts.len() as int
    } else if watched(parts[i]) {
        i
    } else {
        first_watched(parts, i + 1)
    }
}

/// Whether a change at a path matters: its file name is present and not junk, it lies
/// under a watched root, nothing below that root is junk, and it is either inside the
/// game folder or inside some folder of the other roots (a bare root entry is ignored).
/// `parts` are the path's plain components in lower case, `ignored[i]` says whether
/// `parts[i]` is junk, and `name_ok` whether the file name is present and not junk.
pub open spec fn spec_relevant(parts: Seq<Seq<char>>, ignored: Seq<bool>, name_ok: bool) -> bool {
    let root = first_watched(parts, 0);
    &&& name_ok
    &&& root < parts.len()
    &&& forall|j: int| root < j < parts.len() ==> !#[trigger] ignored[j]
    &&& (parts[root] == GAME@ || parts.len() > root + 1)
}

fn is_watched(part: &String) -> (b: bool)
    ensures
        b == watched(part@),
{
    same_text(part.as_str(), GAME) || same_text(part.as_str(), MODS) || same_text(part.as_str(), STUDIO)
        || same_text(part.as_str(), SANDBOX)
}

/// Whether a change at a path matters to the application.
pub fn is_relevant(parts: &Vec<String>, ignored: &Vec<bool>, name_ok: bool) -> (b: bool)
    requires
        ignored.len() == parts.len(),
    ensures
        b == spec_relevant(names(parts@), ignored@, name_ok),
{
    let ghost ps = names(parts@);
    if !name_ok {
        return false;
    }
    let mut root: usize = 0;
    while root < parts.len() && !is_watched(&parts[root])
        invariant
            root <= parts.len(),
            ps == names(parts@),
            first_watched(ps, 0) == first_watched(ps, root as int),
        decreases parts.len() - root,
    {
        assert(ps[root as int] == parts@[root as int]@);
        root = root + 1;
    }
    if root == parts.len() {
        return false;
    }
    assert(ps[root as int] == parts@[root as int]@);
    assert(first_watched(ps, root as int) == root);
    let mut j = root + 1;
    while j < parts.len()
        invariant
            root < j <= parts.len(),
            ignored.len() == parts.len(),
            ps == names(parts@),
            first_watched(ps, 0) == root,
            forall|k: int| root < k < j ==> !#[trigger] ignored@[k],
        decreases parts.len() - j,
    {
        if ignored[j] {
            assert(ignored@[j as int]);
            return false;
        }
        j = j + 1;
    }
    same_text(parts[root].as_str(), GAME) || parts.len() > root + 1
}


/// A changed file that is waited on until it holds still.
#[derive(Debug, Clone, Copy, PartialEq, Eq)]
pub struct Probe {
    /// The size seen at the last look, if the file could be read.
    pub size: Option<u64>,
    /// How many looks in a row found it unchanged and free.
    pub streak: u8,
    /// When to look next.
    pub due: u64,
    /// When to hand it on whatever it looks like.
    pub expires: u64,
}

impl Probe {
    /// A fresh probe for a file of the given size, seen at `now`.
    pub open spec fn spec_new(size: Option<u64>, now: u64) -> Probe {
        Probe {
            size,
            streak: 0,
            due: (now + SETTLE_POLL_MS) as u64,
            expires: (now + SETTLE_CEILING_MS) as u64,
        }
    }

    /// Starts waiting on a file of the given size, seen at `now`.
    pub fn new(size: Option<u64>, now: u64) -> (p: Probe)
        requires
            now < TIME_LIMIT,
        ensures
            p == Probe::spec_new(size, now),
    {
        Probe { size, streak: 0, due: now + SETTLE_POLL_MS, expires: now + SETTLE_CEILING_MS }
    }
}

/// One look at a waiting file: its size now and whether it is free (not a file at all,
/// or one that can be opened). The result is the updated probe, and whether the file is
/// handed on: after `goal` calm looks in a row, or once its time is up.
pub open spec fn looked(probe: Probe, size: Option<u64>, free: bool, now: u64, goal: u8) -> (Probe, bool) {
    let calm = size == probe.size && free;
    let streak: int = if calm { probe.streak + 1 } else { 0 };
    let released = !(streak < goal && now < probe.expires);
    (Probe { size, streak: streak as u8, due: (now + SETTLE_POLL_MS) as u64, expires: probe.expires }, released)
}

/// A change event for one path; `complete` when the event leaves the file whole.
#[derive(Debug, Clone)]
pub struct Hit {
    pub path: String,
    pub complete: bool,
}

/// The paths of a list of hits.
pub open spec fn hit_paths(h: Seq<Hit>) -> Seq<Seq<char>> {
    h.map_values(|x: Hit| x.path@)
}

/// The paths of an event that are marked relevant, in their order.
pub open spec fn relevant_paths(paths: Seq<String>, relevant: Seq<bool>) -> Seq<Seq<char>>
    decreases paths.len(),
{
    if paths.len() == 0 {
        Seq::empty()
    } else {
        let rest = relevant_paths(paths.drop_last(), relevant.take(paths.len() - 1));
        if relevant[paths.len() - 1] { rest.push(paths.last()@) } else { rest }
    }
}

/// The hits an event sends on: one per relevant path, in order, each complete when the
/// event's kind leaves files whole; none at all while suspended or for a mere read.
/// `relevant` says of each path whether it is watched and not junk.
pub fn hits(kind: EventKind, suspended: bool, paths: &Vec<String>, relevant: &Vec<bool>) -> (h: Vec<Hit>)
    requires
        paths.len() == relevant.len(),
    ensures
        hit_paths(h@) == if spec_forwarded(kind, suspended) { relevant_paths(paths@, relevant@) } else { Seq::empty() },
        forall|i: int| 0 <= i < h@.len() ==> (#[trigger] h@[i]).complete == spec_settled(kind),
{
    let mut h: Vec<Hit> = Vec::new();
    if !forwarded(kind, suspended) {
        assert(hit_paths(h@) =~= Seq::empty());
        return h;
    }
    let complete = settled(kind);
    let mut i: usize = 0;
    assert(hit_paths(h@) =~= relevant_paths(paths@.take(0), relevant@.take(0)));
    while i < paths.len()
        invariant
            i <= paths.len(),
            paths.len() == relevant.len(),
            complete == spec_settled(kind),
            hit_paths(h@) == relevant_paths(paths@.take(i as int), relevant@.take(i as int)),
            forall|j: int| 0 <= j < h@.len() ==> (#[trigger] h@[j]).complete == complete,
        decreases paths.len() - i,
    {
        proof {
            let p = paths@.take(i as int + 1);
            let r = relevant@.take(i as int + 1);
            assert(p.drop_last() =~= paths@.take(i as int));
            assert(r.take(p.len() - 1) =~= relevant@.take(i as int));
            assert(p.last() == paths@[i as int]);
            assert(r[p.len() - 1] == relevant@[i as int]);
        }
        if relevant[i] {
            let ghost before = h@;
            h.push(Hit { path: paths[i].clone(), complete });
            assert(hit_paths(h@) =~= hit_paths(before).push(paths@[i as int]@));
        }
        i = i + 1;
    }
    assert(paths@.take(paths@.len() as int) =~= paths@);
    assert(relevant@.take(relevant@.len() as int) =~= relevant@);
    h
}

/// A path waiting to settle, with its probe.
#[derive(Debug, Clone)]
pub struct Pending {
    pub path: String,
    pub probe: Probe,
}

/// The paths of pending entries.
pub open spec fn keys(v: Seq<Pending>) -> Seq<Seq<char>> {
    v.map_values(|e: Pending| e.path@)
}

/// The probe kept for path `q` among pending entries.
pub open spec fn probe_in(v: Seq<Pending>, q: Seq<char>) -> Probe {
    v[keys(v).index_of(q)].probe
}

/// The earlier of two optional times.
pub open spec fn earlier(a: Option<u64>, b: Option<u64>) -> Option<u64> {
    match (a, b) {
        (Some(x), Some(y)) => Some(if x <= y { x } else { y }),
        (Some(x), None) => Some(x),
        (None, _) => b,
    }
}

/// The earliest time at which a pending entry is due.
pub open spec fn earliest_due(v: Seq<Pending>) -> Option<u64>
    decreases v.len(),
{
    if v.len() == 0 {
        None
    } else {
        earlier(earliest_due(v.drop_last()), Some(v.last().probe.due))
    }
}

/// One look at a settling path: its size now, and whether it is free.
#[derive(Debug, Clone)]
pub struct Look {
    pub path: String,
    pub size: Option<u64>,
    pub free: bool,
}

/// The position of the first look at `q`, or -1.
pub open spec fn look_of(looks: Seq<Look>, q: Seq<char>) -> int
    decreases looks.len(),
{
    if looks.len() == 0 {
        -1
    } else {
        let r = look_of(looks.drop_last(), q);
        if r >= 0 { r } else if looks.last().path@ == q { looks.len() - 1 } else { -1 }
    }
}

proof fn lemma_look_of(looks: Seq<Look>, q: Seq<char>)
    ensures
        -1 <= look_of(looks, q) < looks.len(),
        look_of(looks, q) >= 0 ==> looks[look_of(looks, q)].path@ == q,
    decreases looks.len(),
{
    if looks.len() > 0 {
        lemma_look_of(looks.drop_last(), q);
        if look_of(looks.drop_last(), q) >= 0 {
            assert(looks.drop_last()[look_of(looks.drop_last(), q)] == looks[look_of(looks.drop_last(), q)]);
        }
    }
}

/// What `looks` did to the path `q` between `before` and `after`: a path that was
/// settling and due, and has a look, moved on as its first look says; any other path
/// is as it was.
pub open spec fn looked_at(before: Debouncer, after: Debouncer, looks: Seq<Look>, q: Seq<char>, now: u64) -> bool {
    let k = look_of(looks, q);
    if before.is_settling(q) && before.probe_of(q).due <= now && k >= 0 {
        let (next, released) = looked(before.probe_of(q), looks[k].size, looks[k].free, now, before.goal_view());
        if released {
            after.is_ready(q) && !after.is_settling(q)
        } else {
            !after.is_ready(q) && after.is_settling(q) && after.probe_of(q) == next
        }
    } else {
        &&& after.is_ready(q) == before.is_ready(q)
        &&& after.is_settling(q) == before.is_settling(q)
        &&& after.is_settling(q) ==> after.probe_of(q) == before.probe_of(q)
    }
}

/// Gathers change events into batches of settled paths. Files that are still being
/// written are held back until they stop changing; a flood of changes turns into one
/// request for a full re-index once it has been quiet for a while.
pub struct Debouncer {
    ready: Vec<String>,
    settling: Vec<Pending>,
    bulk: Option<u64>,
    flush_at: Option<u64>,
    goal: u8,
}

impl Debouncer {
    /// The settled paths waiting to be handed on.
    pub closed spec fn ready_view(self) -> Seq<Seq<char>> {
        names(self.ready@)
    }

    /// The paths that are still settling.
    pub closed spec fn settling_view(self) -> Seq<Seq<char>> {
        keys(self.settling@)
    }

    /// Whether `q` is settled and waiting to be handed on.
    pub open spec fn is_ready(self, q: Seq<char>) -> bool {
        self.ready_view().contains(q)
    }

    /// Whether `q` is still settling.
    pub open spec fn is_settling(self, q: Seq<char>) -> bool {
        self.settling_view().contains(q)
    }

    /// The settling entries, path and probe each.
    pub closed spec fn pending(self) -> Seq<Pending> {
        self.settling@
    }

    /// The probe of a settling path.
    pub closed spec fn probe_of(self, q: Seq<char>) -> Probe {
        probe_in(self.settling@, q)
    }

    /// When the pending flood turns into a full re-index, if one is pending.
    pub closed spec fn bulk_view(self) -> Option<u64> {
        self.bulk
    }

    /// When the settled paths are handed on, if that is scheduled.
    pub closed spec fn flush_view(self) -> Option<u64> {
        self.flush_at
    }

    /// How many calm looks in a row settle a file.
    pub closed spec fn goal_view(self) -> u8 {
        self.goal
    }

    /// The earliest time at which a settling path is due.
    pub closed spec fn next_due(self) -> Option<u64> {
        earliest_due(self.settling@)
    }

    /// The watcher's invariant: no path twice, no path both settled and settling, no more
    /// waiting paths than the flood threshold, and every probe short of its goal.
    pub closed spec fn wf(self) -> bool {
        &&& self.ready_view().no_duplicates()
        &&& self.settling_view().no_duplicates()
        &&& forall|q: Seq<char>| #[trigger] self.ready_view().contains(q) ==> !self.settling_view().contains(q)
        &&& self.ready@.len() + self.settling@.len() <= BULK_THRESHOLD
        &&& 1 <= self.goal
        &&& forall|i: int| 0 <= i < self.settling@.len() ==> #[trigger] self.settling@[i].probe.streak < self.goal
    }

    /// An idle watcher. On Windows one calm look settles a file, elsewhere two.
    pub fn new(windows: bool) -> (d: Debouncer)
        ensures
            d.wf(),
            forall|q: Seq<char>| !d.is_ready(q) && !d.is_settling(q),
            d.bulk_view() is None,
            d.flush_view() is None,
            d.goal_view() == (if windows { 1u8 } else { 2u8 }),
    {
        let d = Debouncer { ready: Vec::new(), settling: Vec::new(), bulk: None, flush_at: None, goal: if windows { 1 } else { 2 } };
        assert(d.ready_view() =~= Seq::empty());
        assert(d.settling_view() =~= Seq::empty());
        d
    }

    /// The number of paths waiting, settled or not.
    pub fn waiting(&self) -> (n: usize)
        requires
            self.wf(),
        ensures
            n == self.ready_view().len() + self.settling_view().len(),
    {
        self.ready.len() + self.settling.len()
    }

    fn find_ready(&self, path: &String) -> (r: Option<usize>)
        ensures
            r matches Some(i) ==> i < self.ready@.len() && self.ready_view()[i as int] == path@,
            r is None ==> !self.is_ready(path@),
    {
        let mut i: usize = 0;
        while i < self.ready.len()
            invariant
                i <= self.ready@.len(),
                forall|j: int| 0 <= j < i ==> self.ready_view()[j] != path@,
            decreases self.ready.len() - i,
        {
            if self.ready[i] == *path {
                return Some(i);
            }
            i = i + 1;
        }
        None
    }

    fn find_settling(&self, path: &String) -> (r: Option<usize>)
        ensures
            r matches Some(i) ==> i < self.settling@.len() && self.settling_view()[i as int] == path@,
            r is None ==> !self.is_settling(path@),
    {
        let mut i: usize = 0;
        while i < self.settling.len()
            invariant
                i <= self.settling@.len(),
                forall|j: int| 0 <= j < i ==> self.settling_view()[j] != path@,
            decreases self.settling.len() - i,
        {
            if self.settling[i].path == *path {
                return Some(i);
            }
            i = i + 1;
        }
        None
    }

    proof fn lemma_probe_at(self, i: int)
        requires
            self.settling_view().no_duplicates(),
            0 <= i < self.settling@.len(),
        ensures
            self.probe_of(self.settling_view()[i]) == self.settling@[i].probe,
    {
        lemma_index_of_unique(keys(self.settling@), i);
    }

    fn drop_ready(&mut self, i: usize)
        requires
            old(self).wf(),
            i < old(self).ready@.len(),
        ensures
            final(self).ready_view() == old(self).ready_view().remove(i as int),
            final(self).pending() == old(self).pending(),
            final(self).bulk == old(self).bulk,
            final(self).flush_at == old(self).flush_at,
            final(self).goal == old(self).goal,
    {
        self.ready.remove(i);
        assert(self.ready_view() =~= old(self).ready_view().remove(i as int));
    }

    fn drop_settling(&mut self, i: usize)
        requires
            old(self).wf(),
            i < old(self).settling@.len(),
        ensures
            final(self).settling@ == old(self).settling@.remove(i as int),
            final(self).settling_view() == old(self).settling_view().remove(i as int),
            final(self).ready == old(self).ready,
            final(self).bulk == old(self).bulk,
            final(self).flush_at == old(self).flush_at,
            final(self).goal == old(self).goal,
    {
        self.settling.remove(i);
        assert(self.settling_view() =~= old(self).settling_view().remove(i as int));
    }

    proof fn lemma_probes_after_remove(old_s: Seq<Pending>, i: int)
        requires
            keys(old_s).no_duplicates(),
            0 <= i < old_s.len(),
        ensures
            forall|q: Seq<char>| #[trigger] keys(old_s.remove(i)).contains(q) ==> probe_in(old_s.remove(i), q) == probe_in(old_s, q),
    {
        let new_s = old_s.remove(i);
        assert(keys(new_s) =~= keys(old_s).remove(i));
        lemma_remove_unique(keys(old_s), i);
        assert forall|q: Seq<char>| #[trigger] keys(new_s).contains(q) implies probe_in(new_s, q) == probe_in(old_s, q) by {
            let j = keys(new_s).index_of(q);
            lemma_index_of_unique(keys(new_s), j);
            let j2 = if j < i { j } else { j + 1 };
            assert(new_s[j] == old_s[j2]);
            assert(keys(old_s)[j2] == q);
            lemma_index_of_unique(keys(old_s), j2);
        }
    }

    proof fn lemma_probes_after_push(old_s: Seq<Pending>, e: Pending)
        requires
            keys(old_s).no_duplicates(),
            !keys(old_s).contains(e.path@),
        ensures
            keys(old_s.push(e)) == keys(old_s).push(e.path@),
            keys(old_s.push(e)).no_duplicates(),
            probe_in(old_s.push(e), e.path@) == e.probe,
            forall|q: Seq<char>| #[trigger] keys(old_s).contains(q) ==> probe_in(old_s.push(e), q) == probe_in(old_s, q),
    {
        let new_s = old_s.push(e);
        assert(keys(new_s) =~= keys(old_s).push(e.path@));
        lemma_push_unique(keys(old_s), e.path@);
        lemma_index_of_unique(keys(new_s), old_s.len() as int);
        assert forall|q: Seq<char>| #[trigger] keys(old_s).contains(q) implies probe_in(new_s, q) == probe_in(old_s, q) by {
            let j = keys(old_s).index_of(q);
            lemma_index_of_unique(keys(old_s), j);
            assert(keys(new_s)[j] == q);
            lemma_index_of_unique(keys(new_s), j);
        }
    }

    proof fn lemma_probes_after_update(old_s: Seq<Pending>, i: int, e: Pending)
        requires
            keys(old_s).no_duplicates(),
            0 <= i < old_s.len(),
            e.path@ == old_s[i].path@,
        ensures
            keys(old_s.update(i, e)) == keys(old_s),
            probe_in(old_s.update(i, e), e.path@) == e.probe,
            forall|q: Seq<char>| #[trigger] keys(old_s).contains(q) && q != e.path@ ==> probe_in(old_s.update(i, e), q) == probe_in(old_s, q),
    {
        let new_s = old_s.update(i, e);
        assert(keys(new_s) =~= keys(old_s));
        lemma_index_of_unique(keys(new_s), i);
        assert forall|q: Seq<char>| #[trigger] keys(old_s).contains(q) && q != e.path@ implies probe_in(new_s, q) == probe_in(old_s, q) by {
            let j = keys(old_s).index_of(q);
            lemma_index_of_unique(keys(old_s), j);
        }
    }

    /// Takes in one change event, with the file's size as seen now (used only when the
    /// file starts settling). During a flood, or when too many paths already wait, every
    /// pending path is dropped and the full re-index is put off until `now` plus the quiet
    /// time. A complete event hands its path on at once; any other event (re)starts the
    /// wait for its path.
    pub fn take_in(&mut self, hit: Hit, size: Option<u64>, now: u64)
        requires
            old(self).wf(),
            now < TIME_LIMIT,
        ensures
            final(self).wf(),
            final(self).flush_view() == old(self).flush_view(),
            final(self).goal_view() == old(self).goal_view(),
            ({
                let p = hit.path@;
                if old(self).bulk_view() is Some || old(self).ready_view().len() + old(self).settling_view().len() >= BULK_THRESHOLD {
                    &&& forall|q: Seq<char>| !final(self).is_ready(q) && !final(self).is_settling(q)
                    &&& final(self).bulk_view() == Some((now + BULK_QUIET_MS) as u64)
                } else if hit.complete {
                    &&& final(self).bulk_view() == old(self).bulk_view()
                    &&& forall|q: Seq<char>| #[trigger] final(self).is_ready(q) == (old(self).is_ready(q) || q == p)
                    &&& forall|q: Seq<char>| #[trigger] final(self).is_settling(q) == (old(self).is_settling(q) && q != p)
                    &&& forall|q: Seq<char>| #[trigger] final(self).is_settling(q) ==> final(self).probe_of(q) == old(self).probe_of(q)
                } else {
                    &&& final(self).bulk_view() == old(self).bulk_view()
                    &&& forall|q: Seq<char>| #[trigger] final(self).is_ready(q) == (old(self).is_ready(q) && q != p)
                    &&& forall|q: Seq<char>| #[trigger] final(self).is_settling(q) == (old(self).is_settling(q) || q == p)
                    &&& final(self).probe_of(p) == (if old(self).is_settling(p) {
                        Probe { streak: 0, due: (now + SETTLE_POLL_MS) as u64, ..old(self).probe_of(p) }
                    } else {
                        Probe::spec_new(size, now)
                    })
                    &&& forall|q: Seq<char>| #[trigger] final(self).is_settling(q) && q != p ==> final(self).probe_of(q) == old(self).probe_of(q)
                }
            }),
    {
        let ghost pre = *self;
        if self.bulk.is_some() || self.ready.len() + self.settling.len() >= BULK_THRESHOLD {
            self.ready.clear();
            self.settling.clear();
            self.bulk = Some(now + BULK_QUIET_MS);
            assert(self.ready_view() =~= Seq::empty());
            assert(self.settling_view() =~= Seq::empty());
            return;
        }
        let path = hit.path;
        let ghost p = path@;
        if hit.complete {
            match self.find_settling(&path) {
                Some(i) => {
                    let ghost before = self.settling@;
                    proof { lemma_remove_unique(keys(before), i as int); Self::lemma_probes_after_remove(before, i as int); }
                    self.drop_settling(i);
                    assert forall|k: int| 0 <= k < self.settling@.len() implies #[trigger] self.settling@[k].probe.streak < self.goal by {
                        let k2 = if k < i { k } else { k + 1 };
                        assert(self.settling@[k] == before[k2]);
                    }
                }
                None => {}
            }
            let ghost mid = *self;
            assert(forall|q: Seq<char>| #[trigger] mid.is_settling(q) == (pre.is_settling(q) && q != p));
            assert(forall|q: Seq<char>| #[trigger] mid.is_settling(q) ==> mid.probe_of(q) == pre.probe_of(q));
            match self.find_ready(&path) {
                Some(_) => {}
                None => {
                    let ghost before = self.ready_view();
                    proof { lemma_push_unique(before, path@); }
                    self.ready.push(path);
                    assert(self.ready_view() =~= before.push(p));
                }
            }
            assert(forall|q: Seq<char>| #[trigger] self.is_ready(q) == (pre.is_ready(q) || q == p));
            assert(self.settling_view() == mid.settling_view());
            assert(forall|q: Seq<char>| #[trigger] self.is_settling(q) == (pre.is_settling(q) && q != p));
            assert(forall|q: Seq<char>| !(self.is_ready(q) && self.is_settling(q)));
            assert(self.ready@.len() + self.settling@.len() <= BULK_THRESHOLD) by {
                if pre.is_settling(p) {
                    assert(self.settling@.len() == pre.settling@.len() - 1);
                }
            }
            return;
        }
        match self.find_ready(&path) {
            Some(i) => {
                let ghost before = self.ready_view();
                proof { lemma_remove_unique(before, i as int); }
                self.drop_ready(i);
            }
            None => {}
        }
        let ghost mid = *self;
        assert(forall|q: Seq<char>| #[trigger] mid.is_ready(q) == (pre.is_ready(q) && q != p));
        assert(mid.settling@ == pre.settling@);
        assert(mid.settling_view() == pre.settling_view());
        match self.find_settling(&path) {
            Some(i) => {
                let ghost before = self.settling@;
                let old_probe = self.settling[i].probe;
                proof { self.lemma_probe_at(i as int); }
                let renewed = Probe { streak: 0, due: now + SETTLE_POLL_MS, ..old_probe };
                let e = Pending { path, probe: renewed };
                proof { Self::lemma_probes_after_update(before, i as int, e); }
                self.settling.set(i, e);
                assert(self.settling@ == before.update(i as int, e));
                assert forall|k: int| 0 <= k < self.settling@.len() implies #[trigger] self.settling@[k].probe.streak < self.goal by {
                    if k != i {
                        assert(self.settling@[k] == before[k]);
                    }
                }
                assert(self.settling_view() == pre.settling_view());
            }
            None => {
                let ghost before = self.settling@;
                let e = Pending { path, probe: Probe::new(size, now) };
                proof { Self::lemma_probes_after_push(before, e); }
                self.settling.push(e);
                assert forall|k: int| 0 <= k < self.settling@.len() implies #[trigger] self.settling@[k].probe.streak < self.goal by {
                    if k < before.len() {
                        assert(self.settling@[k] == before[k]);
                    }
                }
                assert(self.settling_view() == pre.settling_view().push(p));
                proof { lemma_push_unique(pre.settling_view(), p); }
            }
        }
        assert(self.ready == mid.ready);
        assert(forall|q: Seq<char>| #[trigger] self.is_ready(q) == (pre.is_ready(q) && q != p));
        assert(forall|q: Seq<char>| #[trigger] self.is_settling(q) == (pre.is_settling(q) || q == p));
        assert(forall|q: Seq<char>| !(self.is_ready(q) && self.is_settling(q)));
        assert(self.ready@.len() + self.settling@.len() <= BULK_THRESHOLD) by {
            if pre.is_ready(p) {
                assert(self.ready@.len() == pre.ready@.len() - 1);
            }
        }
    }

    /// The settling paths that are due for a look at `now`.
    pub fn due(&self, now: u64) -> (r: Vec<String>)
        requires
            self.wf(),
        ensures
            forall|q: Seq<char>| #[trigger] names(r@).contains(q) <==> (self.is_settling(q) && self.probe_of(q).due <= now),
    {
        let mut out: Vec<String> = Vec::new();
        let mut i: usize = 0;
        while i < self.settling.len()
            invariant
                self.wf(),
                i <= self.settling@.len(),
                forall|q: Seq<char>| #[trigger] names(out@).contains(q) <==> exists|j: int| 0 <= j < i && self.settling@[j].path@ == q && self.settling@[j].probe.due <= now,
            decreases self.settling.len() - i,
        {
            let ghost before = names(out@);
            if self.settling[i].probe.due <= now {
                out.push(self.settling[i].path.clone());
                assert(names(out@) =~= before.push(self.settling@[i as int].path@));
                assert forall|q: Seq<char>| #[trigger] names(out@).contains(q) <==> exists|j: int| 0 <= j < i + 1 && self.settling@[j].path@ == q && self.settling@[j].probe.due <= now by {
                    if names(out@).contains(q) {
                        let k = choose|k: int| 0 <= k < names(out@).len() && names(out@)[k] == q;
                        if k == before.len() {
                            assert(self.settling@[i as int].path@ == q);
                        } else {
                            assert(before[k] == q);
                            assert(before.contains(q));
                        }
                    }
                    if exists|j: int| 0 <= j < i + 1 && self.settling@[j].path@ == q && self.settling@[j].probe.due <= now {
                        let j = choose|j: int| 0 <= j < i + 1 && self.settling@[j].path@ == q && self.settling@[j].probe.due <= now;
                        if j == i {
                            assert(names(out@)[before.len() as int] == q);
                        } else {
                            assert(before.contains(q));
                            let k = choose|k: int| 0 <= k < before.len() && before[k] == q;
                            assert(names(out@)[k] == q);
                        }
                    }
                }
            }
            i = i + 1;
        }
        assert forall|q: Seq<char>| #[trigger] names(out@).contains(q) <==> (self.is_settling(q) && self.probe_of(q).due <= now) by {
            if names(out@).contains(q) {
                let j = choose|j: int| 0 <= j < self.settling@.len() && self.settling@[j].path@ == q && self.settling@[j].probe.due <= now;
                assert(self.settling_view()[j] == q);
                self.lemma_probe_at(j);
            }
            if self.is_settling(q) && self.probe_of(q).due <= now {
                let j = self.settling_view().index_of(q);
                assert(self.settling_view()[j] == q);
                self.lemma_probe_at(j);
            }
        }
        out
    }

    /// Looks once at a settling path that is due: `size` is its size now and `free` whether
    /// it is no file or a file that can be opened. A path that is not settling, or not yet
    /// due, is left alone. Otherwise the probe is updated as `looked` says, and a released
    /// path moves to the settled paths.
    pub fn settle(&mut self, path: &String, size: Option<u64>, free: bool, now: u64)
        requires
            old(self).wf(),
            now < TIME_LIMIT,
        ensures
            final(self).wf(),
            final(self).bulk_view() == old(self).bulk_view(),
            final(self).flush_view() == old(self).flush_view(),
            final(self).goal_view() == old(self).goal_view(),
            ({
                let p = path@;
                if !(old(self).is_settling(p) && old(self).probe_of(p).due <= now) {
                    *final(self) == *old(self)
                } else {
                    let (next, released) = looked(old(self).probe_of(p), size, free, now, old(self).goal_view());
                    if released {
                        &&& forall|q: Seq<char>| #[trigger] final(self).is_ready(q) == (old(self).is_ready(q) || q == p)
                        &&& forall|q: Seq<char>| #[trigger] final(self).is_settling(q) == (old(self).is_settling(q) && q != p)
                        &&& forall|q: Seq<char>| #[trigger] final(self).is_settling(q) ==> final(self).probe_of(q) == old(self).probe_of(q)
                    } else {
                        &&& final(self).ready_view() == old(self).ready_view()
                        &&& final(self).settling_view() == old(self).settling_view()
                        &&& final(self).probe_of(p) == next
                        &&& forall|q: Seq<char>| #[trigger] final(self).is_settling(q) && q != p ==> final(self).probe_of(q) == old(self).probe_of(q)
                    }
                }
            }),
    {
        let ghost pre = *self;
        let ghost p = path@;
        let i = match self.find_settling(path) {
            Some(i) => i,
            None => {
                return;
            },
        };
        let probe = self.settling[i].probe;
        proof { self.lemma_probe_at(i as int); }
        if probe.due > now {
            return;
        }
        let calm = probe.size == size && free;
        let streak: u8 = if calm { probe.streak + 1 } else { 0 };
        let released = !(streak < self.goal && now < probe.expires);
        let next = Probe { size, streak, due: now + SETTLE_POLL_MS, expires: probe.expires };
        assert(looked(pre.probe_of(p), size, free, now, pre.goal) == (next, released));
        if released {
            let ghost before = self.settling@;
            proof { lemma_remove_unique(keys(before), i as int); Self::lemma_probes_after_remove(before, i as int); }
            self.drop_settling(i);
            assert forall|k: int| 0 <= k < self.settling@.len() implies #[trigger] self.settling@[k].probe.streak < self.goal by {
                let k2 = if k < i { k } else { k + 1 };
                assert(self.settling@[k] == before[k2]);
            }
            let ghost rb = self.ready_view();
            assert(!pre.is_ready(p));
            proof { lemma_push_unique(rb, p); }
            self.ready.push(path.clone());
            assert(self.ready_view() =~= rb.push(p));
            assert(forall|q: Seq<char>| #[trigger] self.is_ready(q) == (pre.is_ready(q) || q == p));
            assert(forall|q: Seq<char>| #[trigger] self.is_settling(q) == (pre.is_settling(q) && q != p));
            assert(forall|q: Seq<char>| !(self.is_ready(q) && self.is_settling(q)));
            assert(self.ready@.len() + self.settling@.len() <= BULK_THRESHOLD);
            assert(self.ready_view().no_duplicates());
            assert(self.settling_view().no_duplicates());
        } else {
            let ghost before = self.settling@;
            let e = Pending { path: path.clone(), probe: next };
            proof { Self::lemma_probes_after_update(before, i as int, e); }
            self.settling.set(i, e);
            assert(self.settling@ == before.update(i as int, e));
            assert forall|k: int| 0 <= k < self.settling@.len() implies #[trigger] self.settling@[k].probe.streak < self.goal by {
                if k != i {
                    assert(self.settling@[k] == before[k]);
                }
            }
            assert(self.settling_view() == pre.settling_view());
            assert(self.ready_view() == pre.ready_view());
        }
    }

    /// Looks once at each due path that `looks` covers (see [`Debouncer::settle`]): the
    /// first look given for a path counts, later ones find it no longer due. Paths without
    /// a look, and paths not due, stay as they were. When `looks` covers every due path,
    /// no settling path is due at `now` afterwards.
    pub fn settle_all(&mut self, looks: &Vec<Look>, now: u64)
        requires
            old(self).wf(),
            now < TIME_LIMIT,
        ensures
            final(self).wf(),
            final(self).bulk_view() == old(self).bulk_view(),
            final(self).flush_view() == old(self).flush_view(),
            final(self).goal_view() == old(self).goal_view(),
            forall|q: Seq<char>| #[trigger] looked_at(*old(self), *final(self), looks@, q, now),
            (forall|q: Seq<char>| old(self).is_settling(q) && old(self).probe_of(q).due <= now ==> #[trigger] look_of(looks@, q) >= 0)
                ==> forall|q: Seq<char>| #[trigger] final(self).is_settling(q) ==> final(self).probe_of(q).due > now,
    {
        let ghost pre = *self;
        let mut i: usize = 0;
        while i < looks.len()
            invariant
                self.wf(),
                now < TIME_LIMIT,
                i <= looks@.len(),
                self.bulk_view() == pre.bulk_view(),
                self.flush_view() == pre.flush_view(),
                self.goal_view() == pre.goal_view(),
                forall|q: Seq<char>| #[trigger] looked_at(pre, *self, looks@.take(i as int), q, now),
            decreases looks.len() - i,
        {
            let ghost mid = *self;
            let ghost p = looks@[i as int].path@;
            let ghost done = looks@.take(i as int);
            let ghost next = looks@.take(i + 1);
            proof {
                assert(next.drop_last() =~= done);
                assert(next.last() == looks@[i as int]);
                assert(looked_at(pre, mid, done, p, now));
            }
            let look = &looks[i];
            self.settle(&look.path, look.size, look.free, now);
            proof {
                assert forall|q: Seq<char>| #[trigger] looked_at(pre, *self, next, q, now) by {
                    assert(looked_at(pre, mid, done, q, now));
                    lemma_look_of(done, q);
                    lemma_look_of(next, q);
                    if look_of(done, q) >= 0 {
                        assert(next[look_of(done, q)] == done[look_of(done, q)]);
                    }
                    if q != p {
                        assert(look_of(next, q) == look_of(done, q));
                        assert(self.is_ready(q) == mid.is_ready(q));
                        assert(self.is_settling(q) == mid.is_settling(q));
                    } else if look_of(done, q) >= 0 {
                        assert(look_of(next, q) == look_of(done, q));
                        assert(!(mid.is_settling(p) && mid.probe_of(p).due <= now));
                        assert(*self == mid);
                    } else {
                        assert(look_of(next, q) == i);
                        assert(next[i as int] == looks@[i as int]);
                        assert(mid.is_settling(p) == pre.is_settling(p));
                        assert(mid.is_ready(p) == pre.is_ready(p));
                        if pre.is_settling(p) {
                            assert(mid.probe_of(p) == pre.probe_of(p));
                            assert(!mid.is_ready(p));
                        }
                    }
                }
            }
            i = i + 1;
        }
        proof {
            assert(looks@.take(i as int) =~= looks@);
            assert forall|q: Seq<char>| #[trigger] self.is_settling(q) implies
                ((forall|r: Seq<char>| pre.is_settling(r) && pre.probe_of(r).due <= now ==> #[trigger] look_of(looks@, r) >= 0)
                    ==> self.probe_of(q).due > now) by {
                assert(looked_at(pre, *self, looks@, q, now));
            }
        }
    }

    /// One round of the watcher at `now`, after the due paths were looked at. Settled
    /// paths start a short gathering window; once a pending flood has been quiet long
    /// enough it is reported as one bulk change and everything pending is dropped;
    /// otherwise, once the window has passed, the settled paths are handed on as one batch.
    pub fn tick(&mut self, now: u64) -> (r: Option<Change>)
        requires
            old(self).wf(),
            now < TIME_LIMIT,
        ensures
            final(self).wf(),
            final(self).goal_view() == old(self).goal_view(),
            ({
                let window = if old(self).ready_view().len() > 0 && old(self).flush_view() is None {
                    Some((now + COALESCE_MS) as u64)
                } else {
                    old(self).flush_view()
                };
                if old(self).bulk_view() matches Some(at) && at <= now {
                    &&& r matches Some(Change::Bulk)
                    &&& forall|q: Seq<char>| !final(self).is_ready(q) && !final(self).is_settling(q)
                    &&& final(self).bulk_view() is None
                    &&& final(self).flush_view() is None
                } else if window matches Some(at) && at <= now && old(self).ready_view().len() > 0 {
                    &&& r matches Some(Change::Batch(batch)) && names(batch@) == old(self).ready_view()
                        && batch@.len() > 0 && names(batch@).no_duplicates()
                    &&& final(self).ready_view().len() == 0
                    &&& final(self).pending() == old(self).pending()
                    &&& final(self).bulk_view() == old(self).bulk_view()
                    &&& final(self).flush_view() is None
                } else {
                    &&& r is None
                    &&& final(self).ready_view() == old(self).ready_view()
                    &&& final(self).pending() == old(self).pending()
                    &&& final(self).bulk_view() == old(self).bulk_view()
                    &&& final(self).flush_view() == (if old(self).ready_view().len() == 0 { None } else { window })
                }
            }),
    {
        let ghost pre = *self;
        if !self.ready.is_empty() && self.flush_at.is_none() {
            self.flush_at = Some(now + COALESCE_MS);
        }
        if let Some(at) = self.bulk {
            if at <= now {
                self.bulk = None;
                self.ready.clear();
                self.settling.clear();
                self.flush_at = None;
                assert(self.ready_view() =~= Seq::empty());
                assert(self.settling_view() =~= Seq::empty());
                return Some(Change::Bulk);
            }
        }
        if let Some(at) = self.flush_at {
            if at <= now && !self.ready.is_empty() {
                let mut batch: Vec<String> = Vec::new();
                core::mem::swap(&mut self.ready, &mut batch);
                self.flush_at = None;
                assert(self.ready_view() =~= Seq::empty());
                return Some(Change::Batch(batch));
            }
        }
        if self.ready.is_empty() {
            self.flush_at = None;
        }
        assert(self.ready@ == pre.ready@ && self.settling@ == pre.settling@ && self.goal == pre.goal);
        assert(self.ready_view() == pre.ready_view() && self.settling_view() == pre.settling_view());
        assert(pre.wf());
        assert(forall|q: Seq<char>| !(self.is_ready(q) && self.is_settling(q)));
        assert(self.ready@.len() + self.settling@.len() <= BULK_THRESHOLD);
        assert(forall|i: int| 0 <= i < self.settling@.len() ==> #[trigger] self.settling@[i].probe.streak < self.goal);
        assert(self.wf());
        None
    }

    /// How long to sleep before the next round: until the earliest of the gathering
    /// window, the flood's quiet time and the next due look, but never less than the floor;
    /// with nothing pending, the idle tick.
    pub fn wait(&self, now: u64) -> (r: u64)
        requires
            self.wf(),
        ensures
            r == (match earlier(earlier(self.flush_view(), self.bulk_view()), self.next_due()) {
                None => IDLE_TICK_MS,
                Some(at) => if at > now + FLOOR_MS { (at - now) as u64 } else { FLOOR_MS },
            }),
            r >= FLOOR_MS,
    {
        let mut next: Option<u64> = None;
        let mut i: usize = 0;
        while i < self.settling.len()
            invariant
                i <= self.settling@.len(),
                next == earliest_due(self.settling@.take(i as int)),
            decreases self.settling.len() - i,
        {
            let due = self.settling[i].probe.due;
            assert(self.settling@.take(i + 1).drop_last() =~= self.settling@.take(i as int));
            next = match next {
                Some(x) => Some(if x <= due { x } else { due }),
                None => Some(due),
            };
            i = i + 1;
        }
        assert(self.settling@.take(i as int) =~= self.settling@);
        let first = match (self.flush_at, self.bulk) {
            (Some(x), Some(y)) => Some(if x <= y { x } else { y }),
            (Some(x), None) => Some(x),
            (None, b) => b,
        };
        let at = match (first, next) {
            (Some(x), Some(y)) => Some(if x <= y { x } else { y }),
            (Some(x), None) => Some(x),
            (None, b) => b,
        };
        match at {
            None => IDLE_TICK_MS,
            Some(at) => {
                if at > now && at - now > FLOOR_MS {
                    at - now
                } else {
                    FLOOR_MS
                }
            },
        }
    }
}

} // verus!

verus! {

proof fn lemma_earliest_due(v: Seq<Pending>)
    ensures
        earliest_due(v) is None <==> v.len() == 0,
        forall|i: int| 0 <= i < v.len() ==> (earliest_due(v) matches Some(at) && at <= #[trigger] v[i].probe.due),
        earliest_due(v) matches Some(at) ==> exists|i: int| 0 <= i < v.len() && #[trigger] v[i].probe.due == at,
    decreases v.len(),
{
    if v.len() > 0 {
        let d = v.drop_last();
        lemma_earliest_due(d);
        assert forall|i: int| 0 <= i < d.len() implies #[trigger] d[i] == v[i] by {}
        if let Some(at) = earliest_due(d) {
            let i = choose|i: int| 0 <= i < d.len() && #[trigger] d[i].probe.due == at;
            assert(v[i].probe.due == at);
        }
        assert forall|i: int| 0 <= i < v.len() implies (earliest_due(v) matches Some(at) && at <= #[trigger] v[i].probe.due) by {
            if i < d.len() {
                assert(d[i] == v[i]);
            }
        }
    }
}

/// The next due look is that of the settling path due soonest: no settling path is due
/// earlier, one of them is due then, and there is none when nothing is settling.
pub proof fn law_next_due_is_the_soonest(d: Debouncer)
    requires
        d.wf(),
    ensures
        d.next_due() is None <==> d.settling_view().len() == 0,
        forall|q: Seq<char>| #[trigger] d.is_settling(q) ==> (d.next_due() matches Some(at) && at <= d.probe_of(q).due),
        d.next_due() matches Some(at) ==> exists|q: Seq<char>| #[trigger] d.is_settling(q) && d.probe_of(q).due == at,
{
    let v = d.pending();
    lemma_earliest_due(v);
    assert(d.settling_view().len() == v.len());
    assert forall|q: Seq<char>| #[trigger] d.is_settling(q) implies (d.next_due() matches Some(at) && at <= d.probe_of(q).due) by {
        let j = keys(v).index_of(q);
        assert(0 <= j < v.len() && keys(v)[j] == q);
        assert(v[j].probe.due == d.probe_of(q).due);
    }
    if let Some(at) = d.next_due() {
        let i = choose|i: int| 0 <= i < v.len() && #[trigger] v[i].probe.due == at;
        let q = keys(v)[i];
        lemma_index_of_unique(keys(v), i);
        assert(d.settling_view()[i] == q);
        assert(d.is_settling(q));
        assert(d.probe_of(q).due == at);
    }
}

/// A changed file is filed under the mount its first watched root names: below the
/// mods folder, the mod's own folder (the component right after `mods`), never the mods
/// folder itself; below the game folder, the game.
pub proof fn law_mount_is_the_first_root(parts: Seq<Seq<char>>, r: int)
    requires
        0 <= r < parts.len(),
        parts[r] == GAME@ || parts[r] == MODS@,
        forall|j: int| 0 <= j < r ==> #[trigger] parts[j] != GAME@ && parts[j] != MODS@,
    ensures
        parts[r] == GAME@ ==> spec_mount_of(parts) == Some(GAME@),
        parts[r] == MODS@ && r + 1 < parts.len() ==> spec_mount_of(parts) == Some(parts[r + 1]),
        parts[r] == MODS@ && r + 1 == parts.len() ==> spec_mount_of(parts) is None,
    decreases r,
{
    reveal_strlit("game");
    reveal_strlit("mods");
    assert(GAME@ != MODS@) by {
        assert(GAME@[0] != MODS@[0]);
    }
    if r > 0 {
        let rest = parts.drop_first();
        assert forall|j: int| 0 <= j < r - 1 implies #[trigger] rest[j] != GAME@ && rest[j] != MODS@ by {
            assert(rest[j] == parts[j + 1]);
        }
        assert(parts[0] != GAME@ && parts[0] != MODS@);
        law_mount_is_the_first_root(rest, r - 1);
        assert(rest[r - 1] == parts[r]);
        if r + 1 < parts.len() {
            assert(rest[r] == parts[r + 1]);
        }
    }
}

/// A file whose time is up is handed on, whatever it looks like.
pub proof fn law_ceiling_releases(probe: Probe, size: Option<u64>, free: bool, now: u64, goal: u8)
    requires
        now >= probe.expires,
    ensures
        looked(probe, size, free, now, goal).1,
{
}

/// A file that grew (or shrank) since the last look is held back while it has time left.
pub proof fn law_changing_file_waits(probe: Probe, size: Option<u64>, free: bool, now: u64, goal: u8)
    requires
        size != probe.size,
        now < probe.expires,
        goal >= 1,
    ensures
        !looked(probe, size, free, now, goal).1,
        looked(probe, size, free, now, goal).0.streak == 0,
{
}

/// A file that is still locked is held back while it has time left.
pub proof fn law_locked_file_waits(probe: Probe, size: Option<u64>, now: u64, goal: u8)
    requires
        now < probe.expires,
        goal >= 1,
    ensures
        !looked(probe, size, false, now, goal).1,
{
}

/// A free file of unchanged size whose calm streak reaches the goal is handed on.
pub proof fn law_calm_file_settles(probe: Probe, free: bool, now: u64, goal: u8)
    requires
        free,
        probe.streak + 1 >= goal,
    ensures
        looked(probe, probe.size, free, now, goal).1,
{
}

} // verus!
