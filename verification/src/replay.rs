//! The replay viewer: which replay stays picked when the list changes, the staged
//! replays kept for quick switching, what the details panel lists, the double click
//! that opens a unit, saving the latest battle, and the orbs a unit wore.

use vstd::prelude::*;
use crate::manage::{is_same_pick, pick_view, PickView};
use crate::sandbox::{click, spec_click};
use crate::text::{dec, dec_int, decimal, decimal_signed, push_str, same_text};

verus! {

broadcast use vstd::seq_lib::group_to_multiset_ensures;

/// The note shown when there is no latest battle to save.
pub const NO_BATTLE_NOTE: &'static str = "There is no state folder holding the latest battle";
/// The note shown while the latest battle is saved.
pub const SAVING_NOTE: &'static str = "Saving\u{2026}";

/// Whether a bundle is among the listed ones.
pub open spec fn listed(bundles: Seq<String>, path: Seq<char>) -> bool {
    exists|i: int| 0 <= i < bundles.len() && (#[trigger] bundles[i])@ == path
}

fn is_listed(bundles: &Vec<String>, path: &String) -> (b: bool)
    ensures
        b == listed(bundles@, path@),
{
    let mut i: usize = 0;
    while i < bundles.len()
        invariant
            i <= bundles@.len(),
            forall|j: int| 0 <= j < i ==> (#[trigger] bundles@[j])@ != path@,
        decreases bundles.len() - i,
    {
        if same_text(bundles[i].as_str(), path.as_str()) {
            return true;
        }
        i = i + 1;
    }
    false
}

/// The replay picked after the list is read again: the picked bundle if it is still
/// listed, else the latest battle.
pub open spec fn spec_refreshed(picked: Option<&Pick>, bundles: Seq<String>) -> PickView {
    match picked {
        Some(p) => match *p {
            Pick::Bundle(path) => if listed(bundles, path@) { PickView::Bundle(path@) } else { PickView::Latest },
            Pick::Latest => PickView::Latest,
        },
        None => PickView::Latest,
    }
}

/// The replay to pick after the list is read again (see [`spec_refreshed`]).
pub fn refreshed(picked: Option<&Pick>, bundles: &Vec<String>) -> (p: Pick)
    ensures
        pick_view(p) == spec_refreshed(picked, bundles@),
{
    match picked {
        Some(Pick::Bundle(path)) => if is_listed(bundles, path) { Pick::Bundle(path.clone()) } else { Pick::Latest },
        _ => Pick::Latest,
    }
}

/// After the list is read again without a reload, the latest battle is picked only if
/// the picked bundle is gone; `true` means to pick it.
pub fn relisted(picked: Option<&Pick>, bundles: &Vec<String>) -> (repick: bool)
    ensures
        repick == (picked matches Some(p) && (p matches Pick::Bundle(path) && !listed(bundles@, path@))),
{
    match picked {
        Some(Pick::Bundle(path)) => !is_listed(bundles, path),
        _ => false,
    }
}

/// Staged replays kept for quick switching: at most the latest battle and one bundle,
/// each with the stamp it was staged at.
pub struct Staged<T> {
    pub entries: Vec<(Pick, String, T)>,
}

/// Whether an entry is kept for `pick` at `stamp`.
pub open spec fn holds<T>(e: (Pick, String, T), pick: PickView, stamp: Seq<char>) -> bool {
    pick_view(e.0) == pick && e.1@ == stamp
}

/// Whether an entry survives storing a replay staged for `pick`: an entry of the same
/// replay goes, and storing a bundle drops the other bundle.
pub open spec fn survives<T>(e: (Pick, String, T), pick: PickView) -> bool {
    pick_view(e.0) != pick && !(pick is Bundle && e.0 is Bundle)
}

impl<T> Staged<T> {
    /// At most one entry for the latest battle and one for a bundle.
    pub open spec fn wf(self) -> bool {
        forall|i: int, j: int| 0 <= i < j < self.entries@.len() ==>
            !((#[trigger] self.entries@[i]).0 is Latest && (#[trigger] self.entries@[j]).0 is Latest)
            && !(self.entries@[i].0 is Bundle && self.entries@[j].0 is Bundle)
    }

    /// Nothing kept.
    pub fn new() -> (s: Staged<T>)
        ensures
            s.wf(),
            s.entries@.len() == 0,
    {
        Staged { entries: Vec::new() }
    }

    /// The replay kept for `pick` at `stamp`, if any.
    pub fn lookup(&self, pick: &Pick, stamp: &str) -> (r: Option<&T>)
        ensures
            r matches Some(t) ==> exists|i: int| 0 <= i < self.entries@.len()
                && holds(#[trigger] self.entries@[i], pick_view(*pick), stamp@) && self.entries@[i].2 == *t,
            r is None ==> forall|i: int| 0 <= i < self.entries@.len() ==> !holds(#[trigger] self.entries@[i], pick_view(*pick), stamp@),
    {
        let mut i: usize = 0;
        while i < self.entries.len()
            invariant
                i <= self.entries@.len(),
                forall|j: int| 0 <= j < i ==> !holds(#[trigger] self.entries@[j], pick_view(*pick), stamp@),
            decreases self.entries.len() - i,
        {
            if is_same_pick(&self.entries[i].0, pick) && same_text(self.entries[i].1.as_str(), stamp) {
                assert(holds(self.entries@[i as int], pick_view(*pick), stamp@));
                return Some(&self.entries[i].2);
            }
            i = i + 1;
        }
        None
    }

    /// Keeps `staged` for `pick` at `stamp`, dropping the entry it replaces (and, for a
    /// bundle, the other bundle's).
    pub fn store(&mut self, pick: Pick, stamp: String, staged: T)
        requires
            old(self).wf(),
        ensures
            final(self).wf(),
            final(self).entries@.len() <= 2,
            final(self).entries@.last() == (pick, stamp, staged),
            forall|i: int| 0 <= i < final(self).entries@.len() - 1 ==>
                survives(#[trigger] final(self).entries@[i], pick_view(pick))
                && old(self).entries@.contains(final(self).entries@[i]),
            forall|i: int| 0 <= i < old(self).entries@.len() && survives(#[trigger] old(self).entries@[i], pick_view(pick)) ==>
                final(self).entries@.contains(old(self).entries@[i]),
    {
        let ghost before = self.entries@;
        let mut rest: Vec<(Pick, String, T)> = Vec::new();
        std::mem::swap(&mut rest, &mut self.entries);
        let bundle = match &pick {
            Pick::Bundle(_) => true,
            Pick::Latest => false,
        };
        let n0 = rest.len();
        let mut n: usize = 0;
        while rest.len() > 0
            invariant
                n <= n0,
                n0 == before.len(),
                rest@ == before.skip(n as int),
                bundle == pick is Bundle,
                forall|i: int| 0 <= i < self.entries@.len() ==> survives(#[trigger] self.entries@[i], pick_view(pick))
                    && before.take(n as int).contains(self.entries@[i]),
                forall|i: int| 0 <= i < n && survives(#[trigger] before[i], pick_view(pick)) ==> self.entries@.contains(before[i]),
                forall|a: int, b: int| 0 <= a < b < before.len() ==>
                    !((#[trigger] before[a]).0 is Latest && (#[trigger] before[b]).0 is Latest)
                    && !(before[a].0 is Bundle && before[b].0 is Bundle),
                forall|a: int, b: int| 0 <= a < b < self.entries@.len() ==>
                    !((#[trigger] self.entries@[a]).0 is Latest && (#[trigger] self.entries@[b]).0 is Latest)
                    && !(self.entries@[a].0 is Bundle && self.entries@[b].0 is Bundle),
                forall|i: int| 0 <= i < self.entries@.len() ==> exists|m: int| 0 <= m < n && before[m] == #[trigger] self.entries@[i],
            decreases rest@.len(),
        {
            let ghost kept = self.entries@;
            let entry = rest.remove(0);
            assert(entry == before[n as int]);
            let drop = is_same_pick(&entry.0, &pick) || (bundle && match &entry.0 {
                Pick::Bundle(_) => true,
                Pick::Latest => false,
            });
            if !drop {
                self.entries.push(entry);
                proof {
                    assert(self.entries@ == kept.push(before[n as int]));
                    assert forall|a: int, b: int| 0 <= a < b < self.entries@.len() implies
                        !((#[trigger] self.entries@[a]).0 is Latest && (#[trigger] self.entries@[b]).0 is Latest)
                        && !(self.entries@[a].0 is Bundle && self.entries@[b].0 is Bundle) by {
                        if b == kept.len() {
                            let m = choose|m: int| 0 <= m < n && before[m] == #[trigger] kept[a];
                            assert(self.entries@[a] == before[m]);
                        }
                    }
                }
            }
            proof {
                assert(before.take(n + 1) =~= before.take(n as int).push(before[n as int]));
                assert(rest@ =~= before.skip(n + 1));
                assert forall|i: int| 0 <= i < self.entries@.len() implies survives(#[trigger] self.entries@[i], pick_view(pick))
                    && before.take(n + 1).contains(self.entries@[i]) by {
                    if i < kept.len() {
                        assert(self.entries@[i] == kept[i]);
                        let q = choose|q: int| 0 <= q < before.take(n as int).len() && before.take(n as int)[q] == kept[i];
                        assert(before.take(n + 1)[q] == kept[i]);
                    } else {
                        assert(before.take(n + 1)[n as int] == self.entries@[i]);
                    }
                }
                assert forall|i: int| 0 <= i < n + 1 && survives(#[trigger] before[i], pick_view(pick)) implies self.entries@.contains(before[i]) by {
                    if i < n {
                        let q = choose|q: int| 0 <= q < kept.len() && kept[q] == before[i];
                        assert(self.entries@[q] == before[i]);
                    } else {
                        assert(self.entries@[kept.len() as int] == before[i]);
                    }
                }
                assert forall|i: int| 0 <= i < self.entries@.len() implies exists|m: int| 0 <= m < n + 1 && before[m] == #[trigger] self.entries@[i] by {
                    if i < kept.len() {
                        assert(self.entries@[i] == kept[i]);
                        let m = choose|m: int| 0 <= m < n && before[m] == #[trigger] kept[i];
                    } else {
                        assert(before[n as int] == self.entries@[i]);
                    }
                }
            }
            n = n + 1;
        }
        proof {
            assert(before.take(n as int) =~= before);
        }
        let ghost kept = self.entries@;
        self.entries.push((pick, stamp, staged));
        proof {
            assert(kept.len() <= 1) by {
                if kept.len() >= 2 {
                    let x = kept[0];
                    let y = kept[1];
                    assert(survives(x, pick_view(pick)));
                    assert(survives(y, pick_view(pick)));
                    assert(!(x.0 is Latest && y.0 is Latest));
                    assert(!(x.0 is Bundle && y.0 is Bundle));
                }
            }
            assert forall|a: int, b: int| 0 <= a < b < self.entries@.len() implies
                !((#[trigger] self.entries@[a]).0 is Latest && (#[trigger] self.entries@[b]).0 is Latest)
                && !(self.entries@[a].0 is Bundle && self.entries@[b].0 is Bundle) by {
                assert(self.entries@[a] == kept[a]);
                assert(survives(kept[a], pick_view(pick)));
            }
            assert forall|i: int| 0 <= i < self.entries@.len() - 1 implies
                survives(#[trigger] self.entries@[i], pick_view(pick)) && before.contains(self.entries@[i]) by {
                assert(self.entries@[i] == kept[i]);
            }
            assert forall|i: int| 0 <= i < before.len() && survives(#[trigger] before[i], pick_view(pick)) implies
                self.entries@.contains(before[i]) by {
                let q = choose|q: int| 0 <= q < kept.len() && kept[q] == before[i];
                assert(self.entries@[q] == before[i]);
            }
        }
    }
}

/// What a saved battle records, as the details panel reads it.
pub struct SaveFacts {
    pub width: u32,
    pub height: u32,
    pub phone: bool,
    pub version: String,
    pub map_name: String,
    pub map_id: i32,
    pub stage_name: String,
    pub stage: i32,
    pub crown: i32,
}

/// What the details panel lists of a replay.
pub struct Details {
    pub title: String,
    /// Rows about the recording: its time, screen, assets and size.
    pub meta: Vec<(&'static str, String)>,
    /// Rows about the game it was recorded in.
    pub game: Vec<(&'static str, String)>,
    /// The stage's name and its crown (counted from one).
    pub stage: Option<(String, i32)>,
    pub version: Option<String>,
    /// Both the save and the frames were read, so the replay can be played.
    pub ready: bool,
}

/// The rows as plain text.
pub open spec fn rows_view(rows: Seq<(&'static str, String)>) -> Seq<(Seq<char>, Seq<char>)> {
    rows.map_values(|r: (&'static str, String)| (r.0@, r.1@))
}

/// The screen row: its size, marked when it was a phone's.
pub open spec fn spec_screen(width: u32, height: u32, phone: bool) -> Seq<char> {
    dec(width as nat) + " \u{d7} "@ + dec(height as nat) + (if phone { " (Phone)"@ } else { Seq::empty() })
}

/// The map's name, or its number when it has none.
pub open spec fn spec_map_label(name: Seq<char>, id: i32) -> Seq<char> {
    if name.len() == 0 { "Map "@ + dec_int(id as int) } else { name }
}

/// The stage's name, or its number (counted from one) when it has none.
pub open spec fn spec_stage_label(name: Seq<char>, stage: i32) -> Seq<char> {
    if name.len() == 0 { "Stage "@ + dec_int(stage + 1) } else { name }
}

/// The rows about the recording: the time (`time` is the frame count written as time,
/// if the frames were read), the screen of the save, the number of assets, and the size
/// (`size`, already written out).
pub open spec fn spec_meta(time: Option<Seq<char>>, save: Option<SaveFacts>, assets: u64, size: Seq<char>) -> Seq<(Seq<char>, Seq<char>)> {
    let time_row = ("Time"@, match time { Some(t) => t, None => "Missing"@ });
    let screen = match save {
        Some(f) => seq![("Screen"@, spec_screen(f.width, f.height, f.phone))],
        None => Seq::empty(),
    };
    seq![time_row] + screen + seq![("Assets"@, dec(assets as nat) + " files"@), ("Size"@, size)]
}

/// The rows about the game: the version (or "Unknown") and the map of a save, else that
/// the save is missing.
pub open spec fn spec_game(save: Option<SaveFacts>) -> Seq<(Seq<char>, Seq<char>)> {
    match save {
        Some(f) => seq![
            ("Version"@, if f.version@.len() == 0 { "Unknown"@ } else { f.version@ }),
            ("Map"@, spec_map_label(f.map_name@, f.map_id)),
        ],
        None => seq![("Save"@, "Missing"@)],
    }
}

fn row(label: &'static str, value: String) -> (r: (&'static str, String))
    ensures
        r.0@ == label@,
        r.1@ == value@,
{
    (label, value)
}

fn text_of(s: &str) -> (r: String)
    ensures
        r@ == s@,
{
    let mut r = String::new();
    push_str(&mut r, s);
    r
}

/// What the details panel lists of a replay titled `title`: see [`spec_meta`] and
/// [`spec_game`]; a save also gives the stage (named, or numbered from one) and its
/// crown counted from one.
pub fn describe(title: String, time: Option<String>, save: Option<&SaveFacts>, assets: u64, size: String) -> (d: Details)
    requires
        save matches Some(f) ==> f.stage < i32::MAX && f.crown < i32::MAX,
    ensures
        d.title@ == title@,
        rows_view(d.meta@) == spec_meta(match time { Some(t) => Some(t@), None => None }, match save { Some(f) => Some(*f), None => None }, assets, size@),
        rows_view(d.game@) == spec_game(match save { Some(f) => Some(*f), None => None }),
        match save {
            Some(f) => (d.stage matches Some((named, crown)) && named@ == spec_stage_label(f.stage_name@, f.stage)
                && crown == f.crown + 1) && (d.version matches Some(v) && v@ == f.version@),
            None => d.stage is None && d.version is None,
        },
        d.ready == (save is Some && time is Some),
{
    let ghost time_view = match time { Some(ref t) => Some(t@), None => None::<Seq<char>> };
    let ghost save_view = match save { Some(f) => Some(*f), None => None::<SaveFacts> };
    let ready = save.is_some() && time.is_some();
    let mut meta: Vec<(&'static str, String)> = Vec::new();
    let shown_time = match time {
        Some(t) => t,
        None => text_of("Missing"),
    };
    meta.push(row("Time", shown_time));
    match save {
        Some(f) => {
            let mut screen = decimal(f.width as u64);
            push_str(&mut screen, " \u{d7} ");
            let height = decimal(f.height as u64);
            push_str(&mut screen, height.as_str());
            if f.phone {
                push_str(&mut screen, " (Phone)");
            }
            proof {
                assert(screen@ =~= spec_screen(f.width, f.height, f.phone));
            }
            meta.push(row("Screen", screen));
        },
        None => {},
    }
    let mut files = decimal(assets);
    push_str(&mut files, " files");
    meta.push(row("Assets", files));
    meta.push(row("Size", size));
    proof {
        reveal_strlit("Time");
        reveal_strlit("Screen");
        reveal_strlit("Assets");
        reveal_strlit("Size");
        assert(rows_view(meta@) =~= spec_meta(time_view, save_view, assets, size@));
    }
    let mut game: Vec<(&'static str, String)> = Vec::new();
    let (stage, version) = match save {
        Some(f) => {
            let shown_version = if f.version.as_str().unicode_len() == 0 { text_of("Unknown") } else { f.version.clone() };
            game.push(row("Version", shown_version));
            let map = if f.map_name.as_str().unicode_len() == 0 {
                let mut m = text_of("Map ");
                let number = decimal_signed(f.map_id as i64);
                push_str(&mut m, number.as_str());
                m
            } else {
                f.map_name.clone()
            };
            game.push(row("Map", map));
            let named = if f.stage_name.as_str().unicode_len() == 0 {
                let mut n = text_of("Stage ");
                let number = decimal_signed(f.stage as i64 + 1);
                push_str(&mut n, number.as_str());
                n
            } else {
                f.stage_name.clone()
            };
            (Some((named, f.crown + 1)), Some(f.version.clone()))
        },
        None => {
            game.push(row("Save", text_of("Missing")));
            (None, None)
        },
    };
    proof {
        reveal_strlit("Version");
        reveal_strlit("Map");
        reveal_strlit("Save");
        assert(rows_view(game@) =~= spec_game(save_view));
    }
    Details { title, meta, game, stage, version, ready }
}

/// The running build's version differs from the one a replay was recorded with: the
/// recorded version, to warn about.
pub fn foreign_version<'a>(recorded: Option<&'a str>, running: &str) -> (r: Option<&'a str>)
    ensures
        r == (match recorded {
            Some(v) => if v@ != running@ { Some(v) } else { None },
            None => None,
        }),
{
    match recorded {
        Some(v) => if same_text(v, running) { None } else { Some(v) },
        None => None,
    }
}

/// The orbs a recorded unit wore, in slot order: the (slot, orb) pairs sorted, then the
/// orbs that are not negative.
pub open spec fn orb_ids(sorted: Seq<(i32, i32)>) -> Seq<u32>
    decreases sorted.len(),
{
    if sorted.len() == 0 {
        Seq::empty()
    } else {
        orb_ids(sorted.drop_last()) + (if sorted.last().1 >= 0 { seq![sorted.last().1 as u32] } else { Seq::empty() })
    }
}

/// Pairs ordered by slot, then by orb.
pub open spec fn pair_le(a: (i32, i32), b: (i32, i32)) -> bool {
    a.0 < b.0 || (a.0 == b.0 && a.1 <= b.1)
}

/// A sequence of pairs in order.
pub open spec fn pairs_sorted(s: Seq<(i32, i32)>) -> bool {
    forall|a: int, b: int| 0 <= a < b < s.len() ==> pair_le(#[trigger] s[a], #[trigger] s[b])
}

/// The orbs a recorded unit wore (see [`orb_ids`]).
pub fn worn_orbs(worn: &Vec<(i32, i32)>) -> (orbs: Vec<u32>)
    ensures
        exists|sorted: Seq<(i32, i32)>| pairs_sorted(sorted) && sorted.to_multiset() == worn@.to_multiset()
            && #[trigger] orb_ids(sorted) == orbs@,
{
    let mut sorted: Vec<(i32, i32)> = Vec::new();
    let mut k: usize = 0;
    while k < worn.len()
        invariant
            k <= worn@.len(),
            pairs_sorted(sorted@),
            sorted@.to_multiset() == worn@.take(k as int).to_multiset(),
        decreases worn.len() - k,
    {
        let x = worn[k];
        let mut p: usize = 0;
        while p < sorted.len() && pair_le_exec(sorted[p], x)
            invariant
                p <= sorted@.len(),
                forall|a: int| 0 <= a < p ==> pair_le(#[trigger] sorted@[a], x),
            decreases sorted.len() - p,
        {
            p = p + 1;
        }
        let ghost before = sorted@;
        sorted.insert(p, x);
        proof {
            vstd::seq_lib::to_multiset_insert(before, p as int, x);
            assert(worn@.take(k + 1) =~= worn@.take(k as int).push(x));
            vstd::seq_lib::to_multiset_build(worn@.take(k as int), x);
            assert forall|a: int, b: int| 0 <= a < b < sorted@.len() implies pair_le(#[trigger] sorted@[a], #[trigger] sorted@[b]) by {
                if b < p {
                    assert(sorted@[a] == before[a]);
                    assert(sorted@[b] == before[b]);
                } else if b == p {
                    assert(sorted@[a] == before[a]);
                } else if a < p {
                    assert(sorted@[a] == before[a]);
                    assert(sorted@[b] == before[b - 1]);
                    if p < before.len() {
                        assert(!pair_le(before[p as int], x));
                        assert(pair_le(before[a], before[p as int]));
                    }
                } else if a == p {
                    assert(sorted@[b] == before[b - 1]);
                    assert(!pair_le(before[p as int], x));
                    if b - 1 > p {
                        assert(pair_le(before[p as int], before[b - 1]));
                    }
                } else {
                    assert(sorted@[a] == before[a - 1]);
                    assert(sorted@[b] == before[b - 1]);
                }
            }
        }
        k = k + 1;
    }
    assert(worn@.take(worn@.len() as int) =~= worn@);
    let mut orbs: Vec<u32> = Vec::new();
    let mut i: usize = 0;
    while i < sorted.len()
        invariant
            i <= sorted@.len(),
            orbs@ == orb_ids(sorted@.take(i as int)),
        decreases sorted.len() - i,
    {
        let (_, orb) = sorted[i];
        if orb >= 0 {
            orbs.push(orb as u32);
        }
        proof {
            assert(sorted@.take(i + 1).drop_last() =~= sorted@.take(i as int));
            assert(orbs@ =~= orb_ids(sorted@.take(i + 1)));
        }
        i = i + 1;
    }
    assert(sorted@.take(sorted@.len() as int) =~= sorted@);
    orbs
}

fn pair_le_exec(a: (i32, i32), b: (i32, i32)) -> (r: bool)
    ensures
        r == pair_le(a, b),
{
    a.0 < b.0 || (a.0 == b.0 && a.1 <= b.1)
}

/// The replay viewer's own state: the replay picked, the unit opened, the last click on
/// a unit, whether the latest battle is being saved, and the note under the save button.
pub struct Viewer {
    pub picked: Option<Pick>,
    pub open: Option<usize>,
    pub clicked: Option<(usize, u64)>,
    pub saving: bool,
    pub note: String,
}

impl Viewer {
    /// Nothing picked or open.
    pub fn new() -> (v: Viewer)
        ensures
            v.picked is None,
            v.open is None,
            v.clicked is None,
            !v.saving,
            v.note@.len() == 0,
    {
        Viewer { picked: None, open: None, clicked: None, saving: false, note: String::new() }
    }

    /// A replay is picked: the note clears and no unit is open.
    pub fn select(&mut self, pick: Pick)
        ensures
            final(self).picked == Some(pick),
            final(self).open is None,
            final(self).note@.len() == 0,
            final(self).clicked == old(self).clicked,
            final(self).saving == old(self).saving,
    {
        self.note = String::new();
        self.picked = Some(pick);
        self.open = None;
    }

    /// A unit tile is pressed at `now`: a double click on a tile that exists (`slot` of
    /// `tiles`) opens it; the result is the opened slot.
    pub fn press(&mut self, slot: usize, now: u64, tiles: usize) -> (opened: Option<usize>)
        ensures
            ({
                let (clicked, doubled) = spec_click(old(self).clicked, slot, now);
                &&& final(self).clicked == clicked
                &&& opened == (if doubled is Some && slot < tiles { Some(slot) } else { None::<usize> })
                &&& final(self).open == (if opened is Some { opened } else { old(self).open })
            }),
            final(self).picked == old(self).picked,
            final(self).saving == old(self).saving,
            final(self).note == old(self).note,
    {
        let (clicked, doubled) = click(self.clicked, slot, now);
        self.clicked = clicked;
        if doubled.is_some() && slot < tiles {
            self.open = Some(slot);
            Some(slot)
        } else {
            None
        }
    }

    /// The unit popup closes.
    pub fn close(&mut self)
        ensures
            final(self).open is None,
            final(self).picked == old(self).picked,
            final(self).clicked == old(self).clicked,
            final(self).saving == old(self).saving,
            final(self).note == old(self).note,
    {
        self.open = None;
    }

    /// A save of the latest battle is asked for; `found` says whether its state folder
    /// exists. Returns whether the save starts (not while one runs).
    pub fn save(&mut self, found: bool) -> (starts: bool)
        ensures
            starts == (!old(self).saving && found),
            final(self).saving == (old(self).saving || found),
            !old(self).saving && !found ==> final(self).note@ == NO_BATTLE_NOTE@,
            starts ==> final(self).note@ == SAVING_NOTE@,
            old(self).saving ==> final(self).note == old(self).note,
            final(self).picked == old(self).picked,
            final(self).open == old(self).open,
    {
        if self.saving {
            return false;
        }
        if !found {
            self.note = text_of(NO_BATTLE_NOTE);
            return false;
        }
        self.saving = true;
        self.note = text_of(SAVING_NOTE);
        true
    }

    /// The save ended: saved as the bundle named `Ok(name)`, or failed for the reason
    /// `Err(reason)`. Returns whether the list is to be read again.
    pub fn saved(&mut self, outcome: Result<String, String>) -> (reread: bool)
        ensures
            !final(self).saving,
            reread == outcome is Ok,
            match outcome {
                Ok(name) => final(self).note@ == "Saved as "@ + name@,
                Err(reason) => final(self).note@ == "Could not save: "@ + reason@,
            },
            final(self).picked == old(self).picked,
            final(self).open == old(self).open,
    {
        self.saving = false;
        match outcome {
            Ok(name) => {
                let mut note = text_of("Saved as ");
                push_str(&mut note, name.as_str());
                self.note = note;
                true
            },
            Err(reason) => {
                let mut note = text_of("Could not save: ");
                push_str(&mut note, reason.as_str());
                self.note = note;
                false
            },
        }
    }

    /// What to play: the picked replay, once its details say it is ready.
    pub fn reel(&self, ready: bool) -> (r: Option<Pick>)
        ensures
            r matches Some(p) ==> ready && (self.picked matches Some(q) && pick_view(p) == pick_view(q)),
            r is None ==> !ready || self.picked is None,
    {
        if !ready {
            return None;
        }
        match &self.picked {
            Some(Pick::Latest) => Some(Pick::Latest),
            Some(Pick::Bundle(path)) => Some(Pick::Bundle(path.clone())),
            None => None,
        }
    }
}

/// The replay picked in the replay list: the latest battle, or a saved bundle.
#[derive(Clone, Debug, PartialEq, Eq)]
pub enum Pick {
    Latest,
    Bundle(String),
}

/// The title of a replay in the list: "Latest Battle", or the bundle's name.
pub fn pick_title(pick: &Pick, bundle_name: &str) -> (s: String)
    ensures
        s@ == (match *pick {
            Pick::Latest => "Latest Battle"@,
            Pick::Bundle(_) => bundle_name@,
        }),
{
    let mut s = String::new();
    match pick {
        Pick::Latest => push_str(&mut s, "Latest Battle"),
        Pick::Bundle(_) => push_str(&mut s, bundle_name),
    }
    s
}

} // verus!
