//! Data mining: comparing the game data with a stored snapshot, and sorting what changed
//! into the cats, enemies and files worth showing.

use vstd::prelude::*;

verus! {

/// The sections of the mining page.
#[derive(Debug, Clone, Copy, PartialEq, Eq, Structural)]
pub enum Tab {
    Meta,
    Cats,
    Enemies,
    Stages,
    Files,
}

/// A section's label.
pub open spec fn spec_mining_tab_label(tab: Tab) -> Seq<char> {
    match tab {
        Tab::Meta => "Meta"@,
        Tab::Cats => "Cats"@,
        Tab::Enemies => "Enemies"@,
        Tab::Stages => "Stages"@,
        Tab::Files => "Files"@,
    }
}

impl Tab {
    /// The section's label.
    pub fn label(self) -> (s: &'static str)
        ensures
            s@ == spec_mining_tab_label(self),
    {
        match self {
            Tab::Meta => "Meta",
            Tab::Cats => "Cats",
            Tab::Enemies => "Enemies",
            Tab::Stages => "Stages",
            Tab::Files => "Files",
        }
    }
}

/// The sections in sidebar order.
pub open spec fn spec_mining_tabs() -> Seq<Tab> {
    seq![Tab::Meta, Tab::Cats, Tab::Enemies, Tab::Stages, Tab::Files]
}

/// The sections in sidebar order.
pub fn mining_tabs() -> (v: Vec<Tab>)
    ensures
        v@ == spec_mining_tabs(),
{
    let v = vec![Tab::Meta, Tab::Cats, Tab::Enemies, Tab::Stages, Tab::Files];
    assert(v@ =~= spec_mining_tabs());
    v
}

/// The shelves of changed files: new or changed, data or art.
#[derive(Debug, Clone, Copy, PartialEq, Eq, Structural)]
pub enum Shelf {
    FreshData,
    FreshArt,
    MovedData,
    MovedArt,
}

/// The kinds of stage news, each shown with its own marker.
#[derive(Debug, Clone, Copy, PartialEq, Eq, Structural)]
pub enum Seam {
    Fresh,
    Spoken,
    Crowned,
    Moved,
}

impl Seam {
    /// Whether the marker is tinted: all but the one for moved stages.
    pub fn tinted(self) -> (b: bool)
        ensures
            b == (self != Seam::Moved),
    {
        match self {
            Seam::Moved => false,
            _ => true,
        }
    }
}

/// The shelf a changed file goes on: new or changed, art when it has a picture.
pub open spec fn spec_shelf_of(baseline: bool, pictured: bool) -> Shelf {
    if baseline {
        if pictured { Shelf::FreshArt } else { Shelf::FreshData }
    } else {
        if pictured { Shelf::MovedArt } else { Shelf::MovedData }
    }
}

/// The shelf a changed file goes on.
pub fn shelf_of(baseline: bool, pictured: bool) -> (s: Shelf)
    ensures
        s == spec_shelf_of(baseline, pictured),
{
    if baseline {
        if pictured { Shelf::FreshArt } else { Shelf::FreshData }
    } else {
        if pictured { Shelf::MovedArt } else { Shelf::MovedData }
    }
}

/// Whether `v` holds `x`.
fn holds(v: &Vec<u32>, x: u32) -> (b: bool)
    ensures
        b == v@.contains(x),
{
    let mut i: usize = 0;
    while i < v.len()
        invariant
            i <= v.len(),
            forall|k: int| 0 <= k < i ==> v@[k] != x,
        decreases v.len() - i,
    {
        if v[i] == x {
            return true;
        }
        i = i + 1;
    }
    false
}

/// Whether `s` is in strictly increasing order.
pub open spec fn increasing(s: Seq<u32>) -> bool {
    forall|i: int, j: int| 0 <= i < j < s.len() ==> s[i] < s[j]
}

/// Inserts `x` into an increasing list unless present.
fn insert_sorted(v: &mut Vec<u32>, x: u32)
    requires
        increasing(old(v)@),
    ensures
        increasing(final(v)@),
        forall|q: u32| #[trigger] final(v)@.contains(q) <==> (old(v)@.contains(q) || q == x),
{
    let mut i: usize = 0;
    while i < v.len() && v[i] < x
        invariant
            i <= v.len(),
            v@ == old(v)@,
            increasing(old(v)@),
            forall|k: int| 0 <= k < i ==> v@[k] < x,
        decreases v.len() - i,
    {
        i = i + 1;
    }
    if i < v.len() && v[i] == x {
        assert(v@.contains(x)) by {
            assert(v@[i as int] == x);
        }
        return;
    }
    let ghost before = v@;
    v.insert(i, x);
    proof {
        assert(v@ =~= before.take(i as int).push(x) + before.skip(i as int));
        assert forall|a: int, b: int| 0 <= a < b < v@.len() implies v@[a] < v@[b] by {
            if b < i as int {
            } else if a < i as int && b == i as int {
            } else if a < i as int {
                assert(v@[b] == before[b - 1]);
            } else if a == i as int {
                assert(v@[b] == before[b - 1]);
                assert(before[i as int] > x);
                if b - 1 > i as int {
                    assert(before[i as int] < before[b - 1]);
                }
            } else {
                assert(v@[a] == before[a - 1]);
                assert(v@[b] == before[b - 1]);
            }
        }
        assert forall|q: u32| v@.contains(q) <==> (before.contains(q) || q == x) by {
            if v@.contains(q) {
                let k = choose|k: int| 0 <= k < v@.len() && v@[k] == q;
                if k < i as int {
                    assert(before[k] == q);
                } else if k > i as int {
                    assert(before[k - 1] == q);
                }
            }
            if before.contains(q) {
                let k = choose|k: int| 0 <= k < before.len() && before[k] == q;
                if k < i as int {
                    assert(v@[k] == q);
                } else {
                    assert(v@[k + 1] == q);
                }
            }
            if q == x {
                assert(v@[i as int] == q);
            }
        }
    }
}

/// Whether `q` is among the first `i` entries of `s`.
pub open spec fn in_prefix(s: Seq<u32>, i: int, q: u32) -> bool {
    exists|k: int| 0 <= k < i && #[trigger] s[k] == q
}

/// Adds to an increasing list the entries of `from` that `keep` allows and `drop` does not.
fn gather_sorted(out: &mut Vec<u32>, from: &Vec<u32>, drop: &Vec<u32>, keep: &Vec<u32>)
    requires
        increasing(old(out)@),
    ensures
        increasing(final(out)@),
        forall|q: u32| #[trigger] final(out)@.contains(q) <==> (old(out)@.contains(q)
            || (from@.contains(q) && !drop@.contains(q) && keep@.contains(q))),
{
    let mut i: usize = 0;
    while i < from.len()
        invariant
            i <= from.len(),
            increasing(out@),
            forall|q: u32| #[trigger] out@.contains(q) <==> (old(out)@.contains(q)
                || (in_prefix(from@, i as int, q) && !drop@.contains(q) && keep@.contains(q))),
        decreases from.len() - i,
    {
        let x = from[i];
        let take = !holds(drop, x) && holds(keep, x);
        let ghost before = out@;
        if take {
            insert_sorted(out, x);
        }
        proof {
            assert forall|q: u32| #[trigger] in_prefix(from@, i as int + 1, q) <==> (in_prefix(from@, i as int, q) || q == x) by {
                if in_prefix(from@, i as int + 1, q) {
                    let k = choose|k: int| 0 <= k < i as int + 1 && #[trigger] from@[k] == q;
                    if k < i as int {
                        assert(in_prefix(from@, i as int, q));
                    }
                }
                if q == x {
                    assert(from@[i as int] == q);
                }
                if in_prefix(from@, i as int, q) {
                    let k = choose|k: int| 0 <= k < i as int && #[trigger] from@[k] == q;
                    assert(0 <= k < i as int + 1 && from@[k] == q);
                }
            }
            assert forall|q: u32| #[trigger] out@.contains(q) <==> (old(out)@.contains(q)
                || (in_prefix(from@, i as int + 1, q) && !drop@.contains(q) && keep@.contains(q))) by {
                assert(before.contains(q) <==> (old(out)@.contains(q)
                    || (in_prefix(from@, i as int, q) && !drop@.contains(q) && keep@.contains(q))));
                assert(in_prefix(from@, i as int + 1, q) <==> (in_prefix(from@, i as int, q) || q == x));
            }
        }
        i = i + 1;
    }
    assert forall|q: u32| #[trigger] in_prefix(from@, from@.len() as int, q) <==> from@.contains(q) by {
        if from@.contains(q) {
            let k = choose|k: int| 0 <= k < from@.len() && from@[k] == q;
            assert(in_prefix(from@, from@.len() as int, q));
        }
    }
    assert forall|q: u32| #[trigger] out@.contains(q) <==> (old(out)@.contains(q)
        || (from@.contains(q) && !drop@.contains(q) && keep@.contains(q))) by {
        assert(in_prefix(from@, from@.len() as int, q) <==> from@.contains(q));
    }
}

/// The cats new in this diff: the units new to the shop, the cats that newly became
/// listable (only while a diff is held) and the cats whose stats first appeared; not
/// spirits summoned by other cats, and only cats that can be listed. Each once, by id.
pub open spec fn spec_is_fresh(
    q: u32,
    shop_fresh: Seq<u32>,
    promoted: Seq<u32>,
    debuts: Seq<u32>,
    has_diff: bool,
    spirits: Seq<u32>,
    listable: Seq<u32>,
) -> bool {
    (shop_fresh.contains(q) || (has_diff && promoted.contains(q)) || debuts.contains(q))
        && !spirits.contains(q) && listable.contains(q)
}

/// The cats new in this diff, in increasing id order.
pub fn fresh_cats(
    shop_fresh: &Vec<u32>,
    promoted: &Vec<u32>,
    debuts: &Vec<u32>,
    has_diff: bool,
    spirits: &Vec<u32>,
    listable: &Vec<u32>,
) -> (v: Vec<u32>)
    ensures
        increasing(v@),
        forall|q: u32| v@.contains(q) <==> spec_is_fresh(q, shop_fresh@, promoted@, debuts@, has_diff, spirits@, listable@),
{
    let mut v: Vec<u32> = Vec::new();
    gather_sorted(&mut v, shop_fresh, spirits, listable);
    if has_diff {
        gather_sorted(&mut v, promoted, spirits, listable);
    }
    gather_sorted(&mut v, debuts, spirits, listable);
    v
}

/// The enemies new in this diff: those whose stats first appeared and, while a diff is
/// held, those that newly became listable; only enemies that can be listed, each once.
pub open spec fn spec_is_new_foe(q: u32, fresh_foes: Seq<u32>, surfaced: Seq<u32>, has_diff: bool, sighted: Seq<u32>) -> bool {
    (fresh_foes.contains(q) || (has_diff && surfaced.contains(q))) && sighted.contains(q)
}

/// The enemies new in this diff, in increasing id order.
pub fn new_foes(fresh_foes: &Vec<u32>, surfaced: &Vec<u32>, has_diff: bool, sighted: &Vec<u32>) -> (v: Vec<u32>)
    ensures
        increasing(v@),
        forall|q: u32| v@.contains(q) <==> spec_is_new_foe(q, fresh_foes@, surfaced@, has_diff, sighted@),
{
    let none: Vec<u32> = Vec::new();
    let mut v: Vec<u32> = Vec::new();
    gather_sorted(&mut v, fresh_foes, &none, sighted);
    if has_diff {
        gather_sorted(&mut v, surfaced, &none, sighted);
    }
    v
}

/// Whether a cat first appeared in this diff (and so is shown as new, not as changed).
pub open spec fn spec_debuted(id: u32, promoted: Seq<u32>, debuts: Seq<u32>, shop_fresh: Seq<u32>) -> bool {
    promoted.contains(id) || debuts.contains(id) || shop_fresh.contains(id)
}

/// Whether a cat first appeared in this diff.
pub fn debuted(id: u32, promoted: &Vec<u32>, debuts: &Vec<u32>, shop_fresh: &Vec<u32>) -> (b: bool)
    ensures
        b == spec_debuted(id, promoted@, debuts@, shop_fresh@),
{
    holds(promoted, id) || holds(debuts, id) || holds(shop_fresh, id)
}

/// Whether an enemy first appeared in this diff.
pub open spec fn spec_surged(id: u32, fresh_foes: Seq<u32>, surfaced: Seq<u32>) -> bool {
    fresh_foes.contains(id) || surfaced.contains(id)
}

/// Whether an enemy first appeared in this diff.
pub fn surged(id: u32, fresh_foes: &Vec<u32>, surfaced: &Vec<u32>) -> (b: bool)
    ensures
        b == spec_surged(id, fresh_foes@, surfaced@),
{
    holds(fresh_foes, id) || holds(surfaced, id)
}

/// The positions, in order, of the entries of `ids` that pass: not `excluded`, and
/// `allowed`.
pub open spec fn passes(ids: Seq<u32>, k: int, excluded: Seq<u32>, allowed: Seq<u32>) -> bool {
    !excluded.contains(ids[k]) && allowed.contains(ids[k])
}

/// What a refresh of the mining page does: with the data's tag unchanged since the last
/// read, only the lists are sorted again; otherwise the data is read again.
#[derive(Debug, Clone, Copy, PartialEq, Eq, Structural)]
pub enum Refresh {
    Restock,
    Reread,
}

/// The refresh for the data's `current` tag, given the tag of the last read.
pub fn refresh_kind(current: u64, last_read: u64) -> (r: Refresh)
    ensures
        r == if current == last_read { Refresh::Restock } else { Refresh::Reread },
{
    if current == last_read { Refresh::Restock } else { Refresh::Reread }
}

/// The talent finds shown: every one of a report whose status says the talents changed,
/// none otherwise.
pub fn talent_slots(changed: bool, finds: usize) -> (v: Vec<usize>)
    ensures
        v@ == if changed { Seq::new(finds as nat, |k: int| k as usize) } else { Seq::<usize>::empty() },
{
    let mut v: Vec<usize> = Vec::new();
    if !changed {
        return v;
    }
    let mut k: usize = 0;
    while k < finds
        invariant
            k <= finds,
            v@ == Seq::new(k as nat, |j: int| j as usize),
        decreases finds - k,
    {
        v.push(k);
        k = k + 1;
        assert(v@ =~= Seq::new(k as nat, |j: int| j as usize));
    }
    v
}

/// The positions of the entries of `ids` that are not `excluded` and are `allowed`, in
/// increasing order.
pub fn slots_passing(ids: &Vec<u32>, excluded: &Vec<u32>, allowed: &Vec<u32>) -> (v: Vec<usize>)
    ensures
        forall|a: int, b: int| 0 <= a < b < v@.len() ==> v@[a] < v@[b],
        forall|k: int| 0 <= k < ids@.len() ==> (v@.contains(k as usize) <==> passes(ids@, k, excluded@, allowed@)),
        forall|a: int| 0 <= a < v@.len() ==> v@[a] < ids@.len(),
{
    let mut v: Vec<usize> = Vec::new();
    let mut i: usize = 0;
    while i < ids.len()
        invariant
            i <= ids.len(),
            forall|a: int, b: int| 0 <= a < b < v@.len() ==> v@[a] < v@[b],
            forall|a: int| 0 <= a < v@.len() ==> v@[a] < i,
            forall|k: int| 0 <= k < i ==> (v@.contains(k as usize) <==> passes(ids@, k, excluded@, allowed@)),
        decreases ids.len() - i,
    {
        let x = ids[i];
        let ghost before = v@;
        if !holds(excluded, x) && holds(allowed, x) {
            v.push(i);
            proof {
                assert forall|k: int| 0 <= k < i implies (#[trigger] v@.contains(k as usize) <==> before.contains(k as usize)) by {
                    if v@.contains(k as usize) {
                        let j = choose|j: int| 0 <= j < v@.len() && v@[j] == k as usize;
                        if j < before.len() {
                            assert(before[j] == k as usize);
                        }
                    }
                    if before.contains(k as usize) {
                        let j = choose|j: int| 0 <= j < before.len() && before[j] == k as usize;
                        assert(v@[j] == k as usize);
                    }
                }
                assert(v@[before.len() as int] == i);
            }
        } else {
            proof {
                if v@.contains(i) {
                    let j = choose|j: int| 0 <= j < v@.len() && v@[j] == i;
                    assert(v@[j] < i);
                }
            }
        }
        i = i + 1;
    }
    v
}

/// What running a chore leaves on show.
#[derive(Debug, Clone, Copy, PartialEq, Eq, Structural)]
pub enum Chore {
    Snapshot,
    Diff,
}

/// A finished chore and whether it recorded anything.
#[derive(Debug, Clone, Copy, PartialEq, Eq, Structural)]
pub struct Outcome {
    pub chore: Chore,
    pub recorded: bool,
}

/// The chores of the mining page: taking a snapshot, making a diff, and discarding it.
#[derive(Debug, Clone, Copy, PartialEq, Eq, Structural)]
pub struct Desk {
    pub tab: Tab,
    /// The chore running in the background.
    pub chore: Option<Chore>,
    /// Whether the running chore creates the first snapshot.
    pub creating: bool,
    /// Whether a snapshot is stored.
    pub snapped: bool,
    /// The chore that finished last and whether it recorded anything, shown briefly.
    pub outcome: Option<Outcome>,
    /// Whether discarding the diff waits for its confirming second press.
    pub wipe_armed: bool,
}

/// What pressing "discard" did.
#[derive(Debug, Clone, Copy, PartialEq, Eq, Structural)]
pub enum Wipe {
    /// The first press: ask for confirmation, which expires after a short delay.
    Arm,
    /// The confirming press: discard the diff and reload.
    Discard,
}

/// A press of "discard": the first arms it, the second discards and disarms.
pub open spec fn spec_wipe(d: Desk) -> (Desk, Wipe) {
    if d.wipe_armed {
        (Desk { wipe_armed: false, ..d }, Wipe::Discard)
    } else {
        (Desk { wipe_armed: true, ..d }, Wipe::Arm)
    }
}

impl Desk {
    /// The meta section, nothing running.
    pub fn new() -> (d: Desk)
        ensures
            d == (Desk { tab: Tab::Meta, chore: None, creating: false, snapped: false, outcome: None, wipe_armed: false }),
    {
        Desk { tab: Tab::Meta, chore: None, creating: false, snapped: false, outcome: None, wipe_armed: false }
    }

    /// Starts a chore unless one runs; returns whether it started.
    pub fn begin(&mut self, chore: Chore) -> (started: bool)
        ensures
            started == old(self).chore is None,
            started ==> *final(self) == (Desk { chore: Some(chore), creating: !old(self).snapped, ..*old(self) }),
            !started ==> *final(self) == *old(self),
    {
        if self.chore.is_some() {
            return false;
        }
        self.chore = Some(chore);
        self.creating = !self.snapped;
        true
    }

    /// The running chore finished, recording something or not; its outcome is shown.
    /// Returns whether an outcome is to be shown (and to expire later).
    pub fn settle(&mut self, recorded: bool) -> (shown: bool)
        ensures
            shown == old(self).chore is Some,
            final(self).chore is None,
            shown ==> final(self).outcome == Some(Outcome { chore: old(self).chore->0, recorded }),
            !shown ==> final(self).outcome == old(self).outcome,
            final(self).tab == old(self).tab,
            final(self).wipe_armed == old(self).wipe_armed,
    {
        match self.chore {
            Some(c) => {
                self.chore = None;
                self.outcome = Some(Outcome { chore: c, recorded });
                true
            },
            None => false,
        }
    }

    /// The shown outcome expired.
    pub fn rest(&mut self)
        ensures
            *final(self) == (Desk { outcome: None, ..*old(self) }),
    {
        self.outcome = None;
    }

    /// "Discard" was pressed: the first press arms it, the second discards.
    pub fn wipe(&mut self) -> (w: Wipe)
        ensures
            (*final(self), w) == spec_wipe(*old(self)),
    {
        if !self.wipe_armed {
            self.wipe_armed = true;
            return Wipe::Arm;
        }
        self.wipe_armed = false;
        Wipe::Discard
    }

    /// The confirmation of "discard" expired.
    pub fn wipe_expired(&mut self)
        ensures
            *final(self) == (Desk { wipe_armed: false, ..*old(self) }),
    {
        self.wipe_armed = false;
    }

    /// A section was chosen; it shows when it has something to show (`enabled`).
    /// Returns whether the section changed.
    pub fn select(&mut self, tab: Tab, enabled: bool) -> (changed: bool)
        ensures
            changed == (enabled && old(self).tab != tab),
            changed ==> *final(self) == (Desk { tab, ..*old(self) }),
            !changed ==> *final(self) == *old(self),
    {
        if enabled && self.tab != tab {
            self.tab = tab;
            return true;
        }
        false
    }

    /// The data was restocked: a section with nothing left to show falls back to meta.
    pub fn restocked(&mut self, enabled: bool, snapped: bool)
        ensures
            *final(self) == (Desk { tab: if enabled { old(self).tab } else { Tab::Meta }, snapped, ..*old(self) }),
    {
        self.snapped = snapped;
        if !enabled {
            self.tab = Tab::Meta;
        }
    }
}

/// Whether a level typed on the mining page is taken: digits only.
pub open spec fn spec_mined_level_ok(s: Seq<char>) -> bool {
    forall|i: int| 0 <= i < s.len() ==> crate::text::is_digit(#[trigger] s[i])
}

/// Whether a level typed on the mining page is taken: digits only.
pub fn mined_level_ok(value: &str) -> (b: bool)
    ensures
        b == spec_mined_level_ok(value@),
{
    let v = crate::text::chars_of(value);
    let mut i: usize = 0;
    while i < v.len()
        invariant
            i <= v.len(),
            v@ == value@,
            forall|k: int| 0 <= k < i ==> crate::text::is_digit(#[trigger] value@[k]),
        decreases v.len() - i,
    {
        let c = v[i];
        if !('0' <= c && c <= '9') {
            assert(!crate::text::is_digit(value@[i as int]));
            return false;
        }
        i = i + 1;
    }
    true
}

/// Discarding a diff takes two presses: from an unarmed page the first press only arms,
/// the second discards and leaves the page as it was.
pub proof fn law_discard_needs_two_presses(d: Desk)
    requires
        !d.wipe_armed,
    ensures
        spec_wipe(d).1 == Wipe::Arm,
        spec_wipe(spec_wipe(d).0).1 == Wipe::Discard,
        spec_wipe(spec_wipe(d).0).0 == d,
{
}

/// A cat counts as debuted (new in this diff, so not listed again among the changed
/// cats) exactly when it was promoted, its stats first appeared, or the shop first
/// sells it; being in any one of the three lists is enough.
pub proof fn law_debuted_is_any_of_three(id: u32, promoted: Seq<u32>, debuts: Seq<u32>, shop_fresh: Seq<u32>)
    ensures
        promoted.contains(id) ==> spec_debuted(id, promoted, debuts, shop_fresh),
        debuts.contains(id) ==> spec_debuted(id, promoted, debuts, shop_fresh),
        shop_fresh.contains(id) ==> spec_debuted(id, promoted, debuts, shop_fresh),
        spec_debuted(id, promoted, debuts, shop_fresh) ==> promoted.contains(id) || debuts.contains(id) || shop_fresh.contains(id),
        spec_debuted(id, Seq::empty(), seq![id], Seq::empty()),
{
    assert(seq![id][0] == id);
}

} // verus!
