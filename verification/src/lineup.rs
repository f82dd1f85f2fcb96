//! The sandbox lineup editor's decisions: dragging units onto the deck, the double click
//! that opens a unit, deleting a lineup, the lineup search, and which fielded units share
//! a rarity. Where the pointer lands and what a lineup does with a placement stay with
//! the caller; this module says what each gesture asks for.

use vstd::prelude::*;
use crate::combos::{contains_text, lowercase, lowercase_of, spec_contains, Panel};
use crate::feedback::Slot;
use crate::sandbox::DOUBLE_CLICK_MS;

verus! {

/// How long a press is held before it becomes a drag without moving (ms).
pub const RIPE_MS: u64 = 160;

/// How soon after a drop a press on a cell is taken as the drop's echo and ignored (ms).
pub const ECHO_MS: u64 = 80;

/// A place on the deck: a lineup slot or a bench place, by position.
#[derive(Clone, Copy, Debug, PartialEq, Eq, Structural)]
pub enum Cell {
    Slot(usize),
    Bench(usize),
}

/// What a drag carries: a unit picked from the roster list, or the unit on a cell.
#[derive(Clone, Copy, Debug, PartialEq, Eq, Structural)]
pub enum Cargo {
    Fresh(u32),
    Held(Cell),
}

/// A drag in progress; `P` is a pointer position.
#[derive(Debug)]
pub enum Drag<P> {
    Idle,
    /// Pressed at `since` (ms); `from` is where the pointer first moved, once it has.
    Pressed { cargo: Cargo, since: u64, from: Option<P> },
    /// Moving, now at `at`, over the cell `onto` if any.
    Moving { cargo: Cargo, at: P, onto: Option<Cell> },
}

/// What a finished gesture asks of the lineup.
#[derive(Clone, Copy, Debug, PartialEq, Eq, Structural)]
pub enum Placement {
    /// Add the unit where the lineup has room.
    Add(u32),
    /// Open the unit on the cell in the unit editor.
    Open(Cell),
    /// Put the unit on the cell.
    Place(u32, Cell),
    /// Move the unit from the first cell to the second.
    Shift(Cell, Cell),
    /// Take the unit off the cell.
    Take(Cell),
}

/// The time from `at` to `now` (ms), none if the clock went back.
pub open spec fn spec_elapsed(at: u64, now: u64) -> int {
    if now >= at { now - at } else { 0 }
}

fn elapsed(at: u64, now: u64) -> (e: u64)
    ensures
        e == spec_elapsed(at, now),
{
    if now >= at { now - at } else { 0 }
}

/// The drag after the pointer moves to `at` at `now`: a press becomes a drag once the
/// pointer strays past the slack or the press ripens; a drag follows the pointer.
/// `strayed` says whether `at` is further than the slack from the press's first
/// position (`at` itself if the pointer had not moved yet); `onto` is the cell under `at`.
pub open spec fn spec_moved<P>(drag: Drag<P>, at: P, strayed: bool, onto: Option<Cell>, now: u64) -> Drag<P> {
    match drag {
        Drag::Pressed { cargo, since, from } => if strayed || spec_elapsed(since, now) >= RIPE_MS {
            Drag::Moving { cargo, at, onto }
        } else {
            Drag::Pressed { cargo, since, from: Some(match from { Some(f) => f, None => at }) }
        },
        Drag::Moving { cargo, .. } => Drag::Moving { cargo, at, onto },
        Drag::Idle => Drag::Idle,
    }
}

/// What releasing the pointer asks of the lineup, and the last click afterwards: a press
/// on a roster unit adds it; a press on a cell is a click, and a double click opens the
/// unit; a drag onto a cell places or moves the unit there; a cell's unit dragged off
/// the deck is taken off.
pub open spec fn spec_released<P>(drag: Drag<P>, clicked: Option<(Cell, u64)>, now: u64) -> (Option<(Cell, u64)>, Option<Placement>) {
    match drag {
        Drag::Pressed { cargo: Cargo::Fresh(id), .. } => (clicked, Some(Placement::Add(id))),
        Drag::Pressed { cargo: Cargo::Held(cell), .. } => {
            let doubled = match clicked {
                Some((held, at)) => held == cell && spec_elapsed(at, now) <= DOUBLE_CLICK_MS,
                None => false,
            };
            if doubled { (None, Some(Placement::Open(cell))) } else { (Some((cell, now)), None) }
        },
        Drag::Moving { cargo: Cargo::Fresh(id), onto: Some(onto), .. } => (clicked, Some(Placement::Place(id, onto))),
        Drag::Moving { cargo: Cargo::Held(from), onto: Some(onto), .. } => (clicked, Some(Placement::Shift(from, onto))),
        Drag::Moving { cargo: Cargo::Held(from), onto: None, .. } => (clicked, Some(Placement::Take(from))),
        _ => (clicked, None),
    }
}

/// A press of the delete button: the first press arms it, the armed press deletes.
/// The result is whether it is armed afterwards and whether the lineup is deleted.
pub open spec fn spec_delete_press(armed: bool) -> (bool, bool) {
    if armed { (false, true) } else { (true, false) }
}

/// The lineup editor: the drag in progress, the last click on a cell, the unit being
/// edited and its orb slot, the delete button, the lineup search and the combo panel,
/// which shows the edited unit's combos.
pub struct Deck<P> {
    pub drag: Drag<P>,
    pub clicked: Option<(Cell, u64)>,
    /// When the last drop landed (ms).
    pub dropped_at: Option<u64>,
    /// The unit open in the unit editor.
    pub editing: Option<u32>,
    /// The orb slot open in the orb picker.
    pub orb_slot: Option<usize>,
    pub deleting: Slot<()>,
    pub search: String,
    pub combos: Panel,
}

impl<P: Copy> Deck<P> {
    /// The combo panel shows what its filters pass.
    pub open spec fn wf(self) -> bool {
        self.combos.sifted()
    }

    /// An idle editor with nothing open.
    pub fn new() -> (d: Deck<P>)
        ensures
            d.wf(),
            d.drag is Idle,
            d.clicked is None,
            d.dropped_at is None,
            d.editing is None,
            d.orb_slot is None,
            d.deleting.value is None,
            d.search@.len() == 0,
    {
        Deck {
            drag: Drag::Idle,
            clicked: None,
            dropped_at: None,
            editing: None,
            orb_slot: None,
            deleting: Slot::new(),
            search: String::new(),
            combos: Panel::new(),
        }
    }

    /// A unit of the roster list is pressed at `now`.
    pub fn press_fresh(&mut self, id: u32, now: u64)
        ensures
            final(self).drag == (Drag::<P>::Pressed { cargo: Cargo::Fresh(id), since: now, from: None }),
            *final(self) == (Deck { drag: final(self).drag, ..*old(self) }),
    {
        self.drag = Drag::Pressed { cargo: Cargo::Fresh(id), since: now, from: None };
    }

    /// A cell is pressed at `now`; `filled` says whether a unit is on it. A press that
    /// echoes a drop is ignored, as is a press on an empty cell.
    pub fn press_cell(&mut self, cell: Cell, filled: bool, now: u64)
        ensures
            final(self).dropped_at is None,
            ({
                let echo = match old(self).dropped_at {
                    Some(at) => spec_elapsed(at, now) <= ECHO_MS,
                    None => false,
                };
                final(self).drag == if !echo && filled {
                    Drag::<P>::Pressed { cargo: Cargo::Held(cell), since: now, from: None }
                } else {
                    old(self).drag
                }
            }),
            *final(self) == (Deck { drag: final(self).drag, dropped_at: None, ..*old(self) }),
    {
        let echo = match self.dropped_at {
            Some(at) => elapsed(at, now) <= ECHO_MS,
            None => false,
        };
        self.dropped_at = None;
        if echo {
            return;
        }
        if filled {
            self.drag = Drag::Pressed { cargo: Cargo::Held(cell), since: now, from: None };
        }
    }

    /// The pointer moves to `at` at `now` (see [`spec_moved`]).
    pub fn drag_move(&mut self, at: P, strayed: bool, onto: Option<Cell>, now: u64)
        ensures
            final(self).drag == spec_moved(old(self).drag, at, strayed, onto, now),
            *final(self) == (Deck { drag: final(self).drag, ..*old(self) }),
    {
        let next = match &self.drag {
            Drag::Pressed { cargo, since, from } => {
                if strayed || elapsed(*since, now) >= RIPE_MS {
                    Drag::Moving { cargo: *cargo, at, onto }
                } else {
                    let first = match from {
                        Some(f) => *f,
                        None => at,
                    };
                    Drag::Pressed { cargo: *cargo, since: *since, from: Some(first) }
                }
            },
            Drag::Moving { cargo, .. } => Drag::Moving { cargo: *cargo, at, onto },
            Drag::Idle => Drag::Idle,
        };
        self.drag = next;
    }

    /// The drag is abandoned (the pointer left the window or it lost focus).
    pub fn drag_cancel(&mut self)
        ensures
            final(self).drag is Idle,
            *final(self) == (Deck { drag: final(self).drag, ..*old(self) }),
    {
        self.drag = Drag::Idle;
    }

    /// The pointer is released at `now` (see [`spec_released`]); the drag is over.
    pub fn drag_end(&mut self, now: u64) -> (placed: Option<Placement>)
        ensures
            final(self).drag is Idle,
            (final(self).clicked, placed) == spec_released(old(self).drag, old(self).clicked, now),
            *final(self) == (Deck { drag: final(self).drag, clicked: final(self).clicked, ..*old(self) }),
    {
        let mut settled = Drag::Idle;
        std::mem::swap(&mut settled, &mut self.drag);
        match settled {
            Drag::Pressed { cargo: Cargo::Fresh(id), .. } => Some(Placement::Add(id)),
            Drag::Pressed { cargo: Cargo::Held(cell), .. } => {
                let doubled = match self.clicked {
                    Some((held, at)) => held == cell && elapsed(at, now) <= DOUBLE_CLICK_MS,
                    None => false,
                };
                if doubled {
                    self.clicked = None;
                    Some(Placement::Open(cell))
                } else {
                    self.clicked = Some((cell, now));
                    None
                }
            },
            Drag::Moving { cargo: Cargo::Fresh(id), onto: Some(onto), .. } => Some(Placement::Place(id, onto)),
            Drag::Moving { cargo: Cargo::Held(from), onto: Some(onto), .. } => Some(Placement::Shift(from, onto)),
            Drag::Moving { cargo: Cargo::Held(from), onto: None, .. } => Some(Placement::Take(from)),
            _ => None,
        }
    }

    /// The unit `id` (at `form`) is opened in the unit editor: the combo panel shows its
    /// combos and no orb slot is open.
    pub fn open(&mut self, id: u32, form: usize)
        requires
            old(self).wf(),
        ensures
            final(self).wf(),
            final(self).editing == Some(id),
            final(self).orb_slot is None,
            final(self).combos.focus == Some((id, form)),
            final(self).drag == old(self).drag,
            final(self).clicked == old(self).clicked,
            final(self).deleting == old(self).deleting,
            final(self).search == old(self).search,
    {
        self.editing = Some(id);
        self.orb_slot = None;
        self.combos.focus(Some((id, form)));
    }

    /// The edited unit changed form: the combo panel follows it.
    pub fn refocus(&mut self, id: u32, form: usize)
        requires
            old(self).wf(),
        ensures
            final(self).wf(),
            final(self).combos.focus == Some((id, form)),
            *final(self) == (Deck { combos: final(self).combos, ..*old(self) }),
    {
        self.combos.focus(Some((id, form)));
    }

    /// The unit editor closes: nothing is open and the combo panel shows every combo.
    pub fn close(&mut self)
        requires
            old(self).wf(),
        ensures
            final(self).wf(),
            final(self).editing is None,
            final(self).orb_slot is None,
            final(self).combos.focus is None,
            final(self).drag == old(self).drag,
            final(self).clicked == old(self).clicked,
            final(self).deleting == old(self).deleting,
            final(self).search == old(self).search,
    {
        self.editing = None;
        self.orb_slot = None;
        self.combos.focus(None);
    }

    /// Whether the unit editor is open.
    pub fn unit_open(&self) -> (b: bool)
        ensures
            b == self.editing is Some,
    {
        self.editing.is_some()
    }

    /// Whether the orb picker is open: a unit is open and one of its orb slots chosen.
    pub fn orb_open(&self) -> (b: bool)
        ensures
            b == (self.editing is Some && self.orb_slot is Some),
    {
        self.editing.is_some() && self.orb_slot.is_some()
    }

    /// A unit was taken off the deck (`gone`, if any was there); the editor closes if it
    /// held that unit.
    pub fn dropped(&mut self, gone: Option<u32>)
        requires
            old(self).wf(),
        ensures
            final(self).wf(),
            (gone is Some && gone == old(self).editing) ==> final(self).editing is None && final(self).combos.focus is None,
            !(gone is Some && gone == old(self).editing) ==> *final(self) == *old(self),
    {
        let closes = match (gone, self.editing) {
            (Some(g), Some(e)) => g == e,
            _ => false,
        };
        if closes {
            self.close();
        }
    }

    /// A press of the delete button: returns whether the lineup is to be deleted now
    /// (see [`spec_delete_press`]); deleting closes the editor.
    pub fn delete(&mut self) -> (deletes: bool)
        requires
            old(self).wf(),
        ensures
            final(self).wf(),
            (final(self).deleting.value is Some, deletes) == spec_delete_press(old(self).deleting.value is Some),
            deletes ==> final(self).editing is None,
            !deletes ==> *final(self) == (Deck { deleting: final(self).deleting, ..*old(self) }),
    {
        if !self.deleting.is_set() {
            self.deleting.set(());
            return false;
        }
        self.deleting.clear();
        self.close();
        true
    }

    /// The delete button's confirmation ran out.
    pub fn delete_expired(&mut self)
        ensures
            final(self).deleting.value is None,
            *final(self) == (Deck { deleting: final(self).deleting, ..*old(self) }),
    {
        self.deleting.expire();
    }

    /// The lineup at `index` is chosen from `count` lineups: the selection, when there is
    /// such a lineup; the delete button disarms and the editor closes.
    pub fn load(&mut self, index: usize, count: usize) -> (selected: Option<usize>)
        requires
            old(self).wf(),
        ensures
            final(self).wf(),
            selected == (if index < count { Some(index) } else { None::<usize> }),
            final(self).deleting.value is None,
            final(self).editing is None,
    {
        self.deleting.clear();
        self.close();
        if index < count { Some(index) } else { None }
    }
}

/// The lineups a search shows: those whose name, in lower case, holds the search text
/// in lower case (all of them for an empty search).
pub open spec fn spec_found(names: Seq<String>, search: Seq<char>, found: Seq<usize>) -> bool {
    &&& forall|a: int, b: int| 0 <= a < b < found.len() ==> found[a] < found[b]
    &&& forall|a: int| 0 <= a < found.len() ==> #[trigger] found[a] < names.len()
    &&& forall|i: int| 0 <= i < names.len() ==> (found.contains(i as usize)
        <==> spec_contains(lowercase_of((#[trigger] names[i])@), lowercase_of(search)))
}

/// The positions of the lineups a search shows, in order (see [`spec_found`]).
pub fn found_lineups(names: &Vec<String>, search: &str) -> (found: Vec<usize>)
    ensures
        spec_found(names@, search@, found@),
{
    let wanted = lowercase(search);
    let mut found: Vec<usize> = Vec::new();
    let mut i: usize = 0;
    while i < names.len()
        invariant
            i <= names@.len(),
            wanted@ == lowercase_of(search@),
            forall|a: int, b: int| 0 <= a < b < found@.len() ==> found@[a] < found@[b],
            forall|a: int| 0 <= a < found@.len() ==> #[trigger] found@[a] < i,
            forall|j: int| 0 <= j < i ==> (found@.contains(j as usize)
                <==> spec_contains(lowercase_of((#[trigger] names@[j])@), lowercase_of(search@))),
        decreases names.len() - i,
    {
        let name = lowercase(names[i].as_str());
        let hit = contains_text(name.as_str(), wanted.as_str());
        let ghost before = found@;
        if hit {
            found.push(i);
        }
        proof {
            assert forall|j: int| 0 <= j < i + 1 implies (found@.contains(j as usize)
                <==> spec_contains(lowercase_of((#[trigger] names@[j])@), lowercase_of(search@))) by {
                if found@.contains(j as usize) {
                    let q = choose|q: int| 0 <= q < found@.len() && found@[q] == j as usize;
                    if q < before.len() {
                        assert(before[q] == j as usize);
                        assert(before.contains(j as usize));
                    }
                }
                if j < i && before.contains(j as usize) {
                    let q = choose|q: int| 0 <= q < before.len() && before[q] == j as usize;
                    assert(found@[q] == j as usize);
                }
                if j == i && hit {
                    assert(found@[before.len() as int] == i);
                }
                if j == i && !hit && found@.contains(j as usize) {
                    let q = choose|q: int| 0 <= q < found@.len() && found@[q] == j as usize;
                    assert(found@[q] < i);
                }
            }
        }
        i = i + 1;
    }
    found
}

/// How many of `rarities[..upto]` are `rarity`.
pub open spec fn count_rarity(rarities: Seq<usize>, upto: int, rarity: usize) -> nat
    decreases upto,
{
    if upto <= 0 || upto > rarities.len() {
        0
    } else {
        count_rarity(rarities, upto - 1, rarity) + (if rarities[upto - 1] == rarity { 1nat } else { 0nat })
    }
}

/// For each deck unit, how many fielded units before it share its rarity: a slot counts
/// the slots before it, a bench place counts every slot (bench units are not fielded).
/// `slots` and `bench` are the rarities of the units on them, in deck order.
pub fn earlier_of_rarity(slots: &Vec<usize>, bench: &Vec<usize>) -> (r: (Vec<usize>, Vec<usize>))
    ensures
        r.0@.len() == slots@.len(),
        r.1@.len() == bench@.len(),
        forall|i: int| 0 <= i < slots@.len() ==> #[trigger] r.0@[i] == count_rarity(slots@, i, slots@[i]),
        forall|i: int| 0 <= i < bench@.len() ==> #[trigger] r.1@[i] == count_rarity(slots@, slots@.len() as int, bench@[i]),
{
    let mut fielded: Vec<usize> = Vec::new();
    let mut i: usize = 0;
    while i < slots.len()
        invariant
            i <= slots@.len(),
            fielded@.len() == i,
            forall|k: int| 0 <= k < i ==> #[trigger] fielded@[k] == count_rarity(slots@, k, slots@[k]),
        decreases slots.len() - i,
    {
        let c = count_in(slots, i, slots[i]);
        fielded.push(c);
        i = i + 1;
    }
    let mut benched: Vec<usize> = Vec::new();
    let mut j: usize = 0;
    while j < bench.len()
        invariant
            j <= bench@.len(),
            benched@.len() == j,
            forall|k: int| 0 <= k < j ==> #[trigger] benched@[k] == count_rarity(slots@, slots@.len() as int, bench@[k]),
        decreases bench.len() - j,
    {
        let c = count_in(slots, slots.len(), bench[j]);
        benched.push(c);
        j = j + 1;
    }
    (fielded, benched)
}

fn count_in(rarities: &Vec<usize>, upto: usize, rarity: usize) -> (n: usize)
    requires
        upto <= rarities@.len(),
    ensures
        n == count_rarity(rarities@, upto as int, rarity),
{
    let mut n: usize = 0;
    let mut k: usize = 0;
    while k < upto
        invariant
            k <= upto <= rarities@.len(),
            n == count_rarity(rarities@, k as int, rarity),
            n <= k,
        decreases upto - k,
    {
        if rarities[k] == rarity {
            n = n + 1;
        }
        k = k + 1;
    }
    n
}

/// Deleting a lineup takes two presses: the first only arms the button, the second
/// deletes.
pub proof fn law_delete_needs_two_presses()
    ensures
        spec_delete_press(false) == (true, false),
        spec_delete_press(spec_delete_press(false).0) == (false, true),
{
}

/// A second press on the same cell within the double-click gap opens its unit, and the
/// click after that starts afresh.
pub proof fn law_double_click_opens<P>(cell: Cell, since: u64, from: Option<P>, first: u64, second: u64)
    requires
        first <= second,
        second - first <= DOUBLE_CLICK_MS,
    ensures
        ({
            let press = Drag::<P>::Pressed { cargo: Cargo::Held(cell), since, from };
            let (clicked, placed) = spec_released(press, None, first);
            &&& placed is None
            &&& spec_released(press, clicked, second) == (None::<(Cell, u64)>, Some(Placement::Open(cell)))
        }),
{
}

} // verus!
