//! What a sandbox battle is set up with: the lineup, the tech levels, how many treasure
//! stages of each chapter are owned, the altar, the cat god, the stocked items, and the
//! cat base's parts and their levels, all taken from the sandbox options.

use vstd::prelude::*;
use crate::sandbox::{spec_treasures_owned, treasures_owned, PERCENT_MAX};

verus! {

/// Whether the cat god is in the battle, and on what terms.
#[derive(Clone, Copy, Debug, PartialEq, Eq, Structural)]
pub enum CatGod {
    Absent,
    Present,
    Discounted,
}

/// A unit of the lineup as the battle takes it: its id, form, level and plus level, its
/// talents (ability and level) and the orbs it wears (slot and orb).
#[derive(Clone, Debug)]
pub struct SetupUnit {
    pub unit: i32,
    pub form: i32,
    pub level: u32,
    pub plus: u32,
    pub talents: Vec<(i32, i32)>,
    pub orbs: Vec<(i32, i32)>,
}

/// The levels of a cat base part id in each of the three part slots.
#[derive(Clone, Copy, Debug, PartialEq, Eq, Structural)]
pub struct PartLevels {
    pub cannon: i32,
    pub style: i32,
    pub foundation: i32,
}

/// The sandbox options a battle is set up from, read into plain values.
pub struct SandboxOptions {
    /// The number of places in the battle's tech table.
    pub tech_slots: usize,
    /// Each tech of the options, in order: its place in the battle's tech table, its level
    /// and plus level.
    pub techs: Vec<(usize, u32, u32)>,
    /// The completion percentage of each configured chapter.
    pub treasures: Vec<u32>,
    /// The number of treasure chapters the battle has.
    pub chapters: usize,
    /// The number of treasure stages in a chapter.
    pub treasure_stages: u32,
    pub altar: Option<u32>,
    pub cat_god: CatGod,
    /// Which battle items are left out, by item.
    pub items_off: Vec<bool>,
    /// The number of battle items the battle has.
    pub item_slots: usize,
    pub speed_engaged: bool,
    pub cannon: Option<i32>,
    pub style: Option<i32>,
    pub foundation: Option<i32>,
    /// The levels typed for the chosen cannon, style and foundation.
    pub cannon_level: i32,
    pub style_level: i32,
    pub foundation_level: i32,
}

/// What a battle is set up with.
pub struct SetupPlan {
    pub lineup: Vec<SetupUnit>,
    pub tech: Vec<(u32, u32)>,
    /// How many treasure stages of each chapter are owned (at the superior grade).
    pub owned: Vec<u32>,
    pub altar: Option<u32>,
    pub cat_god: CatGod,
    /// Whether each battle item is stocked.
    pub items: Vec<bool>,
    pub speed_engaged: bool,
    pub cannon: i32,
    pub style: i32,
    pub foundation: i32,
    /// The levels of each part id in use, by id, in ascending order of id.
    pub parts: Vec<(i32, PartLevels)>,
}

/// The tech table: the first tech at level 1, the rest at 0, then each tech of the options
/// at its place, a later one winning.
pub open spec fn spec_tech(techs: Seq<(usize, u32, u32)>, slots: usize) -> Seq<(u32, u32)>
    decreases techs.len(),
{
    if techs.len() == 0 {
        Seq::new(slots as nat, |i: int| if i == 0 { (1u32, 0u32) } else { (0u32, 0u32) })
    } else {
        let t = spec_tech(techs.drop_last(), slots);
        let c = techs.last();
        if c.0 < slots { t.update(c.0 as int, (c.1, c.2)) } else { t }
    }
}

/// Some tech of the options sits at place `i`.
pub open spec fn set_by_options(techs: Seq<(usize, u32, u32)>, i: int) -> bool {
    exists|k: int| 0 <= k < techs.len() && (#[trigger] techs[k]).0 == i
}

proof fn lemma_tech(techs: Seq<(usize, u32, u32)>, slots: usize)
    ensures
        spec_tech(techs, slots).len() == slots,
        forall|i: int| 0 <= i < slots && !set_by_options(techs, i) ==>
            #[trigger] spec_tech(techs, slots)[i] == (if i == 0 { (1u32, 0u32) } else { (0u32, 0u32) }),
    decreases techs.len(),
{
    if techs.len() > 0 {
        lemma_tech(techs.drop_last(), slots);
        assert forall|i: int| 0 <= i < slots && !set_by_options(techs, i) implies
            #[trigger] spec_tech(techs, slots)[i] == (if i == 0 { (1u32, 0u32) } else { (0u32, 0u32) }) by {
            assert(!set_by_options(techs.drop_last(), i)) by {
                if set_by_options(techs.drop_last(), i) {
                    let k = choose|k: int| 0 <= k < techs.drop_last().len() && (#[trigger] techs.drop_last()[k]).0 == i;
                    assert(techs[k] == techs.drop_last()[k]);
                }
            }
            assert(techs.last() == techs[techs.len() - 1]);
        }
    }
}

/// The completion percentage of a chapter: as configured, or full past the configured ones.
pub open spec fn spec_percent(treasures: Seq<u32>, chapter: int) -> u32 {
    if chapter < treasures.len() { treasures[chapter] } else { PERCENT_MAX }
}

/// The treasure stages of a chapter owned at a percentage: that share, rounded up, and
/// never more than the chapter has.
pub open spec fn spec_owned(stages: u32, percent: u32) -> int {
    let share = spec_treasures_owned(stages, percent);
    if share > stages { stages as int } else { share }
}

/// The levels of the part id `id`: the chosen cannon, style and foundation give their
/// typed levels in their slot; a part's cannon level is at least 1.
pub open spec fn spec_part_levels(o: SandboxOptions, id: i32) -> PartLevels {
    let c = if o.cannon.unwrap_or(0) == id { o.cannon_level } else { 0 };
    PartLevels {
        cannon: if c < 1 { 1 } else { c },
        style: if o.style.unwrap_or(0) == id { o.style_level } else { 0 },
        foundation: if o.foundation.unwrap_or(0) == id { o.foundation_level } else { 0 },
    }
}

/// Whether `id` is one of the chosen parts (none chosen counts as part 0).
pub open spec fn in_use(o: SandboxOptions, id: i32) -> bool {
    id == o.cannon.unwrap_or(0) || id == o.style.unwrap_or(0) || id == o.foundation.unwrap_or(0)
}

/// Some entry of `parts` is for the part id `id`.
pub open spec fn has_part(parts: Seq<(i32, PartLevels)>, id: i32) -> bool {
    exists|a: int| 0 <= a < parts.len() && (#[trigger] parts[a]).0 == id
}

fn insert_id(ids: &mut Vec<i32>, id: i32)
    requires
        forall|a: int, b: int| 0 <= a < b < old(ids)@.len() ==> old(ids)@[a] < old(ids)@[b],
    ensures
        forall|a: int, b: int| 0 <= a < b < final(ids)@.len() ==> final(ids)@[a] < final(ids)@[b],
        forall|x: i32| final(ids)@.contains(x) <==> (old(ids)@.contains(x) || x == id),
{
    let mut p: usize = 0;
    while p < ids.len() && ids[p] < id
        invariant
            p <= ids@.len(),
            forall|a: int| 0 <= a < p ==> ids@[a] < id,
        decreases ids.len() - p,
    {
        p = p + 1;
    }
    if p < ids.len() && ids[p] == id {
        return;
    }
    let ghost before = ids@;
    ids.insert(p, id);
    proof {
        assert(ids@ =~= before.take(p as int).push(id) + before.skip(p as int));
        assert forall|a: int, b: int| 0 <= a < b < ids@.len() implies ids@[a] < ids@[b] by {
            if b < p {
            } else if b == p {
            } else if a < p {
                assert(ids@[b] == before[b - 1]);
            } else if a == p {
                assert(ids@[b] == before[b - 1]);
                if b - 1 > p {
                    assert(before[p as int] < before[b - 1]);
                }
            } else {
                assert(ids@[a] == before[a - 1]);
                assert(ids@[b] == before[b - 1]);
            }
        }
        assert forall|x: i32| ids@.contains(x) <==> (before.contains(x) || x == id) by {
            if ids@.contains(x) {
                let k = choose|k: int| 0 <= k < ids@.len() && ids@[k] == x;
                if k < p {
                    assert(before[k] == x);
                } else if k > p {
                    assert(before[k - 1] == x);
                }
            }
            if before.contains(x) {
                let k = choose|k: int| 0 <= k < before.len() && before[k] == x;
                if k < p {
                    assert(ids@[k] == x);
                } else {
                    assert(ids@[k + 1] == x);
                }
            }
            if x == id {
                assert(ids@[p as int] == id);
            }
        }
    }
}

/// What a battle is set up with, from the options and the lineup's units.
pub fn sandbox_setup(options: &SandboxOptions, lineup: Vec<SetupUnit>) -> (s: SetupPlan)
    requires
        options.tech_slots > 0,
        forall|c: int| 0 <= c < options.chapters ==>
            options.treasure_stages * spec_percent(options.treasures@, c) <= u32::MAX,
    ensures
        s.lineup@ == lineup@,
        s.tech@ == spec_tech(options.techs@, options.tech_slots),
        s.tech@.len() == options.tech_slots,
        forall|i: int| 0 <= i < options.tech_slots && !set_by_options(options.techs@, i) ==> #[trigger] s.tech@[i] == (if i == 0 { (1u32, 0u32) } else { (0u32, 0u32) }),
        s.owned@.len() == options.chapters,
        forall|c: int| 0 <= c < options.chapters ==>
            #[trigger] s.owned@[c] == spec_owned(options.treasure_stages, spec_percent(options.treasures@, c)),
        s.altar == options.altar,
        s.cat_god == options.cat_god,
        s.items@.len() == options.item_slots,
        forall|i: int| 0 <= i < options.item_slots ==>
            #[trigger] s.items@[i] == (i < options.items_off@.len() && !options.items_off@[i]),
        s.speed_engaged == options.speed_engaged,
        s.cannon == options.cannon.unwrap_or(0),
        s.style == options.style.unwrap_or(0),
        s.foundation == options.foundation.unwrap_or(0),
        forall|a: int, b: int| 0 <= a < b < s.parts@.len() ==> s.parts@[a].0 < s.parts@[b].0,
        forall|id: i32| #[trigger] in_use(*options, id) == has_part(s.parts@, id),
        forall|a: int| 0 <= a < s.parts@.len() ==> (#[trigger] s.parts@[a]).1 == spec_part_levels(*options, s.parts@[a].0),
{
    let mut tech: Vec<(u32, u32)> = Vec::new();
    let mut t: usize = 0;
    while t < options.tech_slots
        invariant
            t <= options.tech_slots,
            tech@.len() == t,
            forall|i: int| 0 <= i < t ==> #[trigger] tech@[i] == (if i == 0 { (1u32, 0u32) } else { (0u32, 0u32) }),
        decreases options.tech_slots - t,
    {
        if t == 0 {
            tech.push((1, 0));
        } else {
            tech.push((0, 0));
        }
        t = t + 1;
    }
    assert(tech@ =~= spec_tech(options.techs@.take(0), options.tech_slots));
    let mut k: usize = 0;
    while k < options.techs.len()
        invariant
            k <= options.techs@.len(),
            tech@ == spec_tech(options.techs@.take(k as int), options.tech_slots),
        decreases options.techs.len() - k,
    {
        let (slot, level, plus) = options.techs[k];
        proof {
            assert(options.techs@.take(k + 1).drop_last() =~= options.techs@.take(k as int));
            assert(options.techs@.take(k + 1).last() == options.techs@[k as int]);
            lemma_tech(options.techs@.take(k as int), options.tech_slots);
        }
        if slot < tech.len() {
            tech.set(slot, (level, plus));
        }
        k = k + 1;
    }
    assert(options.techs@.take(k as int) =~= options.techs@);
    proof { lemma_tech(options.techs@, options.tech_slots); }

    let mut owned: Vec<u32> = Vec::new();
    let mut c: usize = 0;
    while c < options.chapters
        invariant
            c <= options.chapters,
            owned@.len() == c,
            forall|x: int| 0 <= x < options.chapters ==>
                options.treasure_stages * spec_percent(options.treasures@, x) <= u32::MAX,
            forall|x: int| 0 <= x < c ==>
                #[trigger] owned@[x] == spec_owned(options.treasure_stages, spec_percent(options.treasures@, x)),
        decreases options.chapters - c,
    {
        let percent = if c < options.treasures.len() { options.treasures[c] } else { PERCENT_MAX };
        assert(percent == spec_percent(options.treasures@, c as int));
        let share = treasures_owned(options.treasure_stages, percent);
        let stages = if share > options.treasure_stages { options.treasure_stages } else { share };
        owned.push(stages);
        c = c + 1;
    }

    let mut items: Vec<bool> = Vec::new();
    let mut i: usize = 0;
    while i < options.item_slots
        invariant
            i <= options.item_slots,
            items@.len() == i,
            forall|x: int| 0 <= x < i ==>
                #[trigger] items@[x] == (x < options.items_off@.len() && !options.items_off@[x]),
        decreases options.item_slots - i,
    {
        items.push(i < options.items_off.len() && !options.items_off[i]);
        i = i + 1;
    }

    let cannon = match options.cannon { Some(x) => x, None => 0 };
    let style = match options.style { Some(x) => x, None => 0 };
    let foundation = match options.foundation { Some(x) => x, None => 0 };
    let mut ids: Vec<i32> = Vec::new();
    insert_id(&mut ids, cannon);
    insert_id(&mut ids, style);
    insert_id(&mut ids, foundation);
    let mut parts: Vec<(i32, PartLevels)> = Vec::new();
    let mut j: usize = 0;
    while j < ids.len()
        invariant
            j <= ids@.len(),
            parts@.len() == j,
            cannon == options.cannon.unwrap_or(0),
            style == options.style.unwrap_or(0),
            foundation == options.foundation.unwrap_or(0),
            forall|x: i32| ids@.contains(x) <==> (x == cannon || x == style || x == foundation),
            forall|a: int| 0 <= a < j ==> (#[trigger] parts@[a]).0 == ids@[a]
                && parts@[a].1 == spec_part_levels(*options, ids@[a]),
        decreases ids.len() - j,
    {
        let id = ids[j];
        let c = if id == cannon { options.cannon_level } else { 0 };
        let levels = PartLevels {
            cannon: if c < 1 { 1 } else { c },
            style: if id == style { options.style_level } else { 0 },
            foundation: if id == foundation { options.foundation_level } else { 0 },
        };
        parts.push((id, levels));
        j = j + 1;
    }
    proof {
        assert forall|id: i32| #[trigger] in_use(*options, id) == has_part(parts@, id) by {
            assert(parts@.len() == ids@.len());
            if in_use(*options, id) {
                assert(id == cannon || id == style || id == foundation);
                assert(ids@.contains(id));
                let a = choose|a: int| 0 <= a < ids@.len() && ids@[a] == id;
                assert(parts@[a].0 == id);
            }
            if has_part(parts@, id) {
                let a = choose|a: int| 0 <= a < parts@.len() && (#[trigger] parts@[a]).0 == id;
                assert(ids@[a] == id);
                assert(ids@.contains(id));
                assert(id == cannon || id == style || id == foundation);
            }
        }
    }
    SetupPlan {
        lineup,
        tech,
        owned,
        altar: options.altar,
        cat_god: options.cat_god,
        items,
        speed_engaged: options.speed_engaged,
        cannon,
        style,
        foundation,
        parts,
    }
}

} // verus!
