//! The sandbox's battle configuration form: treasure, tech and altar fields that take
//! only what may be typed, the base parts offered and chosen, the battle items stocked,
//! and how the lineup is laid out.

use vstd::prelude::*;
use crate::sandbox::{spec_typable, typable};
use crate::text::push_str;

verus! {

/// A part of the cat base.
#[derive(Clone, Copy, Debug, PartialEq, Eq, Structural)]
pub enum PartSlot {
    Cannon,
    Style,
    Foundation,
}

/// The configuration as typed and chosen: a treasure field per chapter, a field per
/// tech, the altar's level cap, which battle items are left out, the base parts and
/// their level fields.
pub struct ConfigForm {
    pub treasures: Vec<String>,
    pub techs: Vec<String>,
    pub altar_level: String,
    pub items_off: Vec<bool>,
    pub cannon: Option<i32>,
    pub style: Option<i32>,
    pub foundation: Option<i32>,
    pub cannon_level: String,
    pub style_level: String,
    pub foundation_level: String,
}

impl ConfigForm {
    /// A chapter's treasure field is edited: taken when the chapter exists and the text
    /// may be typed.
    pub fn edit_treasure(&mut self, chapter: usize, entry: String)
        ensures
            (chapter < old(self).treasures@.len() && spec_typable(entry@)) ==>
                final(self).treasures@ == old(self).treasures@.update(chapter as int, entry),
            !(chapter < old(self).treasures@.len() && spec_typable(entry@)) ==> final(self).treasures == old(self).treasures,
            *final(self) == (ConfigForm { treasures: final(self).treasures, ..*old(self) }),
    {
        if chapter < self.treasures.len() && typable(entry.as_str()) {
            self.treasures.set(chapter, entry);
        }
    }

    /// A tech's level field is edited: taken when the tech exists and the text may be
    /// typed.
    pub fn edit_tech(&mut self, index: usize, entry: String)
        ensures
            (index < old(self).techs@.len() && spec_typable(entry@)) ==>
                final(self).techs@ == old(self).techs@.update(index as int, entry),
            !(index < old(self).techs@.len() && spec_typable(entry@)) ==> final(self).techs == old(self).techs,
            *final(self) == (ConfigForm { techs: final(self).techs, ..*old(self) }),
    {
        if index < self.techs.len() && typable(entry.as_str()) {
            self.techs.set(index, entry);
        }
    }

    /// The altar's level cap is edited: taken when the text may be typed.
    pub fn edit_altar(&mut self, entry: String)
        ensures
            spec_typable(entry@) ==> final(self).altar_level == entry,
            !spec_typable(entry@) ==> final(self).altar_level == old(self).altar_level,
            *final(self) == (ConfigForm { altar_level: final(self).altar_level, ..*old(self) }),
    {
        if typable(entry.as_str()) {
            self.altar_level = entry;
        }
    }

    /// A battle item is stocked or left out (an item beyond the list is ignored).
    pub fn set_item(&mut self, item: usize, stocked: bool)
        ensures
            item < old(self).items_off@.len() ==> final(self).items_off@ == old(self).items_off@.update(item as int, !stocked),
            item >= old(self).items_off@.len() ==> final(self).items_off == old(self).items_off,
            *final(self) == (ConfigForm { items_off: final(self).items_off, ..*old(self) }),
    {
        if item < self.items_off.len() {
            self.items_off.set(item, !stocked);
        }
    }

    /// Whether a battle item is stocked: unless it is listed as left out.
    pub fn stocked(&self, item: usize) -> (b: bool)
        ensures
            b == !(item < self.items_off@.len() && self.items_off@[item as int]),
    {
        !(item < self.items_off.len() && self.items_off[item])
    }

    /// A base part is chosen.
    pub fn choose_part(&mut self, slot: PartSlot, id: i32)
        ensures
            final(self).cannon == (if slot == PartSlot::Cannon { Some(id) } else { old(self).cannon }),
            final(self).style == (if slot == PartSlot::Style { Some(id) } else { old(self).style }),
            final(self).foundation == (if slot == PartSlot::Foundation { Some(id) } else { old(self).foundation }),
            *final(self) == (ConfigForm {
                cannon: final(self).cannon,
                style: final(self).style,
                foundation: final(self).foundation,
                ..*old(self)
            }),
    {
        match slot {
            PartSlot::Cannon => self.cannon = Some(id),
            PartSlot::Style => self.style = Some(id),
            PartSlot::Foundation => self.foundation = Some(id),
        }
    }

    /// A base part's level field is edited: taken when the text may be typed.
    pub fn edit_level(&mut self, slot: PartSlot, entry: String)
        ensures
            !spec_typable(entry@) ==> *final(self) == *old(self),
            spec_typable(entry@) ==> *final(self) == (match slot {
                PartSlot::Cannon => ConfigForm { cannon_level: entry, ..*old(self) },
                PartSlot::Style => ConfigForm { style_level: entry, ..*old(self) },
                PartSlot::Foundation => ConfigForm { foundation_level: entry, ..*old(self) },
            }),
    {
        if !typable(entry.as_str()) {
            return;
        }
        match slot {
            PartSlot::Cannon => self.cannon_level = entry,
            PartSlot::Style => self.style_level = entry,
            PartSlot::Foundation => self.foundation_level = entry,
        }
    }
}

/// The part shown as chosen: the one with the chosen id (0 when none is chosen), else
/// the first offered.
pub fn held_part(offered: &Vec<Part>, id: Option<i32>) -> (r: Option<usize>)
    ensures
        ({
            let wanted = match id { Some(i) => i, None => 0 };
            &&& r matches Some(k) ==> k < offered@.len()
            &&& (exists|k: int| 0 <= k < offered@.len() && (#[trigger] offered@[k]).id == wanted) ==>
                (r matches Some(k) && offered@[k as int].id == wanted
                    && forall|j: int| 0 <= j < k ==> (#[trigger] offered@[j]).id != wanted)
            &&& !(exists|k: int| 0 <= k < offered@.len() && (#[trigger] offered@[k]).id == wanted) ==>
                r == (if offered@.len() > 0 { Some(0usize) } else { None::<usize> })
        }),
{
    let wanted = match id {
        Some(i) => i,
        None => 0,
    };
    let mut k: usize = 0;
    while k < offered.len()
        invariant
            k <= offered@.len(),
            wanted == (match id { Some(i) => i, None => 0 }),
            forall|j: int| 0 <= j < k ==> (#[trigger] offered@[j]).id != wanted,
        decreases offered.len() - k,
    {
        if offered[k].id == wanted {
            return Some(k);
        }
        k = k + 1;
    }
    if offered.len() > 0 { Some(0) } else { None }
}

/// How the sandbox lays out the lineup.
#[derive(Clone, Copy, Debug, PartialEq, Eq, Structural)]
pub enum Formation {
    Single,
    Double,
}

impl Formation {
    /// The label of a formation.
    pub fn label(self) -> (s: &'static str)
        ensures
            s@ == (match self {
                Formation::Single => "One Row"@,
                Formation::Double => "Two Rows"@,
            }),
    {
        match self {
            Formation::Single => "One Row",
            Formation::Double => "Two Rows",
        }
    }

    /// Whether the formation uses two rows.
    pub fn two_rows(self) -> (b: bool)
        ensures
            b == (self == Formation::Double),
    {
        self == Formation::Double
    }
}

/// A cat base part offered in the base panel.
#[derive(Clone, Debug, PartialEq, Eq)]
pub struct Part {
    pub id: i32,
    pub label: String,
}

/// The label of a base part: its name, except that id 0 of an unnamed slot reads "None".
pub open spec fn spec_part_label(id: i32, named: bool, name: Seq<char>) -> Seq<char> {
    if named || id != 0 {
        name
    } else {
        "None"@
    }
}

impl Part {
    /// A part with its label; `name` is the part's name from the game data.
    pub fn offered(id: i32, named: bool, name: &str) -> (p: Part)
        ensures
            p.id == id,
            p.label@ == spec_part_label(id, named, name@),
    {
        let mut label = String::new();
        if named || id != 0 {
            push_str(&mut label, name);
        } else {
            push_str(&mut label, "None");
        }
        assert(label@ =~= spec_part_label(id, named, name@));
        Part { id, label }
    }
}

} // verus!
