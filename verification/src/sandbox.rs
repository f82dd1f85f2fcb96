//! The battle sandbox's shared rules: what may be typed into its number fields, how
//! replay units are levelled and priced, the percentages typed into export fields, when a
//! click is a double click, and how much treasure a completion percentage owns.

use vstd::prelude::*;
use crate::text::{chars_of, dec, dec_value, decimal, is_digit, parse_digits_u32, push_char, push_decimal, push_str};

verus! {

/// The most characters a level or treasure field takes.
pub const LEVEL_DIGITS: usize = 6;
/// The smallest percentage accepted.
pub const PERCENT_MIN: u32 = 1;
/// The largest percentage accepted.
pub const PERCENT_MAX: u32 = 100;
/// The longest gap between two clicks of a double click (ms).
pub const DOUBLE_CLICK_MS: u64 = 400;

/// Whether a character may be typed into a sandbox number field.
pub open spec fn field_char(c: char) -> bool {
    is_digit(c) || c == '+' || c == '%'
}

/// Whether text may stand in a sandbox number field: at most six characters, each a
/// digit, a plus or a percent sign.
pub open spec fn spec_typable(entry: Seq<char>) -> bool {
    entry.len() <= LEVEL_DIGITS && forall|i: int| 0 <= i < entry.len() ==> field_char(#[trigger] entry[i])
}

/// Whether text may stand in a sandbox number field.
pub fn typable(entry: &str) -> (b: bool)
    ensures
        b == spec_typable(entry@),
{
    let v = chars_of(entry);
    let mut i: usize = 0;
    while i < v.len()
        invariant
            v@ == entry@,
            i <= v.len(),
            forall|j: int| 0 <= j < i ==> field_char(#[trigger] v@[j]),
        decreases v.len() - i,
    {
        let c = v[i];
        if !(('0' <= c && c <= '9') || c == '+' || c == '%') {
            return false;
        }
        i = i + 1;
    }
    v.len() <= LEVEL_DIGITS
}

/// A unit's level in a replay, held to the altar's cap: with a cap, the plus level is
/// dropped and the level is at most one above a non-negative cap; without one, both stay.
pub open spec fn spec_clamped(level: u32, plus: u32, altar_cap: Option<i32>) -> (u32, u32) {
    match altar_cap {
        Some(cap) => (
            if cap < 0 { level } else if level <= cap + 1 { level } else { (cap + 1) as u32 },
            0,
        ),
        None => (level, plus),
    }
}

/// A unit's level in a replay, held to the altar's cap.
pub fn clamped(level: u32, plus: u32, altar_cap: Option<i32>) -> (r: (u32, u32))
    ensures
        r == spec_clamped(level, plus, altar_cap),
{
    match altar_cap {
        Some(cap) => {
            if cap < 0 {
                (level, 0)
            } else {
                let ceiling: u32 = cap as u32 + 1;
                (if level <= ceiling { level } else { ceiling }, 0)
            }
        },
        None => (level, plus),
    }
}

/// A level as shown on a unit tile: `Lv30`, or `Lv30+5` with a plus level.
pub open spec fn spec_level_label(level: u32, plus: u32) -> Seq<char> {
    if plus == 0 {
        "Lv"@ + dec(level as nat)
    } else {
        "Lv"@ + dec(level as nat) + "+"@ + dec(plus as nat)
    }
}

/// A level as shown on a unit tile.
pub fn level_label(level: u32, plus: u32) -> (s: String)
    ensures
        s@ == spec_level_label(level, plus),
{
    let mut s = String::new();
    push_str(&mut s, "Lv");
    push_decimal(&mut s, level as u64);
    if plus != 0 {
        push_str(&mut s, "+");
        push_decimal(&mut s, plus as u64);
    }
    assert(s@ =~= spec_level_label(level, plus));
    s
}

/// A level as typed into the unit inspector: `30+5`.
pub fn level_entry(level: u32, plus: u32) -> (s: String)
    ensures
        s@ == dec(level as nat) + "+"@ + dec(plus as nat),
{
    let mut s = decimal(level as u64);
    push_str(&mut s, "+");
    push_decimal(&mut s, plus as u64);
    s
}

/// A unit's deploy cost as shown, with the cent sign; negative costs are not shown.
pub open spec fn spec_cost_label(cost: Option<i32>) -> Option<Seq<char>> {
    match cost {
        Some(c) => if c >= 0 { Some(dec(c as nat) + seq!['\u{a2}']) } else { None },
        None => None,
    }
}

/// A unit's deploy cost as shown.
pub fn cost_label(cost: Option<i32>) -> (r: Option<String>)
    ensures
        r matches Some(s) ==> spec_cost_label(cost) == Some(s@),
        r is None ==> spec_cost_label(cost) is None,
{
    match cost {
        Some(c) => {
            if c >= 0 {
                let mut s = decimal(c as u64);
                push_char(&mut s, '\u{a2}');
                Some(s)
            } else {
                None
            }
        },
        None => None,
    }
}

/// The percentage typed into an export field. Anything but digits is refused (`None`);
/// an empty field clears the value; otherwise the number is held between 1 and 100 (a
/// number too large for a `u32` counts as 100) and shown as that number.
pub open spec fn spec_percentage(input: Seq<char>) -> Option<(Option<u32>, Seq<char>)> {
    if !(forall|i: int| 0 <= i < input.len() ==> is_digit(#[trigger] input[i])) {
        None
    } else if input.len() == 0 {
        Some((None, Seq::empty()))
    } else {
        let n = dec_value(input);
        let held: u32 = if n > u32::MAX { PERCENT_MAX } else if n < PERCENT_MIN { PERCENT_MIN } else if n > PERCENT_MAX { PERCENT_MAX } else { n as u32 };
        Some((Some(held), dec(held as nat)))
    }
}

/// The percentage typed into an export field.
pub fn percentage(input: &str) -> (r: Option<(Option<u32>, String)>)
    ensures
        r matches Some((n, s)) ==> spec_percentage(input@) == Some((n, s@)),
        r is None ==> spec_percentage(input@) is None,
{
    let v = chars_of(input);
    let mut i: usize = 0;
    while i < v.len()
        invariant
            v@ == input@,
            i <= v.len(),
            forall|j: int| 0 <= j < i ==> is_digit(#[trigger] v@[j]),
        decreases v.len() - i,
    {
        if !('0' <= v[i] && v[i] <= '9') {
            return None;
        }
        i = i + 1;
    }
    if v.len() == 0 {
        return Some((None, String::new()));
    }
    assert(v@.subrange(0, v@.len() as int) =~= input@);
    let parsed = parse_digits_u32(&v, 0, v.len());
    let raw: u32 = match parsed {
        Some(n) => n,
        None => PERCENT_MAX,
    };
    let held: u32 = if raw < PERCENT_MIN { PERCENT_MIN } else if raw > PERCENT_MAX { PERCENT_MAX } else { raw };
    Some((Some(held), decimal(held as u64)))
}

/// Whether a click on `line` at `now` completes a double click: the previous click was
/// on the same line no longer than the double-click gap ago. The result is the new last
/// click (cleared after a double click) and the line opened, if any.
pub open spec fn spec_click(clicked: Option<(usize, u64)>, line: usize, now: u64) -> (Option<(usize, u64)>, Option<usize>) {
    let doubled = match clicked {
        Some((held, at)) => held == line && (if now >= at { now - at } else { 0 }) <= DOUBLE_CLICK_MS,
        None => false,
    };
    if doubled {
        (None, Some(line))
    } else {
        (Some((line, now)), None)
    }
}

/// Handles a click on a line of a list.
pub fn click(clicked: Option<(usize, u64)>, line: usize, now: u64) -> (r: (Option<(usize, u64)>, Option<usize>))
    ensures
        r == spec_click(clicked, line, now),
{
    let doubled = match clicked {
        Some((held, at)) => held == line && (if now >= at { now - at } else { 0 }) <= DOUBLE_CLICK_MS,
        None => false,
    };
    if doubled {
        (None, Some(line))
    } else {
        (Some((line, now)), None)
    }
}

/// How many of a chapter's treasure stages count as owned at `percent`: that share of
/// the stages, rounded up.
pub open spec fn spec_treasures_owned(stages: u32, percent: u32) -> int {
    (stages * percent + PERCENT_MAX - 1) / (PERCENT_MAX as int)
}

/// How many of a chapter's treasure stages count as owned at `percent`.
pub fn treasures_owned(stages: u32, percent: u32) -> (n: u32)
    requires
        stages * percent <= u32::MAX,
    ensures
        n == spec_treasures_owned(stages, percent),
{
    let total = stages * percent;
    let whole = total / PERCENT_MAX;
    if total % PERCENT_MAX == 0 { whole } else { whole + 1 }
}

} // verus!
