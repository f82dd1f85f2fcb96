//! The settings page: number fields that keep what is typed and take what parses, and
//! the language priority list, reordered by dragging a language up or down.

use vstd::prelude::*;
use crate::text::{all_digits, chars_of, dec_int, dec_value, decimal_signed, is_digit, parse_digits_u32, same_text};

verus! {

/// The integer a text reads as, as Rust reads an `i32`: an optional sign, then at least
/// one decimal digit, with nothing around them; `None` if it does not read or does not
/// fit.
pub open spec fn spec_parse_i32(s: Seq<char>) -> Option<i32> {
    let signed = s.len() > 0 && (s[0] == '-' || s[0] == '+');
    let digits = if signed { s.skip(1) } else { s };
    let value: int = if signed && s[0] == '-' { -(dec_value(digits) as int) } else { dec_value(digits) as int };
    if digits.len() == 0 || !all_digits(digits) || value < i32::MIN || value > i32::MAX {
        None
    } else {
        Some(value as i32)
    }
}

/// The integer a text reads as (see [`spec_parse_i32`]).
pub fn parse_i32(s: &str) -> (r: Option<i32>)
    ensures
        r == spec_parse_i32(s@),
{
    let v = chars_of(s);
    let n = v.len();
    let signed = n > 0 && (v[0] == '-' || v[0] == '+');
    let negative = signed && v[0] == '-';
    let from: usize = if signed { 1 } else { 0 };
    let ghost digits = if signed { s@.skip(1) } else { s@ };
    assert(v@.subrange(from as int, n as int) =~= digits);
    if from == n {
        return None;
    }
    let mut i = from;
    while i < n
        invariant
            from <= i <= n,
            n == v@.len(),
            v@ == s@,
            from == (if signed { 1usize } else { 0usize }),
            signed == (s@.len() > 0 && (s@[0] == '-' || s@[0] == '+')),
            digits == (if signed { s@.skip(1) } else { s@ }),
            forall|j: int| from <= j < i ==> is_digit(#[trigger] v@[j]),
        decreases n - i,
    {
        if !('0' <= v[i] && v[i] <= '9') {
            proof {
                assert(digits[i - from] == v@[i as int]);
            }
            return None;
        }
        i = i + 1;
    }
    assert(all_digits(digits)) by {
        assert forall|j: int| 0 <= j < digits.len() implies is_digit(#[trigger] digits[j]) by {
            assert(digits[j] == v@[from + j]);
        }
    }
    match parse_digits_u32(&v, from, n) {
        Some(m) => {
            if negative {
                if m <= 2147483648u32 {
                    let value: i64 = -(m as i64);
                    Some(value as i32)
                } else {
                    None
                }
            } else {
                if m <= 2147483647u32 {
                    Some(m as i32)
                } else {
                    None
                }
            }
        },
        None => None,
    }
}

/// A number field: the text as typed, and the number it last read as.
pub struct NumberField {
    pub text: String,
    pub value: i32,
}

impl NumberField {
    /// A field showing `value`.
    pub fn showing(value: i32) -> (f: NumberField)
        ensures
            f.value == value,
            f.text@ == dec_int(value as int),
    {
        NumberField { text: decimal_signed(value as i64), value }
    }

    /// The field shows `value` again (its page is opened).
    pub fn reset(&mut self, value: i32)
        ensures
            final(self).value == value,
            final(self).text@ == dec_int(value as int),
    {
        self.text = decimal_signed(value as i64);
        self.value = value;
    }

    /// The field is edited: the text is kept as typed; the number changes only when the
    /// text reads as one.
    pub fn edit(&mut self, text: String)
        ensures
            final(self).text@ == text@,
            final(self).value == (match spec_parse_i32(text@) {
                Some(v) => v,
                None => old(self).value,
            }),
    {
        match parse_i32(text.as_str()) {
            Some(v) => self.value = v,
            None => {},
        }
        self.text = text;
    }
}

/// A drag in the language list: pressed on a row, then moving it.
#[derive(Clone, Copy, Debug, PartialEq, Eq, Structural)]
pub enum LanguageDrag {
    Idle,
    Pressed(usize),
    Moving(usize),
}

/// The list after the language at `from` moves to `to`, the others keeping their order.
pub open spec fn moved(list: Seq<Seq<char>>, from: int, to: int) -> Seq<Seq<char>> {
    list.remove(from).insert(to, list[from])
}

/// The views of a list of strings.
pub open spec fn views(list: Seq<String>) -> Seq<Seq<char>> {
    list.map_values(|s: String| s@)
}

/// The language priority list's editor: the drag in progress, the list as the drag found
/// it, and whether the list changed since the change was last taken.
pub struct LanguageOrder {
    pub drag: LanguageDrag,
    pub baseline: Vec<String>,
    pub settled: bool,
}

fn same_list(a: &Vec<String>, b: &Vec<String>) -> (r: bool)
    ensures
        r == (views(a@) == views(b@)),
{
    if a.len() != b.len() {
        assert(views(a@).len() != views(b@).len());
        return false;
    }
    let mut i: usize = 0;
    while i < a.len()
        invariant
            i <= a@.len(),
            a@.len() == b@.len(),
            forall|j: int| 0 <= j < i ==> a@[j]@ == b@[j]@,
        decreases a.len() - i,
    {
        if !same_text(a[i].as_str(), b[i].as_str()) {
            assert(views(a@)[i as int] != views(b@)[i as int]);
            return false;
        }
        i = i + 1;
    }
    assert(views(a@) =~= views(b@));
    true
}

fn copy_list(a: &Vec<String>) -> (r: Vec<String>)
    ensures
        views(r@) == views(a@),
{
    let mut r: Vec<String> = Vec::new();
    let mut i: usize = 0;
    while i < a.len()
        invariant
            i <= a@.len(),
            r@.len() == i,
            forall|j: int| 0 <= j < i ==> r@[j]@ == a@[j]@,
        decreases a.len() - i,
    {
        r.push(a[i].clone());
        i = i + 1;
    }
    assert(views(r@) =~= views(a@));
    r
}

impl LanguageOrder {
    /// No drag, nothing changed.
    pub fn new() -> (o: LanguageOrder)
        ensures
            o.drag == LanguageDrag::Idle,
            o.baseline@.len() == 0,
            !o.settled,
    {
        LanguageOrder { drag: LanguageDrag::Idle, baseline: Vec::new(), settled: false }
    }

    /// Whether a language is being dragged.
    pub fn is_dragging(&self) -> (b: bool)
        ensures
            b == !(self.drag == LanguageDrag::Idle),
    {
        !(self.drag == LanguageDrag::Idle)
    }

    /// The row `index` is pressed: the list as it is now is kept to compare with later.
    pub fn start(&mut self, index: usize, priority: &Vec<String>)
        ensures
            final(self).drag == LanguageDrag::Pressed(index),
            views(final(self).baseline@) == views(priority@),
            final(self).settled == old(self).settled,
    {
        self.drag = LanguageDrag::Pressed(index);
        self.baseline = copy_list(priority);
    }

    /// The pointer moved by `steps` whole rows (down when positive). A pressed row starts
    /// moving (the first move moves nothing); a moving row goes that many rows, as far as
    /// the list's ends allow. Returns how many rows it went.
    pub fn shift(&mut self, priority: &mut Vec<String>, steps: i64) -> (went: i64)
        requires
            old(self).drag matches LanguageDrag::Moving(i) ==> i < old(priority)@.len(),
        ensures
            match old(self).drag {
                LanguageDrag::Moving(i) => {
                    let last = old(priority)@.len() - 1;
                    let target = if i + steps < 0 { 0 } else if i + steps > last { last } else { i + steps };
                    &&& final(self).drag == LanguageDrag::Moving(target as usize)
                    &&& went == target - i
                    &&& views(final(priority)@) == moved(views(old(priority)@), i as int, target)
                },
                LanguageDrag::Pressed(i) => {
                    &&& final(self).drag == LanguageDrag::Moving(i)
                    &&& went == 0
                    &&& final(priority)@ == old(priority)@
                },
                LanguageDrag::Idle => {
                    &&& final(self).drag == LanguageDrag::Idle
                    &&& went == 0
                    &&& final(priority)@ == old(priority)@
                },
            },
            views(final(self).baseline@) == views(old(self).baseline@),
            final(self).settled == old(self).settled,
    {
        match self.drag {
            LanguageDrag::Idle => 0,
            LanguageDrag::Pressed(i) => {
                self.drag = LanguageDrag::Moving(i);
                0
            },
            LanguageDrag::Moving(i) => {
                let last = priority.len() - 1;
                let target: usize = if steps < 0 {
                    let back: u64 = if steps == i64::MIN { 9223372036854775808u64 } else { (-steps) as u64 };
                    if back >= i as u64 { 0 } else { i - back as usize }
                } else {
                    let ahead: u64 = steps as u64;
                    if ahead >= (last - i) as u64 { last } else { i + ahead as usize }
                };
                let ghost before = views(priority@);
                let item = priority.remove(i);
                priority.insert(target, item);
                assert(views(priority@) =~= moved(before, i as int, target as int));
                self.drag = LanguageDrag::Moving(target);
                let went: i128 = target as i128 - i as i128;
                went as i64
            },
        }
    }

    /// The drag ends: the list counts as changed if it differs from what the drag found.
    pub fn end(&mut self, priority: &Vec<String>)
        ensures
            final(self).drag == LanguageDrag::Idle,
            final(self).settled == (old(self).settled || views(old(self).baseline@) != views(priority@)),
            final(self).baseline@.len() == 0,
    {
        self.drag = LanguageDrag::Idle;
        let changed = !same_list(&self.baseline, priority);
        self.settled = self.settled || changed;
        self.baseline = Vec::new();
    }

    /// The default order is restored: the list counts as changed if it was not already
    /// in that order.
    pub fn restore(&mut self, priority: &mut Vec<String>, restored: Vec<String>)
        ensures
            final(priority)@ == restored@,
            final(self).settled == (old(self).settled || views(old(priority)@) != views(restored@)),
            final(self).drag == old(self).drag,
    {
        let changed = !same_list(priority, &restored);
        self.settled = self.settled || changed;
        *priority = restored;
    }

    /// Whether the list changed since this was last asked; the answer resets.
    pub fn take_change(&mut self) -> (changed: bool)
        ensures
            changed == old(self).settled,
            !final(self).settled,
            final(self).drag == old(self).drag,
    {
        let changed = self.settled;
        self.settled = false;
        changed
    }
}

} // verus!
