//! Talent orbs: reading the names of orb effects from the game's explanation table,
//! which trait an orb keeps when its effect changes, and how the orb picker labels
//! effects, traits and grades.

use vstd::prelude::*;
use crate::text::{chars_of, dec_int, decimal_signed, push_str, string_of_range};

verus! {

/// Whether `c` is white space as Unicode defines it.
pub open spec fn spec_white(c: char) -> bool {
    ('\u{9}' <= c && c <= '\u{d}') || c == ' ' || c == '\u{85}' || c == '\u{a0}' || c == '\u{1680}'
        || ('\u{2000}' <= c && c <= '\u{200a}') || c == '\u{2028}' || c == '\u{2029}' || c == '\u{202f}'
        || c == '\u{205f}' || c == '\u{3000}'
}

/// Whether `c` is white space as Unicode defines it.
pub fn is_white(c: char) -> (b: bool)
    ensures
        b == spec_white(c),
{
    ('\u{9}' <= c && c <= '\u{d}') || c == ' ' || c == '\u{85}' || c == '\u{a0}' || c == '\u{1680}'
        || ('\u{2000}' <= c && c <= '\u{200a}') || c == '\u{2028}' || c == '\u{2029}' || c == '\u{202f}'
        || c == '\u{205f}' || c == '\u{3000}'
}

/// The position of the first `c` in `s` at or after `i`, or the length.
pub open spec fn find_char(s: Seq<char>, c: char, i: int) -> int
    decreases s.len() - i,
{
    if i >= s.len() {
        s.len() as int
    } else if s[i] == c {
        i
    } else {
        find_char(s, c, i + 1)
    }
}

/// The position of the first "%@" in `s` at or after `i`, or the length.
pub open spec fn find_placeholder(s: Seq<char>, i: int) -> int
    decreases s.len() - i,
{
    if i + 1 >= s.len() {
        s.len() as int
    } else if s[i] == '%' && s[i + 1] == '@' {
        i
    } else {
        find_placeholder(s, i + 1)
    }
}

/// The start of `s[..end]` with leading white space skipped.
pub open spec fn skip_white(s: Seq<char>, i: int, end: int) -> int
    decreases end - i,
{
    if i >= end {
        end
    } else if spec_white(s[i]) {
        skip_white(s, i + 1, end)
    } else {
        i
    }
}

/// The end of `s[start..j]` with trailing characters `strip` says to drop removed.
pub open spec fn back_over(s: Seq<char>, start: int, j: int, colon: bool) -> int
    decreases j - start,
{
    if j <= start {
        start
    } else if (colon && s[j - 1] == ':') || (!colon && spec_white(s[j - 1])) {
        back_over(s, start, j - 1, colon)
    } else {
        j
    }
}

/// The name of an orb effect on one line of the explanation table: the first column,
/// cut before the first "%@", trimmed, stripped of trailing colons, trimmed again.
pub open spec fn spec_effect_name(line: Seq<char>) -> Seq<char> {
    let head = find_char(line, '\t', 0);
    let cut = find_placeholder(line.take(head), 0);
    let a = skip_white(line, 0, cut);
    let b = back_over(line, a, cut, false);
    let c = back_over(line, a, b, true);
    let d = skip_white(line, a, c);
    let e = back_over(line, d, c, false);
    line.subrange(d, e)
}

pub proof fn lemma_find_char(s: Seq<char>, c: char, i: int)
    requires
        0 <= i <= s.len(),
    ensures
        i <= find_char(s, c, i) <= s.len(),
        find_char(s, c, i) < s.len() ==> s[find_char(s, c, i)] == c,
    decreases s.len() - i,
{
    if i < s.len() && s[i] != c {
        lemma_find_char(s, c, i + 1);
    }
}

proof fn lemma_find_placeholder(s: Seq<char>, i: int)
    requires
        0 <= i <= s.len(),
    ensures
        i <= find_placeholder(s, i) <= s.len(),
    decreases s.len() - i,
{
    if i + 1 < s.len() && !(s[i] == '%' && s[i + 1] == '@') {
        lemma_find_placeholder(s, i + 1);
    }
}

pub proof fn lemma_skip_white(s: Seq<char>, i: int, end: int)
    requires
        0 <= i <= end <= s.len(),
    ensures
        i <= skip_white(s, i, end) <= end,
    decreases end - i,
{
    if i < end && spec_white(s[i]) {
        lemma_skip_white(s, i + 1, end);
    }
}

pub proof fn lemma_back_over(s: Seq<char>, start: int, j: int, colon: bool)
    requires
        0 <= start <= j <= s.len(),
    ensures
        start <= back_over(s, start, j, colon) <= j,
    decreases j - start,
{
    if j > start && ((colon && s[j - 1] == ':') || (!colon && spec_white(s[j - 1]))) {
        lemma_back_over(s, start, j - 1, colon);
    }
}

fn skip_white_at(v: &Vec<char>, i: usize, end: usize) -> (r: usize)
    requires
        i <= end <= v.len(),
    ensures
        r == skip_white(v@, i as int, end as int),
{
    let mut k = i;
    while k < end && is_white(v[k])
        invariant
            i <= k <= end,
            end <= v.len(),
            skip_white(v@, i as int, end as int) == skip_white(v@, k as int, end as int),
        decreases end - k,
    {
        k = k + 1;
    }
    k
}

fn back_over_at(v: &Vec<char>, start: usize, j: usize, colon: bool) -> (r: usize)
    requires
        start <= j <= v.len(),
    ensures
        r == back_over(v@, start as int, j as int, colon),
{
    let mut k = j;
    while k > start && ((colon && v[k - 1] == ':') || (!colon && is_white(v[k - 1])))
        invariant
            start <= k <= j,
            j <= v.len(),
            back_over(v@, start as int, j as int, colon) == back_over(v@, start as int, k as int, colon),
        decreases k,
    {
        k = k - 1;
    }
    k
}

/// The name of an orb effect on one line of the explanation table.
pub fn effect_name(line: &str) -> (name: String)
    ensures
        name@ == spec_effect_name(line@),
{
    let v = chars_of(line);
    let n = v.len();
    let mut head: usize = 0;
    while head < n && v[head] != '\t'
        invariant
            head <= n,
            n == v@.len(),
            find_char(v@, '\t', 0) == find_char(v@, '\t', head as int),
        decreases n - head,
    {
        head = head + 1;
    }
    proof {
        lemma_find_char(v@, '\t', 0);
    }
    let ghost t = v@.take(head as int);
    let mut cut: usize = 0;
    while head - cut > 1 && !(v[cut] == '%' && v[cut + 1] == '@')
        invariant
            cut <= head,
            head <= n,
            n == v@.len(),
            t == v@.take(head as int),
            find_placeholder(t, 0) == find_placeholder(t, cut as int),
        decreases head - cut,
    {
        assert(t[cut as int] == v@[cut as int]);
        assert(t[cut + 1] == v@[cut + 1]);
        cut = cut + 1;
    }
    if head - cut <= 1 {
        cut = head;
    } else {
        assert(t[cut as int] == v@[cut as int]);
        assert(t[cut + 1] == v@[cut + 1]);
    }
    assert(find_placeholder(t, 0) == cut);
    let a = skip_white_at(&v, 0, cut);
    proof { lemma_skip_white(v@, 0, cut as int); }
    let b = back_over_at(&v, a, cut, false);
    proof { lemma_back_over(v@, a as int, cut as int, false); }
    let c = back_over_at(&v, a, b, true);
    proof { lemma_back_over(v@, a as int, b as int, true); }
    let d = skip_white_at(&v, a, c);
    proof { lemma_skip_white(v@, a as int, c as int); }
    let e = back_over_at(&v, d, c, false);
    proof { lemma_back_over(v@, d as int, c as int, false); }
    assert(v@ == line@);
    string_of_range(&v, d, e)
}

/// The lines of a text, as `str::lines` splits it: at each line feed, dropping one
/// carriage return before it; a final line feed ends the last line rather than starting
/// an empty one.
pub open spec fn spec_lines(s: Seq<char>) -> Seq<Seq<char>>
    decreases s.len(),
{
    if s.len() == 0 {
        Seq::empty()
    } else {
        let f = find_char(s, '\n', 0);
        proof {
            lemma_find_char(s, '\n', 0);
        }
        if f >= s.len() {
            seq![s]
        } else {
            let line = s.take(f);
            let kept = if line.len() > 0 && line.last() == '\r' { line.drop_last() } else { line };
            seq![kept] + spec_lines(s.skip(f + 1))
        }
    }
}

/// The effect names of the explanation table, one per line.
pub fn effect_names(content: &str) -> (names: Vec<String>)
    ensures
        names@.len() == spec_lines(content@).len(),
        forall|i: int| 0 <= i < names@.len() ==> #[trigger] names@[i]@ == spec_effect_name(spec_lines(content@)[i]),
{
    let v = chars_of(content);
    let n = v.len();
    let ghost s = content@;
    let mut names: Vec<String> = Vec::new();
    let ghost mut done: Seq<Seq<char>> = Seq::empty();
    let mut start: usize = 0;
    assert(s.skip(0) =~= s);
    assert(done + spec_lines(s.skip(0)) =~= spec_lines(s));
    while start < n
        invariant
            start <= n,
            n == v@.len(),
            v@ == s,
            s == content@,
            spec_lines(s) == done + spec_lines(s.skip(start as int)),
            names@.len() == done.len(),
            forall|i: int| 0 <= i < names@.len() ==> #[trigger] names@[i]@ == spec_effect_name(done[i]),
        decreases n - start,
    {
        let ghost rest = s.skip(start as int);
        let mut f = start;
        while f < n && v[f] != '\n'
            invariant
                start <= f <= n,
                n == v@.len(),
                v@ == s,
                rest == s.skip(start as int),
                find_char(rest, '\n', 0) == find_char(rest, '\n', (f - start) as int),
            decreases n - f,
        {
            assert(rest[(f - start) as int] == v@[f as int]);
            f = f + 1;
        }
        proof {
            lemma_find_char(rest, '\n', 0);
            if f < n {
                assert(rest[(f - start) as int] == v@[f as int]);
            }
        }
        let mut end = f;
        if f < n && end > start && v[end - 1] == '\r' {
            end = end - 1;
        }
        let line = string_of_range(&v, start, end);
        let ghost kept = line@;
        proof {
            if f < n {
                let l = rest.take((f - start) as int);
                assert(l =~= s.subrange(start as int, f as int));
                if l.len() > 0 && l.last() == '\r' {
                    assert(l.drop_last() =~= s.subrange(start as int, end as int));
                } else {
                    assert(l =~= s.subrange(start as int, end as int));
                }
                assert(rest.skip((f - start) as int + 1) =~= s.skip(f + 1));
                assert(spec_lines(rest) == seq![kept] + spec_lines(s.skip(f + 1)));
            } else {
                assert(rest =~= s.subrange(start as int, n as int));
                assert(spec_lines(rest) == seq![kept]);
                assert(s.skip(n as int) =~= Seq::<char>::empty());
            }
        }
        names.push(effect_name(line.as_str()));
        proof {
            let next = if f < n { f + 1 } else { n as int };
            assert(spec_lines(s) == done.push(kept) + spec_lines(s.skip(next))) by {
                assert(done + (seq![kept] + spec_lines(s.skip(next))) =~= done.push(kept) + spec_lines(s.skip(next)));
            }
            done = done.push(kept);
        }
        start = if f < n { f + 1 } else { n };
    }
    proof {
        assert(s.skip(n as int) =~= Seq::<char>::empty());
        assert(spec_lines(s) =~= done);
    }
    names
}

/// The trait an orb keeps when its effect changes: the trait it aimed at when the new
/// effect offers it, else the first trait offered.
pub open spec fn spec_kept_trait(offered: Seq<i32>, aimed: Option<i32>) -> Option<i32> {
    let first = if offered.len() > 0 { Some(offered[0]) } else { None };
    match aimed {
        Some(a) => if offered.contains(a) { Some(a) } else { first },
        None => first,
    }
}

/// The trait an orb keeps when its effect changes.
pub fn kept_trait(offered: &Vec<i32>, aimed: Option<i32>) -> (r: Option<i32>)
    ensures
        r == spec_kept_trait(offered@, aimed),
{
    if let Some(a) = aimed {
        let mut i: usize = 0;
        while i < offered.len()
            invariant
                i <= offered@.len(),
                aimed == Some(a),
                forall|k: int| 0 <= k < i ==> offered@[k] != a,
            decreases offered.len() - i,
        {
            if offered[i] == a {
                assert(offered@[i as int] == a);
                return Some(a);
            }
            i = i + 1;
        }
    }
    if offered.len() > 0 { Some(offered[0]) } else { None }
}

/// The sprite layers of an orb picture.
#[derive(Clone, Copy, Debug, PartialEq, Eq, Structural)]
pub enum Layer {
    Attribute,
    Effect,
    Grade,
}

impl Layer {
    /// The sprite sheet that holds a layer.
    pub fn sheet(self) -> (s: &'static str)
        ensures
            s@ == (match self {
                Layer::Attribute => "equipment_attribute"@,
                Layer::Effect => "equipment_effect"@,
                Layer::Grade => "equipment_grade"@,
            }),
    {
        match self {
            Layer::Attribute => "equipment_attribute",
            Layer::Effect => "equipment_effect",
            Layer::Grade => "equipment_grade",
        }
    }
}

/// An orb effect offered in the orb picker.
#[derive(Clone, Debug, PartialEq, Eq)]
pub struct Choice {
    pub content: i32,
    pub label: String,
}

/// The name of an orb effect: its entry in the effect names, unless that is missing or
/// empty, in which case "Effect" and the number.
pub open spec fn spec_effect_label(effects: Seq<Seq<char>>, content: i32) -> Seq<char> {
    if 0 <= content < effects.len() && effects[content as int].len() > 0 {
        effects[content as int]
    } else {
        "Effect "@ + dec_int(content as int)
    }
}

/// The name of an orb effect.
pub fn effect_label(effects: &Vec<String>, content: i32) -> (s: String)
    ensures
        s@ == spec_effect_label(effects@.map_values(|e: String| e@), content),
{
    let ghost names = effects@.map_values(|e: String| e@);
    if content >= 0 && (content as usize) < effects.len() {
        let name = &effects[content as usize];
        assert(names[content as int] == name@);
        let v = chars_of(name.as_str());
        if v.len() > 0 {
            return name.clone();
        }
    }
    let mut s = String::new();
    push_str(&mut s, "Effect ");
    let n = crate::text::decimal_signed(content as i64);
    push_str(&mut s, n.as_str());
    s
}

impl Choice {
    /// An orb effect with its label.
    pub fn new(effects: &Vec<String>, content: i32) -> (c: Choice)
        ensures
            c.content == content,
            c.label@ == spec_effect_label(effects@.map_values(|e: String| e@), content),
    {
        Choice { content, label: effect_label(effects, content) }
    }
}

/// The enemy traits an orb can target, by number.
pub open spec fn traits() -> Seq<Seq<char>> {
    seq![
        "Red"@, "Floating"@, "Dark"@, "Metal"@, "Angel"@, "Alien"@,
        "Zombie"@, "Relic"@, "Traitless"@, "Witch"@, "Eva"@, "Aku"@,
    ]
}

/// The trait an orb targets.
#[derive(Clone, Copy, Debug, PartialEq, Eq, Structural)]
pub struct Aim(pub i32);

/// The name of a trait: its name when known, otherwise "Trait" and the number.
pub open spec fn spec_aim_label(aim: i32) -> Seq<char> {
    if 0 <= aim < 12 {
        traits()[aim as int]
    } else {
        "Trait "@ + dec_int(aim as int)
    }
}

impl Aim {
    /// The name of the targeted trait.
    pub fn label(self) -> (s: String)
        ensures
            s@ == spec_aim_label(self.0),
    {
        let mut s = String::new();
        match self.0 {
            0 => push_str(&mut s, "Red"),
            1 => push_str(&mut s, "Floating"),
            2 => push_str(&mut s, "Dark"),
            3 => push_str(&mut s, "Metal"),
            4 => push_str(&mut s, "Angel"),
            5 => push_str(&mut s, "Alien"),
            6 => push_str(&mut s, "Zombie"),
            7 => push_str(&mut s, "Relic"),
            8 => push_str(&mut s, "Traitless"),
            9 => push_str(&mut s, "Witch"),
            10 => push_str(&mut s, "Eva"),
            11 => push_str(&mut s, "Aku"),
            n => {
                push_str(&mut s, "Trait ");
                let d = crate::text::decimal_signed(n as i64);
                push_str(&mut s, d.as_str());
            },
        }
        assert(s@ =~= spec_aim_label(self.0));
        s
    }
}

/// An orb grade, by number.
#[derive(Clone, Copy, Debug, PartialEq, Eq, Structural)]
pub struct Grade(pub usize);

impl Grade {
    /// The name of the grade among `grades`, or "?" when there is none.
    pub fn label(self, grades: &Vec<String>) -> (s: String)
        ensures
            s@ == (if self.0 < grades@.len() { grades@[self.0 as int]@ } else { "?"@ }),
    {
        if self.0 < grades.len() {
            grades[self.0].clone()
        } else {
            let mut s = String::new();
            push_str(&mut s, "?");
            s
        }
    }
}

/// What an orb pick asks of the lineup: keep what is worn, or equip an orb (or none).
#[derive(Clone, Copy, Debug, PartialEq, Eq, Structural)]
pub enum Outcome {
    Keep,
    Equip(Option<u32>),
}

} // verus!
