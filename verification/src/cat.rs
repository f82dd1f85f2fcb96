//! The cat browser's selection: which cat, form and tab are shown, the level typed for
//! it, the cats whose talent choices are remembered, and the progress of a scan.

use vstd::prelude::*;
use std::collections::HashMap;
use crate::text::{chars_of, is_digit, all_digits, dec_value, last_index, lemma_last_index_bounds, parse_digits_u32};

verus! {

/// The tabs of a cat's detail view.
#[derive(Debug, Clone, Copy, PartialEq, Eq, Structural)]
pub enum DetailTab {
    Abilities,
    Talents,
    Details,
    Animation,
}

/// The tabs in the order they are shown.
pub open spec fn spec_tabs() -> Seq<DetailTab> {
    seq![DetailTab::Abilities, DetailTab::Talents, DetailTab::Details, DetailTab::Animation]
}

/// A tab's label.
pub open spec fn spec_tab_label(tab: DetailTab) -> Seq<char> {
    match tab {
        DetailTab::Abilities => "Abilities"@,
        DetailTab::Talents => "Talents"@,
        DetailTab::Details => "Details"@,
        DetailTab::Animation => "Animation"@,
    }
}

impl DetailTab {
    /// The tab's label.
    pub fn label(self) -> (s: &'static str)
        ensures
            s@ == spec_tab_label(self),
    {
        match self {
            DetailTab::Abilities => "Abilities",
            DetailTab::Talents => "Talents",
            DetailTab::Details => "Details",
            DetailTab::Animation => "Animation",
        }
    }
}

/// The tabs in the order they are shown.
pub fn tabs() -> (v: Vec<DetailTab>)
    ensures
        v@ == spec_tabs(),
{
    let v = vec![DetailTab::Abilities, DetailTab::Talents, DetailTab::Details, DetailTab::Animation];
    assert(v@ =~= spec_tabs());
    v
}

/// Whether a typed level may stand in the level box: digits and '+' only.
pub open spec fn spec_typable_level(s: Seq<char>) -> bool {
    forall|i: int| 0 <= i < s.len() ==> is_digit(#[trigger] s[i]) || s[i] == '+'
}

/// Whether a typed level may stand in the level box: digits and '+' only.
pub fn typable_level(value: &str) -> (b: bool)
    ensures
        b == spec_typable_level(value@),
{
    let v = chars_of(value);
    let mut i: usize = 0;
    while i < v.len()
        invariant
            i <= v.len(),
            v@ == value@,
            forall|k: int| 0 <= k < i ==> is_digit(#[trigger] value@[k]) || value@[k] == '+',
        decreases v.len() - i,
    {
        let c = v[i];
        if !(('0' <= c && c <= '9') || c == '+') {
            assert(!(is_digit(value@[i as int]) || value@[i as int] == '+'));
            return false;
        }
        i = i + 1;
    }
    true
}

/// What one '+'-separated term adds to a level: its value when it is a number that fits
/// an `i32`, else nothing.
pub open spec fn spec_term_value(t: Seq<char>) -> nat {
    if t.len() > 0 && all_digits(t) && dec_value(t) <= i32::MAX {
        dec_value(t)
    } else {
        0
    }
}

/// The sum of the '+'-separated terms of a typed level.
pub open spec fn spec_level_sum(s: Seq<char>) -> nat
    decreases s.len(),
{
    let p = last_index(s, '+', s.len() as int);
    if p < 0 || p >= s.len() {
        spec_term_value(s)
    } else {
        spec_level_sum(s.take(p)) + spec_term_value(s.skip(p + 1))
    }
}

/// The level a typed level stands for: the sum of its terms, at least 1.
pub open spec fn spec_level_of(s: Seq<char>) -> int {
    if spec_level_sum(s) == 0 { 1 } else { spec_level_sum(s) as int }
}

/// A level summed up to a '+' never exceeds the level of the whole text.
proof fn lemma_level_sum_prefix(s: Seq<char>, p: int)
    requires
        0 <= p < s.len(),
        s[p] == '+',
    ensures
        spec_level_sum(s.take(p)) <= spec_level_sum(s),
    decreases s.len(),
{
    lemma_last_index_bounds(s, '+', s.len() as int);
    let q = last_index(s, '+', s.len() as int);
    assert(q >= p);
    if q > p {
        let t = s.take(q);
        assert(t[p] == '+');
        lemma_level_sum_prefix(t, p);
        assert(t.take(p) =~= s.take(p));
    }
}

/// The level sum of the text up to position `i`, where the term that ends there starts at
/// `j` (right after a '+', or at the start).
proof fn lemma_level_sum_step(s: Seq<char>, j: int, i: int)
    requires
        0 <= j <= i <= s.len(),
        j > 0 ==> s[j - 1] == '+',
        forall|k: int| j <= k < i ==> s[k] != '+',
    ensures
        spec_level_sum(s.take(i)) == (if j == 0 { 0 } else { spec_level_sum(s.take(j - 1)) })
            + spec_term_value(s.subrange(j, i)),
{
    let t = s.take(i);
    lemma_last_index_bounds(t, '+', i);
    let q = last_index(t, '+', i);
    if j > 0 {
        assert(t[j - 1] == '+');
        assert(q == j - 1) by {
            if q > j - 1 {
                assert(t[q] == s[q]);
            }
            if q < j - 1 {
                assert(t[j - 1] != '+');
            }
        }
        assert(t.take(j - 1) =~= s.take(j - 1));
        assert(t.skip(j) =~= s.subrange(j, i));
    } else {
        assert(q < 0) by {
            if q >= 0 {
                assert(t[q] == s[q]);
            }
        }
        assert(t =~= s.subrange(j, i));
    }
}

/// The value a term adds, computed.
fn term_value(v: &Vec<char>, from: usize, to: usize) -> (n: u32)
    requires
        from <= to <= v.len(),
    ensures
        n as nat == spec_term_value(v@.subrange(from as int, to as int)),
        n <= i32::MAX,
{
    let ghost t = v@.subrange(from as int, to as int);
    if from == to {
        return 0;
    }
    let mut k = from;
    while k < to
        invariant
            from <= k <= to,
            to <= v.len(),
            t == v@.subrange(from as int, to as int),
            forall|m: int| 0 <= m < k - from ==> is_digit(#[trigger] t[m]),
        decreases to - k,
    {
        let c = v[k];
        assert(t[k - from] == c);
        if !('0' <= c && c <= '9') {
            assert(!all_digits(t));
            return 0;
        }
        k = k + 1;
    }
    assert(all_digits(t));
    match parse_digits_u32(v, from, to) {
        None => 0,
        Some(x) => if x <= 2147483647 { x } else { 0 },
    }
}

/// The sum of the terms of `value`, or `None` when it does not fit an `i32`.
fn level_sum(value: &str) -> (r: Option<u32>)
    ensures
        r matches Some(n) ==> n as nat == spec_level_sum(value@) && n <= i32::MAX,
        r is None <==> spec_level_sum(value@) > i32::MAX,
{
    let v = chars_of(value);
    let ghost s = value@;
    let n = v.len();
    let mut i: usize = 0;
    let mut j: usize = 0;
    let mut done: u32 = 0;
    while i < n
        invariant
            v@ == s,
            s == value@,
            n == s.len(),
            j <= i <= n,
            j > 0 ==> s[j - 1] == '+',
            forall|k: int| j <= k < i ==> s[k] != '+',
            done as nat == (if j == 0 { 0 } else { spec_level_sum(s.take(j - 1)) }),
            done <= i32::MAX,
        decreases n - i,
    {
        if v[i] == '+' {
            let tv = term_value(&v, j, i);
            proof {
                lemma_level_sum_step(s, j as int, i as int);
            }
            if done as u64 + tv as u64 > 2147483647u64 {
                proof {
                    assert(s[i as int] == '+');
                    lemma_level_sum_prefix(s, i as int);
                    assert(spec_level_sum(s.take(i as int)) == done as nat + tv as nat);
                }
                return None;
            }
            done = done + tv;
            j = i + 1;
        }
        i = i + 1;
    }
    let tv = term_value(&v, j, n);
    proof {
        lemma_level_sum_step(s, j as int, n as int);
        assert(s.take(n as int) =~= s);
    }
    if done as u64 + tv as u64 > 2147483647u64 {
        return None;
    }
    Some(done + tv)
}

/// Whether the level typed in `value` can be summed without overflowing an `i32`.
pub fn level_fits(value: &str) -> (b: bool)
    ensures
        b == (spec_level_sum(value@) <= i32::MAX),
{
    level_sum(value).is_some()
}

/// The level a typed level stands for: the sum of its '+'-separated terms (terms that
/// are empty or too large count nothing), at least 1.
pub fn level_of(value: &str) -> (level: i32)
    requires
        spec_typable_level(value@),
        spec_level_sum(value@) <= i32::MAX,
    ensures
        level == spec_level_of(value@),
        level >= 1,
{
    match level_sum(value) {
        Some(n) => if n == 0 { 1 } else { n as i32 },
        None => 1,
    }
}

/// How many cats keep their talent choices; the one chosen longest ago is forgotten first.
pub const TALENT_HISTORY_CAP: usize = 3;

/// The history once `id` moved to (or joined) its end, before trimming.
pub open spec fn spec_moved(h: Seq<u32>, id: u32) -> Seq<u32> {
    h.remove_value(id).push(id)
}

/// The history after `id` was chosen: `id` last, at most the cap long.
pub open spec fn spec_remembered(h: Seq<u32>, id: u32) -> Seq<u32> {
    let m = spec_moved(h, id);
    if m.len() > TALENT_HISTORY_CAP { m.skip(m.len() - TALENT_HISTORY_CAP) } else { m }
}

/// The cats whose talent choices are forgotten when `id` is chosen, oldest first.
pub open spec fn spec_evicted(h: Seq<u32>, id: u32) -> Seq<u32> {
    let m = spec_moved(h, id);
    if m.len() > TALENT_HISTORY_CAP { m.take(m.len() - TALENT_HISTORY_CAP) } else { Seq::empty() }
}

/// Moves `id` to the end of the talent history and trims it to the cap; returns the cats
/// that fell out, whose talent choices are to be forgotten.
pub fn remember_talents(history: &mut Vec<u32>, id: u32) -> (evicted: Vec<u32>)
    ensures
        final(history)@ == spec_remembered(old(history)@, id),
        evicted@ == spec_evicted(old(history)@, id),
{
    let ghost h = history@;
    let mut i: usize = 0;
    while i < history.len() && history[i] != id
        invariant
            i <= history.len(),
            history@ == h,
            forall|k: int| 0 <= k < i ==> history@[k] != id,
        decreases history.len() - i,
    {
        i = i + 1;
    }
    proof {
        h.index_of_first_ensures(id);
    }
    if i < history.len() {
        proof {
            assert(h[i as int] == id);
            assert(h.contains(id));
            let j = h.index_of_first(id)->0;
            assert(j == i as int) by {
                if j < i as int {
                    assert(h[j] != id);
                }
                if j > i as int {
                    assert(h[i as int] == id);
                }
            }
        }
        history.remove(i);
    } else {
        assert(!h.contains(id));
    }
    history.push(id);
    let ghost m = history@;
    assert(m == spec_moved(h, id));
    let mut evicted: Vec<u32> = Vec::new();
    while history.len() > TALENT_HISTORY_CAP
        invariant
            evicted@ + history@ == m,
            m.len() > TALENT_HISTORY_CAP ==> history@.len() >= TALENT_HISTORY_CAP,
            m.len() <= TALENT_HISTORY_CAP ==> history@ == m,
        decreases history.len(),
    {
        let first = history.remove(0);
        proof {
            assert(evicted@.push(first) + history@ =~= m);
        }
        evicted.push(first);
    }
    proof {
        if m.len() > TALENT_HISTORY_CAP {
            assert(evicted@.len() == m.len() - TALENT_HISTORY_CAP);
            assert(evicted@ =~= m.take(m.len() - TALENT_HISTORY_CAP));
            assert(history@ =~= m.skip(m.len() - TALENT_HISTORY_CAP));
        } else {
            assert(evicted@.len() == 0);
            assert(history@ =~= m);
            assert(evicted@ =~= Seq::<u32>::empty());
        }
    }
    evicted
}

/// Moves `id` to the end of the talent history, trims it to the cap, and forgets the
/// talent choices of the cats that fell out; every other cat keeps its choices.
pub fn push_talent_history<V>(history: &mut Vec<u32>, levels: &mut HashMap<u32, V>, id: u32)
    ensures
        final(history)@ == spec_remembered(old(history)@, id),
        final(levels)@ == old(levels)@.remove_keys(spec_evicted(old(history)@, id).to_set()),
{
    broadcast use vstd::std_specs::hash::group_hash_axioms;
    let evicted = remember_talents(history, id);
    let mut i: usize = 0;
    assert(evicted@.take(0).to_set() =~= Set::<u32>::empty());
    assert(levels@ =~= old(levels)@.remove_keys(Set::<u32>::empty()));
    while i < evicted.len()
        invariant
            i <= evicted.len(),
            levels@ == old(levels)@.remove_keys(evicted@.take(i as int).to_set()),
        decreases evicted.len() - i,
    {
        let ghost before = levels@;
        levels.remove(&evicted[i]);
        proof {
            assert(evicted@.take(i as int + 1) =~= evicted@.take(i as int).push(evicted@[i as int]));
            evicted@.take(i as int).lemma_push_to_set_commute(evicted@[i as int]);
            assert(levels@ =~= old(levels)@.remove_keys(evicted@.take(i as int + 1).to_set()));
        }
        i = i + 1;
    }
    assert(evicted@.take(evicted@.len() as int) =~= evicted@);
}

/// The talent history stays short and names each cat once: from a valid history,
/// choosing any cat leaves it last in a valid history.
pub proof fn law_talent_history_bounded(h: Seq<u32>, id: u32)
    requires
        h.no_duplicates(),
        h.len() <= TALENT_HISTORY_CAP,
    ensures
        spec_remembered(h, id).no_duplicates(),
        spec_remembered(h, id).len() <= TALENT_HISTORY_CAP,
        spec_remembered(h, id).last() == id,
        spec_remembered(h, id).contains(id),
        spec_evicted(h, id).len() <= 1,
        forall|q: u32| #[trigger] h.contains(q) ==> spec_remembered(h, id).contains(q) || spec_evicted(h, id).contains(q),
{
    h.index_of_first_ensures(id);
    let r = h.remove_value(id);
    if h.contains(id) {
        crate::seqs::lemma_remove_unique(h, h.index_of_first(id)->0);
        assert(!r.contains(id));
    }
    crate::seqs::lemma_push_unique(r, id);
    let m = r.push(id);
    assert(m.last() == id);
    if m.len() > TALENT_HISTORY_CAP {
        let t = m.skip(m.len() - TALENT_HISTORY_CAP);
        assert forall|a: int, b: int| 0 <= a < t.len() && 0 <= b < t.len() && a != b implies t[a] != t[b] by {
            assert(t[a] == m[a + m.len() - TALENT_HISTORY_CAP]);
            assert(t[b] == m[b + m.len() - TALENT_HISTORY_CAP]);
        }
        assert(t.last() == m.last());
        assert(t.contains(id)) by {
            assert(t[t.len() - 1] == id);
        }
        assert forall|q: u32| #[trigger] h.contains(q) implies t.contains(q) || m.take(m.len() - TALENT_HISTORY_CAP).contains(q) by {
            if q != id {
                assert(r.contains(q));
            }
            assert(m.contains(q));
            let k = choose|k: int| 0 <= k < m.len() && m[k] == q;
            if k < m.len() - TALENT_HISTORY_CAP {
                assert(m.take(m.len() - TALENT_HISTORY_CAP)[k] == q);
            } else {
                assert(t[k - (m.len() - TALENT_HISTORY_CAP)] == q);
            }
        }
    } else {
        assert(m.contains(id)) by {
            assert(m[m.len() - 1] == id);
        }
        assert forall|q: u32| #[trigger] h.contains(q) implies m.contains(q) by {
            if q != id {
                assert(r.contains(q));
            }
        }
    }
}

/// The last index below `i` where `f` holds, or -1.
pub open spec fn last_where(f: spec_fn(int) -> bool, i: int) -> int
    decreases i,
{
    if i <= 0 {
        -1
    } else if f(i - 1) {
        i - 1
    } else {
        last_where(f, i - 1)
    }
}

proof fn lemma_last_where(f: spec_fn(int) -> bool, i: int)
    ensures
        -1 <= last_where(f, i),
        i > 0 ==> last_where(f, i) < i,
        last_where(f, i) >= 0 ==> f(last_where(f, i)),
        forall|j: int| last_where(f, i) < j < i ==> !#[trigger] f(j),
    decreases i,
{
    if i > 0 && !f(i - 1) {
        lemma_last_where(f, i - 1);
    }
}

/// The highest form the cat has, or the first when it has none.
pub open spec fn spec_max_form(forms: Seq<bool>) -> int {
    let l = last_where(|k: int| forms[k], forms.len() as int);
    if l < 0 { 0 } else { l }
}

/// The highest form is the last form the cat has: no later form is had, and a cat with
/// no form at all falls back to the first.
pub proof fn law_highest_form_is_the_last_one_had(forms: Seq<bool>)
    ensures
        0 <= spec_max_form(forms),
        forms.len() > 0 ==> spec_max_form(forms) < forms.len(),
        forall|j: int| spec_max_form(forms) < j < forms.len() ==> !#[trigger] forms[j],
        (exists|j: int| 0 <= j < forms.len() && #[trigger] forms[j]) ==> forms[spec_max_form(forms)],
        (forall|j: int| 0 <= j < forms.len() ==> !#[trigger] forms[j]) ==> spec_max_form(forms) == 0,
{
    let f = |k: int| forms[k];
    lemma_last_where(f, forms.len() as int);
    let l = last_where(f, forms.len() as int);
    assert forall|j: int| spec_max_form(forms) < j < forms.len() implies !#[trigger] forms[j] by {
        assert(!f(j));
    }
    if exists|j: int| 0 <= j < forms.len() && #[trigger] forms[j] {
        let j = choose|j: int| 0 <= j < forms.len() && #[trigger] forms[j];
        if l < 0 {
            assert(!f(j));
        }
    }
}

/// The form and tab kept when a cat's data is (re)loaded: an absent or out-of-range form
/// falls back to the cat's highest form, and the talents tab is left for the abilities
/// tab when the form has no talents (below the third form, or a cat without talents).
pub open spec fn spec_clamped(form: usize, tab: DetailTab, forms: Seq<bool>, has_talents: bool) -> (usize, DetailTab) {
    let max_form = spec_max_form(forms);
    let exists = form < forms.len() && forms[form as int];
    let f = if form > max_form || !exists { max_form as usize } else { form };
    let t = if tab == DetailTab::Talents && (f < 2 || !has_talents) { DetailTab::Abilities } else { tab };
    (f, t)
}

fn max_form(forms: &Vec<bool>) -> (m: usize)
    ensures
        m == spec_max_form(forms@),
{
    let ghost f = |k: int| forms@[k];
    let mut i: usize = forms.len();
    while i > 0 && !forms[i - 1]
        invariant
            i <= forms.len(),
            f == (|k: int| forms@[k]),
            last_where(f, i as int) == last_where(f, forms@.len() as int),
        decreases i,
    {
        i = i - 1;
    }
    proof {
        lemma_last_where(f, forms@.len() as int);
    }
    if i == 0 { 0 } else { i - 1 }
}

/// The form and tab kept when a cat's data is (re)loaded.
pub fn clamped_selection(form: usize, tab: DetailTab, forms: &Vec<bool>, has_talents: bool) -> (r: (usize, DetailTab))
    ensures
        r == spec_clamped(form, tab, forms@, has_talents),
{
    let max = max_form(forms);
    let exists = form < forms.len() && forms[form];
    let f = if form > max || !exists { max } else { form };
    let t = if tab == DetailTab::Talents && (f < 2 || !has_talents) { DetailTab::Abilities } else { tab };
    (f, t)
}

/// The tab kept when another form is chosen: forms below the third have no talents.
pub open spec fn spec_tab_for_form(tab: DetailTab, form: usize) -> DetailTab {
    if tab == DetailTab::Talents && form < 2 { DetailTab::Abilities } else { tab }
}

/// The form whose art stands for a cat in a list drawn at `banner_form`: the highest form
/// up to it that exists and has banner art, else the highest that exists, else the first
/// that exists anywhere, else the first.
pub open spec fn spec_shown_form(forms: Seq<bool>, banners: Seq<bool>, banner_form: usize) -> int {
    let highest = if banner_form < forms.len() - 1 { banner_form as int } else { forms.len() - 1 };
    let with_art = last_where(|k: int| forms[k] && banners[k], highest + 1);
    let present = last_where(|k: int| forms[k], highest + 1);
    let anywhere = last_where(|k: int| forms[k] && forall|m: int| 0 <= m < k ==> !forms[m], forms.len() as int);
    if with_art >= 0 {
        with_art
    } else if present >= 0 {
        present
    } else if anywhere >= 0 {
        anywhere
    } else {
        0
    }
}

/// The form whose art stands for a cat in a list drawn at `banner_form`.
pub fn shown_form(forms: &Vec<bool>, banners: &Vec<bool>, banner_form: usize) -> (r: usize)
    requires
        forms.len() >= 1,
        banners.len() >= forms.len(),
    ensures
        r == spec_shown_form(forms@, banners@, banner_form),
{
    let ghost fa = |k: int| forms@[k] && banners@[k];
    let ghost fp = |k: int| forms@[k];
    let ghost ff = |k: int| forms@[k] && forall|m: int| 0 <= m < k ==> !forms@[m];
    let highest = if banner_form < forms.len() - 1 { banner_form } else { forms.len() - 1 };
    let mut i: usize = highest + 1;
    while i > 0 && !(forms[i - 1] && banners[i - 1])
        invariant
            i <= highest + 1,
            highest < forms.len(),
            banners.len() >= forms.len(),
            fa == (|k: int| forms@[k] && banners@[k]),
            last_where(fa, i as int) == last_where(fa, highest as int + 1),
        decreases i,
    {
        i = i - 1;
    }
    proof {
        lemma_last_where(fa, highest as int + 1);
    }
    if i > 0 {
        return i - 1;
    }
    let mut i: usize = highest + 1;
    while i > 0 && !forms[i - 1]
        invariant
            i <= highest + 1,
            highest < forms.len(),
            fp == (|k: int| forms@[k]),
            last_where(fp, i as int) == last_where(fp, highest as int + 1),
        decreases i,
    {
        i = i - 1;
    }
    proof {
        lemma_last_where(fp, highest as int + 1);
    }
    if i > 0 {
        return i - 1;
    }
    proof {
        let a = last_where(ff, forms@.len() as int);
        assert(spec_shown_form(forms@, banners@, banner_form) == if a >= 0 { a } else { 0 });
    }
    let mut k: usize = 0;
    while k < forms.len()
        invariant
            k <= forms.len(),
            spec_shown_form(forms@, banners@, banner_form) == (if last_where(ff, forms@.len() as int) >= 0 {
                last_where(ff, forms@.len() as int)
            } else {
                0
            }),
            ff == (|k: int| forms@[k] && forall|m: int| 0 <= m < k ==> !forms@[m]),
            forall|m: int| 0 <= m < k ==> !forms@[m],
        decreases forms.len() - k,
    {
        if forms[k] {
            proof {
                lemma_last_where(ff, forms@.len() as int);
                assert(ff(k as int));
                let l = last_where(ff, forms@.len() as int);
                assert(l == k as int) by {
                    if l > k as int {
                        assert(ff(l));
                        assert(!forms@[k as int]);
                    }
                    if l < k as int {
                        assert(!ff(k as int));
                    }
                }
            }
            assert(spec_shown_form(forms@, banners@, banner_form) == k as int);
            return k;
        }
        k = k + 1;
    }
    proof {
        lemma_last_where(ff, forms@.len() as int);
        let l = last_where(ff, forms@.len() as int);
        if l >= 0 {
            assert(ff(l));
            assert(!forms@[l]);
        }
    }
    0
}

/// The detail view's selection and the level typed for the chosen cat.
#[derive(Debug, Clone)]
pub struct Selection {
    pub selected_cat: Option<u32>,
    pub selected_form: usize,
    pub selected_tab: DetailTab,
    pub current_level: i32,
    pub level_input: String,
    /// The cats whose talent choices are remembered, the most recently chosen last.
    pub talent_history: Vec<u32>,
}

impl Selection {
    /// Nothing chosen, level 1, the abilities tab.
    pub fn new() -> (s: Selection)
        ensures
            s.selected_cat is None,
            s.selected_form == 0,
            s.selected_tab == DetailTab::Abilities,
            s.current_level == 1,
            s.level_input@ == "1"@,
            s.talent_history@.len() == 0,
    {
        Selection {
            selected_cat: None,
            selected_form: 0,
            selected_tab: DetailTab::Abilities,
            current_level: 1,
            level_input: String::from_str("1"),
            talent_history: Vec::new(),
        }
    }

    /// A cat was chosen. Choosing the cat already shown changes nothing (`None`);
    /// otherwise it becomes the chosen cat and moves to the end of the talent history,
    /// and the cats that fall out of it are returned.
    pub fn select_cat(&mut self, id: u32) -> (evicted: Option<Vec<u32>>)
        ensures
            old(self).selected_cat == Some(id) ==> evicted is None && final(self).selected_cat == old(self).selected_cat
                && final(self).talent_history@ == old(self).talent_history@,
            old(self).selected_cat != Some(id) ==> (evicted matches Some(e)
                && e@ == spec_evicted(old(self).talent_history@, id)
                && final(self).talent_history@ == spec_remembered(old(self).talent_history@, id)
                && final(self).selected_cat == Some(id)),
            final(self).selected_form == old(self).selected_form,
            final(self).selected_tab == old(self).selected_tab,
            final(self).current_level == old(self).current_level,
            final(self).level_input@ == old(self).level_input@,
    {
        if self.selected_cat == Some(id) {
            return None;
        }
        self.selected_cat = Some(id);
        let evicted = remember_talents(&mut self.talent_history, id);
        Some(evicted)
    }

    /// Keeps the form and tab valid for the chosen cat's forms.
    pub fn clamp(&mut self, forms: &Vec<bool>, has_talents: bool)
        ensures
            (final(self).selected_form, final(self).selected_tab)
                == spec_clamped(old(self).selected_form, old(self).selected_tab, forms@, has_talents),
            final(self).selected_cat == old(self).selected_cat,
            final(self).current_level == old(self).current_level,
            final(self).level_input@ == old(self).level_input@,
            final(self).talent_history@ == old(self).talent_history@,
    {
        let (form, tab) = clamped_selection(self.selected_form, self.selected_tab, forms, has_talents);
        self.selected_form = form;
        self.selected_tab = tab;
    }

    /// Another form was chosen; the talents tab gives way on forms without talents.
    pub fn select_form(&mut self, form: usize)
        ensures
            final(self).selected_form == form,
            final(self).selected_tab == spec_tab_for_form(old(self).selected_tab, form),
            final(self).selected_cat == old(self).selected_cat,
            final(self).current_level == old(self).current_level,
            final(self).level_input@ == old(self).level_input@,
            final(self).talent_history@ == old(self).talent_history@,
    {
        self.selected_form = form;
        if self.selected_tab == DetailTab::Talents && form < 2 {
            self.selected_tab = DetailTab::Abilities;
        }
    }

    /// A level was typed. Text with anything but digits and '+' is refused and changes
    /// nothing; otherwise it stands in the box and the level becomes its sum, at least 1.
    pub fn enter_level(&mut self, input: String) -> (taken: bool)
        requires
            spec_typable_level(input@) ==> spec_level_sum(input@) <= i32::MAX,
        ensures
            taken == spec_typable_level(input@),
            taken ==> final(self).level_input@ == input@ && final(self).current_level == spec_level_of(input@),
            !taken ==> final(self).level_input@ == old(self).level_input@
                && final(self).current_level == old(self).current_level,
            final(self).current_level >= 1 || final(self).current_level == old(self).current_level,
            final(self).selected_cat == old(self).selected_cat,
            final(self).selected_form == old(self).selected_form,
            final(self).selected_tab == old(self).selected_tab,
            final(self).talent_history@ == old(self).talent_history@,
    {
        if !typable_level(input.as_str()) {
            return false;
        }
        let level = level_of(input.as_str());
        self.level_input = input;
        self.current_level = level;
        true
    }
}

/// The text put in the level box when jumping to a cat at a level: the level, then
/// "+" and the plus level when there is one.
pub open spec fn spec_jump_level(level: u16, plus: u16) -> Seq<char> {
    if plus > 0 {
        crate::text::dec(level as nat) + "+"@ + crate::text::dec(plus as nat)
    } else {
        crate::text::dec(level as nat)
    }
}

/// The text put in the level box when jumping to a cat at a level.
pub fn jump_level_input(level: u16, plus: u16) -> (s: String)
    ensures
        s@ == spec_jump_level(level, plus),
{
    let mut s = crate::text::decimal(level as u64);
    if plus > 0 {
        crate::text::push_char(&mut s, '+');
        crate::text::push_decimal(&mut s, plus as u64);
        proof {
            reveal_strlit("+");
            assert(s@ =~= spec_jump_level(level, plus));
        }
    }
    s
}

/// The successor of a generation counter, wrapping at the top.
pub open spec fn next_generation(g: u64) -> u64 {
    if g == u64::MAX { 0 } else { (g + 1) as u64 }
}

/// How far a scan got: files done out of the total.
#[derive(Debug, Clone, Copy, PartialEq, Eq, Structural)]
pub struct Progress {
    pub done: usize,
    pub total: usize,
}

/// A background scan: its generation (so that news from an older scan is ignored), the
/// progress shown while it runs, and the cache key it finished with.
#[derive(Debug, Clone, Copy, PartialEq, Eq, Structural)]
pub struct Scan {
    pub generation: u64,
    pub progress: Option<Progress>,
    pub cached_key: Option<u64>,
}

impl Scan {
    /// No scan yet.
    pub fn new() -> (s: Scan)
        ensures
            s == (Scan { generation: 0, progress: None, cached_key: None }),
    {
        Scan { generation: 0, progress: None, cached_key: None }
    }

    /// A new scan starts; news from earlier ones is ignored from now on.
    pub fn start(&mut self) -> (generation: u64)
        ensures
            generation == next_generation(old(self).generation),
            *final(self) == (Scan { generation, ..*old(self) }),
    {
        self.generation = self.generation.wrapping_add(1);
        self.generation
    }

    /// Indexing began: progress shows from nothing.
    pub fn set_indexing(&mut self)
        ensures
            *final(self) == (Scan { progress: Some(Progress { done: 0, total: 0 }), ..*old(self) }),
    {
        self.progress = Some(Progress { done: 0, total: 0 });
    }

    /// Indexing ended: no progress is shown.
    pub fn clear_indexing(&mut self)
        ensures
            *final(self) == (Scan { progress: None, ..*old(self) }),
    {
        self.progress = None;
    }

    /// Progress of scan `generation`: shown only for the current scan, and only when it
    /// moves forward.
    pub fn report(&mut self, generation: u64, done: usize, total: usize)
        ensures
            if generation == old(self).generation && (old(self).progress matches Some(p) ==> done > p.done) {
                *final(self) == (Scan { progress: Some(Progress { done, total }), ..*old(self) })
            } else {
                *final(self) == *old(self)
            },
    {
        if generation != self.generation {
            return;
        }
        let forward = match self.progress {
            None => true,
            Some(p) => done > p.done,
        };
        if forward {
            self.progress = Some(Progress { done, total });
        }
    }

    /// Scan `generation` finished with cache `key`; returns whether it is the current
    /// scan, whose result is then taken (a stale one changes nothing).
    pub fn loaded(&mut self, generation: u64, key: Option<u64>) -> (current: bool)
        ensures
            current == (generation == old(self).generation),
            current ==> *final(self) == (Scan { progress: None, cached_key: key, ..*old(self) }),
            !current ==> *final(self) == *old(self),
    {
        if generation != self.generation {
            return false;
        }
        self.cached_key = key;
        self.progress = None;
        true
    }
}

} // verus!
